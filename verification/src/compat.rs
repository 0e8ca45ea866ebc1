//! The pairwise license-compatibility engine: may a consumer under one
//! license include a dependency under another? The answer is three-valued;
//! indeterminacy is a value, never an error.

use vstd::prelude::*;

use crate::license::{lemma_views_of, views_of, License, LicenseView};

verus! {

/// Three-valued compatibility verdict.
#[derive(Debug, Clone, Copy, PartialEq, Eq, Structural)]
pub enum Compat {
    Included,
    Excluded,
    Unknown,
}

/// The static inclusion table over the named identifiers (and an absent
/// consumer license): whether a consumer under `a` may include a dependency
/// under `b`. Permissive licenses are mutually includable; each copyleft
/// family includes same-or-lesser-restrictive versions of itself and the
/// permissive set.
pub open spec fn table_includes(a: LicenseView, b: LicenseView) -> bool {
    match a {
        LicenseView::Unspecified => matches!(
            b,
            LicenseView::MIT | LicenseView::X11 | LicenseView::BSD_3_Clause,
        ),
        LicenseView::MIT => matches!(b, LicenseView::MIT | LicenseView::X11),
        LicenseView::X11 => matches!(b, LicenseView::MIT | LicenseView::X11),
        LicenseView::BSD_3_Clause => matches!(
            b,
            LicenseView::MIT | LicenseView::X11 | LicenseView::BSD_3_Clause,
        ),
        LicenseView::Apache_2_0 => matches!(
            b,
            LicenseView::MIT | LicenseView::X11 | LicenseView::BSD_3_Clause
            | LicenseView::Apache_2_0,
        ),
        LicenseView::MPL_1_1 => matches!(
            b,
            LicenseView::MIT | LicenseView::X11 | LicenseView::BSD_3_Clause
            | LicenseView::MPL_1_1,
        ),
        LicenseView::MPL_2_0 => matches!(
            b,
            LicenseView::MIT | LicenseView::X11 | LicenseView::BSD_3_Clause
            | LicenseView::MPL_2_0,
        ),
        LicenseView::LGPL_2_1Plus => matches!(
            b,
            LicenseView::MIT | LicenseView::X11 | LicenseView::BSD_3_Clause
            | LicenseView::MPL_2_0 | LicenseView::LGPL_2_1Plus,
        ),
        LicenseView::LGPL_2_1 => matches!(
            b,
            LicenseView::MIT | LicenseView::X11 | LicenseView::BSD_3_Clause
            | LicenseView::MPL_2_0 | LicenseView::LGPL_2_1Plus
            | LicenseView::LGPL_2_1,
        ),
        LicenseView::LGPL_3_0Plus => matches!(
            b,
            LicenseView::MIT | LicenseView::X11 | LicenseView::BSD_3_Clause
            | LicenseView::MPL_2_0 | LicenseView::Apache_2_0
            | LicenseView::LGPL_2_1Plus | LicenseView::LGPL_3_0Plus,
        ),
        LicenseView::LGPL_3_0 => matches!(
            b,
            LicenseView::MIT | LicenseView::X11 | LicenseView::BSD_3_Clause
            | LicenseView::MPL_2_0 | LicenseView::Apache_2_0
            | LicenseView::LGPL_2_1Plus | LicenseView::LGPL_3_0Plus
            | LicenseView::LGPL_3_0,
        ),
        LicenseView::GPL_2_0Plus => matches!(
            b,
            LicenseView::MIT | LicenseView::X11 | LicenseView::BSD_3_Clause
            | LicenseView::MPL_2_0 | LicenseView::LGPL_2_1Plus
            | LicenseView::LGPL_2_1 | LicenseView::GPL_2_0Plus,
        ),
        LicenseView::GPL_2_0 => matches!(
            b,
            LicenseView::MIT | LicenseView::X11 | LicenseView::BSD_3_Clause
            | LicenseView::MPL_2_0 | LicenseView::LGPL_2_1Plus
            | LicenseView::LGPL_2_1 | LicenseView::GPL_2_0Plus
            | LicenseView::GPL_2_0,
        ),
        LicenseView::GPL_3_0Plus => matches!(
            b,
            LicenseView::MIT | LicenseView::X11 | LicenseView::BSD_3_Clause
            | LicenseView::MPL_2_0 | LicenseView::Apache_2_0
            | LicenseView::LGPL_2_1Plus | LicenseView::LGPL_2_1
            | LicenseView::GPL_2_0Plus | LicenseView::GPL_3_0Plus,
        ),
        LicenseView::GPL_3_0 => matches!(
            b,
            LicenseView::MIT | LicenseView::X11 | LicenseView::BSD_3_Clause
            | LicenseView::MPL_2_0 | LicenseView::Apache_2_0
            | LicenseView::LGPL_2_1Plus | LicenseView::LGPL_2_1
            | LicenseView::GPL_2_0Plus | LicenseView::GPL_3_0Plus
            | LicenseView::GPL_3_0,
        ),
        LicenseView::AGPL_1_0 => matches!(
            b,
            LicenseView::MIT | LicenseView::X11 | LicenseView::BSD_3_Clause
            | LicenseView::MPL_2_0 | LicenseView::Apache_2_0
            | LicenseView::LGPL_2_1Plus | LicenseView::LGPL_2_1
            | LicenseView::GPL_2_0Plus | LicenseView::GPL_3_0Plus
            | LicenseView::GPL_3_0 | LicenseView::AGPL_1_0,
        ),
        _ => false,
    }
}

/// The compatibility verdict for a consumer under `a` including a dependency
/// under `b`. An absent dependency license is never includable; custom and
/// file-based terms cannot be reasoned about; a composite consumer must have
/// every alternative accept (an excluded alternative dominates an unknown
/// one); a composite dependency needs only one accepted alternative (an
/// included alternative dominates an unknown one); LGPL-2.0 is deliberately
/// unmodeled; any other pair is read off the static table.
pub open spec fn spec_can_include(a: LicenseView, b: LicenseView) -> Compat
    decreases a, b,
{
    if b is Unspecified {
        Compat::Excluded
    } else if a is Custom || a is File || b is Custom || b is File {
        Compat::Unknown
    } else if a is Multiple {
        include_all(a->Multiple_0, b)
    } else if b is Multiple {
        include_any(a, b->Multiple_0)
    } else if a is LGPL_2_0 || b is LGPL_2_0 {
        Compat::Unknown
    } else if table_includes(a, b) {
        Compat::Included
    } else {
        Compat::Excluded
    }
}

/// Conjunction over the alternatives of a composite consumer: an excluded
/// alternative dominates, an unknown one degrades the verdict, and an empty
/// set of obstacles leaves the dependency included.
pub open spec fn include_all(ms: Seq<LicenseView>, b: LicenseView) -> Compat
    decreases ms, b,
{
    if ms.len() == 0 {
        Compat::Included
    } else {
        let head = spec_can_include(ms[0], b);
        let rest = include_all(ms.drop_first(), b);
        if head == Compat::Excluded || rest == Compat::Excluded {
            Compat::Excluded
        } else if head == Compat::Unknown || rest == Compat::Unknown {
            Compat::Unknown
        } else {
            Compat::Included
        }
    }
}

/// Disjunction over the alternatives of a composite dependency: an included
/// alternative suffices, an unknown one blocks a firm exclusion, and no
/// alternatives at all leave the dependency excluded.
pub open spec fn include_any(a: LicenseView, ms: Seq<LicenseView>) -> Compat
    decreases a, ms,
{
    if ms.len() == 0 {
        Compat::Excluded
    } else {
        let head = spec_can_include(a, ms[0]);
        let rest = include_any(a, ms.drop_first());
        if head == Compat::Included || rest == Compat::Included {
            Compat::Included
        } else if head == Compat::Unknown || rest == Compat::Unknown {
            Compat::Unknown
        } else {
            Compat::Excluded
        }
    }
}

/// The conjunctive fold answers excluded exactly when some alternative is
/// excluded, unknown exactly when none is excluded but some is unknown, and
/// included exactly when every alternative is included.
pub proof fn lemma_include_all_cases(ms: Seq<LicenseView>, b: LicenseView)
    ensures
        (include_all(ms, b) == Compat::Excluded) <==> (exists|i: int|
            0 <= i < ms.len() && #[trigger] spec_can_include(ms[i], b) == Compat::Excluded),
        (include_all(ms, b) == Compat::Unknown) <==> ((forall|i: int|
            0 <= i < ms.len() ==> #[trigger] spec_can_include(ms[i], b) != Compat::Excluded)
            && (exists|i: int|
            0 <= i < ms.len() && #[trigger] spec_can_include(ms[i], b) == Compat::Unknown)),
        (include_all(ms, b) == Compat::Included) <==> (forall|i: int|
            0 <= i < ms.len() ==> #[trigger] spec_can_include(ms[i], b) == Compat::Included),
    decreases ms.len(),
{
    if ms.len() > 0 {
        let tail = ms.drop_first();
        lemma_include_all_cases(tail, b);
        let head = spec_can_include(ms[0], b);
        assert forall|j: int| 0 <= j < tail.len() implies #[trigger] spec_can_include(tail[j], b)
            == spec_can_include(ms[j + 1], b) by {
            assert(tail[j] == ms[j + 1]);
        }
        assert forall|i: int| 1 <= i < ms.len() implies #[trigger] spec_can_include(ms[i], b)
            == spec_can_include(tail[i - 1], b) by {
            assert(tail[i - 1] == ms[i]);
        }
        if include_all(tail, b) == Compat::Excluded {
            let j = choose|j: int|
                0 <= j < tail.len() && #[trigger] spec_can_include(tail[j], b)
                    == Compat::Excluded;
            assert(spec_can_include(ms[j + 1], b) == Compat::Excluded);
        }
        if include_all(tail, b) == Compat::Unknown {
            let j = choose|j: int|
                0 <= j < tail.len() && #[trigger] spec_can_include(tail[j], b)
                    == Compat::Unknown;
            assert(spec_can_include(ms[j + 1], b) == Compat::Unknown);
        }
        if exists|i: int|
            0 <= i < ms.len() && #[trigger] spec_can_include(ms[i], b) == Compat::Excluded {
            let i = choose|i: int|
                0 <= i < ms.len() && #[trigger] spec_can_include(ms[i], b) == Compat::Excluded;
            if i > 0 {
                assert(spec_can_include(tail[i - 1], b) == Compat::Excluded);
            }
        }
        if exists|i: int|
            0 <= i < ms.len() && #[trigger] spec_can_include(ms[i], b) == Compat::Unknown {
            let i = choose|i: int|
                0 <= i < ms.len() && #[trigger] spec_can_include(ms[i], b) == Compat::Unknown;
            if i > 0 {
                assert(spec_can_include(tail[i - 1], b) == Compat::Unknown);
            }
        }
        if head == Compat::Excluded {
            assert(0 <= 0 < ms.len() && spec_can_include(ms[0], b) == Compat::Excluded);
        }
        if head == Compat::Unknown {
            assert(0 <= 0 < ms.len() && spec_can_include(ms[0], b) == Compat::Unknown);
        }
        if head != Compat::Excluded && include_all(tail, b) != Compat::Excluded {
            assert forall|i: int| 0 <= i < ms.len() implies #[trigger] spec_can_include(ms[i], b)
                != Compat::Excluded by {
                if i > 0 {
                    assert(spec_can_include(tail[i - 1], b) != Compat::Excluded);
                }
            }
        }
    }
}

/// The disjunctive fold answers included exactly when some alternative is
/// included, unknown exactly when none is included but some is unknown, and
/// excluded exactly when every alternative is excluded.
pub proof fn lemma_include_any_cases(a: LicenseView, ms: Seq<LicenseView>)
    ensures
        (include_any(a, ms) == Compat::Included) <==> (exists|i: int|
            0 <= i < ms.len() && #[trigger] spec_can_include(a, ms[i]) == Compat::Included),
        (include_any(a, ms) == Compat::Unknown) <==> ((forall|i: int|
            0 <= i < ms.len() ==> #[trigger] spec_can_include(a, ms[i]) != Compat::Included)
            && (exists|i: int|
            0 <= i < ms.len() && #[trigger] spec_can_include(a, ms[i]) == Compat::Unknown)),
        (include_any(a, ms) == Compat::Excluded) <==> (forall|i: int|
            0 <= i < ms.len() ==> #[trigger] spec_can_include(a, ms[i]) == Compat::Excluded),
    decreases ms.len(),
{
    if ms.len() > 0 {
        let tail = ms.drop_first();
        lemma_include_any_cases(a, tail);
        assert forall|j: int| 0 <= j < tail.len() implies #[trigger] spec_can_include(a, tail[j])
            == spec_can_include(a, ms[j + 1]) by {
            assert(tail[j] == ms[j + 1]);
        }
        assert forall|i: int| 1 <= i < ms.len() implies #[trigger] spec_can_include(a, ms[i])
            == spec_can_include(a, tail[i - 1]) by {
            assert(tail[i - 1] == ms[i]);
        }
        if include_any(a, tail) == Compat::Included {
            let j = choose|j: int|
                0 <= j < tail.len() && #[trigger] spec_can_include(a, tail[j])
                    == Compat::Included;
            assert(spec_can_include(a, ms[j + 1]) == Compat::Included);
        }
        if include_any(a, tail) == Compat::Unknown {
            let j = choose|j: int|
                0 <= j < tail.len() && #[trigger] spec_can_include(a, tail[j])
                    == Compat::Unknown;
            assert(spec_can_include(a, ms[j + 1]) == Compat::Unknown);
        }
        if exists|i: int|
            0 <= i < ms.len() && #[trigger] spec_can_include(a, ms[i]) == Compat::Included {
            let i = choose|i: int|
                0 <= i < ms.len() && #[trigger] spec_can_include(a, ms[i]) == Compat::Included;
            if i > 0 {
                assert(spec_can_include(a, tail[i - 1]) == Compat::Included);
            }
        }
        if exists|i: int|
            0 <= i < ms.len() && #[trigger] spec_can_include(a, ms[i]) == Compat::Unknown {
            let i = choose|i: int|
                0 <= i < ms.len() && #[trigger] spec_can_include(a, ms[i]) == Compat::Unknown;
            if i > 0 {
                assert(spec_can_include(a, tail[i - 1]) == Compat::Unknown);
            }
        }
    }
}

/// A dependency with no declared license is never includable, whatever the
/// consumer's own license is.
pub proof fn lemma_unspecified_never_includable(a: LicenseView)
    ensures
        spec_can_include(a, LicenseView::Unspecified) == Compat::Excluded,
{
}

impl License {
    /// Reads the static table for a pair that is down to a named identifier
    /// (or an absent consumer license) on both sides.
    fn table_allows(&self, other: &License) -> (r: bool)
        ensures
            r == table_includes(self@, other@),
    {
        match self {
            License::Unspecified => matches!(
                other,
                License::MIT | License::X11 | License::BSD_3_Clause,
            ),
            License::MIT => matches!(other, License::MIT | License::X11),
            License::X11 => matches!(other, License::MIT | License::X11),
            License::BSD_3_Clause => matches!(
                other,
                License::MIT | License::X11 | License::BSD_3_Clause,
            ),
            License::Apache_2_0 => matches!(
                other,
                License::MIT | License::X11 | License::BSD_3_Clause
                | License::Apache_2_0,
            ),
            License::MPL_1_1 => matches!(
                other,
                License::MIT | License::X11 | License::BSD_3_Clause
                | License::MPL_1_1,
            ),
            License::MPL_2_0 => matches!(
                other,
                License::MIT | License::X11 | License::BSD_3_Clause
                | License::MPL_2_0,
            ),
            License::LGPL_2_1Plus => matches!(
                other,
                License::MIT | License::X11 | License::BSD_3_Clause
                | License::MPL_2_0 | License::LGPL_2_1Plus,
            ),
            License::LGPL_2_1 => matches!(
                other,
                License::MIT | License::X11 | License::BSD_3_Clause
                | License::MPL_2_0 | License::LGPL_2_1Plus | License::LGPL_2_1,
            ),
            License::LGPL_3_0Plus => matches!(
                other,
                License::MIT | License::X11 | License::BSD_3_Clause
                | License::MPL_2_0 | License::Apache_2_0 | License::LGPL_2_1Plus
                | License::LGPL_3_0Plus,
            ),
            License::LGPL_3_0 => matches!(
                other,
                License::MIT | License::X11 | License::BSD_3_Clause
                | License::MPL_2_0 | License::Apache_2_0 | License::LGPL_2_1Plus
                | License::LGPL_3_0Plus | License::LGPL_3_0,
            ),
            License::GPL_2_0Plus => matches!(
                other,
                License::MIT | License::X11 | License::BSD_3_Clause
                | License::MPL_2_0 | License::LGPL_2_1Plus | License::LGPL_2_1
                | License::GPL_2_0Plus,
            ),
            License::GPL_2_0 => matches!(
                other,
                License::MIT | License::X11 | License::BSD_3_Clause
                | License::MPL_2_0 | License::LGPL_2_1Plus | License::LGPL_2_1
                | License::GPL_2_0Plus | License::GPL_2_0,
            ),
            License::GPL_3_0Plus => matches!(
                other,
                License::MIT | License::X11 | License::BSD_3_Clause
                | License::MPL_2_0 | License::Apache_2_0 | License::LGPL_2_1Plus
                | License::LGPL_2_1 | License::GPL_2_0Plus | License::GPL_3_0Plus,
            ),
            License::GPL_3_0 => matches!(
                other,
                License::MIT | License::X11 | License::BSD_3_Clause
                | License::MPL_2_0 | License::Apache_2_0 | License::LGPL_2_1Plus
                | License::LGPL_2_1 | License::GPL_2_0Plus | License::GPL_3_0Plus
                | License::GPL_3_0,
            ),
            License::AGPL_1_0 => matches!(
                other,
                License::MIT | License::X11 | License::BSD_3_Clause
                | License::MPL_2_0 | License::Apache_2_0 | License::LGPL_2_1Plus
                | License::LGPL_2_1 | License::GPL_2_0Plus | License::GPL_3_0Plus
                | License::GPL_3_0 | License::AGPL_1_0,
            ),
            _ => false,
        }
    }

    /// Decides whether a consumer under `self` may include a dependency
    /// under `other`, with a three-valued answer. Never fails: where the
    /// terms cannot be reasoned about the verdict is `Unknown`.
    #[verifier::loop_isolation(false)]
    pub fn can_include(&self, other: &License) -> (r: Compat)
        ensures
            r == spec_can_include(self@, other@),
        decreases *self, *other,
    {
        if let License::Unspecified = other {
            return Compat::Excluded;
        }
        if let License::Custom(_) = self {
            return Compat::Unknown;
        }
        if let License::Custom(_) = other {
            return Compat::Unknown;
        }
        if let License::File(_) = self {
            return Compat::Unknown;
        }
        if let License::File(_) = other {
            return Compat::Unknown;
        }

        if let License::Multiple(licenses) = self {
            let ghost ms = views_of(licenses@);
            proof {
                lemma_views_of(licenses@);
            }
            let mut saw_unknown = false;
            let mut k: usize = 0;
            while k < licenses.len()
                invariant
                    k <= licenses.len(),
                    ms == views_of(licenses@),
                    self@ == LicenseView::Multiple(ms),
                    ms.len() == licenses@.len(),
                    forall|i: int| 0 <= i < ms.len() ==> ms[i] == licenses@[i]@,
                    !(other@ is Unspecified),
                    !(other@ is Custom),
                    !(other@ is File),
                    forall|i: int|
                        0 <= i < k ==> #[trigger] spec_can_include(ms[i], other@)
                            != Compat::Excluded,
                    saw_unknown == exists|i: int|
                        0 <= i < k && #[trigger] spec_can_include(ms[i], other@)
                            == Compat::Unknown,
                decreases licenses.len() - k,
            {
                proof {
                    assert(*self == License::Multiple(*licenses));
                    assert(decreases_to!(*self => (*self)->Multiple_0));
                    assert(decreases_to!(*licenses => licenses@));
                    assert(decreases_to!(licenses@ => licenses@[k as int]));
                    assert(decreases_to!(*self => licenses@[k as int]));
                }
                let verdict = licenses[k].can_include(other);
                proof {
                    assert(spec_can_include(ms[k as int], other@) == verdict);
                }
                if let Compat::Excluded = verdict {
                    proof {
                        lemma_include_all_cases(ms, other@);
                        assert(spec_can_include(self@, other@) == Compat::Excluded);
                    }
                    return Compat::Excluded;
                }
                if let Compat::Unknown = verdict {
                    saw_unknown = true;
                }
                k = k + 1;
            }
            proof {
                lemma_include_all_cases(ms, other@);
            }
            if saw_unknown {
                return Compat::Unknown;
            } else {
                return Compat::Included;
            }
        }

        if let License::Multiple(licenses) = other {
            let ghost ms = views_of(licenses@);
            proof {
                lemma_views_of(licenses@);
            }
            let mut saw_unknown = false;
            let mut k: usize = 0;
            while k < licenses.len()
                invariant
                    k <= licenses.len(),
                    ms == views_of(licenses@),
                    other@ == LicenseView::Multiple(ms),
                    ms.len() == licenses@.len(),
                    forall|i: int| 0 <= i < ms.len() ==> ms[i] == licenses@[i]@,
                    !(self@ is Multiple),
                    !(self@ is Custom),
                    !(self@ is File),
                    forall|i: int|
                        0 <= i < k ==> #[trigger] spec_can_include(self@, ms[i])
                            != Compat::Included,
                    saw_unknown == exists|i: int|
                        0 <= i < k && #[trigger] spec_can_include(self@, ms[i])
                            == Compat::Unknown,
                decreases licenses.len() - k,
            {
                proof {
                    assert(*other == License::Multiple(*licenses));
                    assert(decreases_to!(*other => (*other)->Multiple_0));
                    assert(decreases_to!(*licenses => licenses@));
                    assert(decreases_to!(licenses@ => licenses@[k as int]));
                    assert(decreases_to!(*other => licenses@[k as int]));
                }
                let verdict = self.can_include(&licenses[k]);
                proof {
                    assert(spec_can_include(self@, ms[k as int]) == verdict);
                }
                if let Compat::Included = verdict {
                    proof {
                        lemma_include_any_cases(self@, ms);
                        assert(spec_can_include(self@, other@) == Compat::Included);
                    }
                    return Compat::Included;
                }
                if let Compat::Unknown = verdict {
                    saw_unknown = true;
                }
                k = k + 1;
            }
            proof {
                lemma_include_any_cases(self@, ms);
            }
            if saw_unknown {
                return Compat::Unknown;
            } else {
                return Compat::Excluded;
            }
        }

        if let License::LGPL_2_0 = self {
            return Compat::Unknown;
        }
        if let License::LGPL_2_0 = other {
            return Compat::Unknown;
        }

        if self.table_allows(other) {
            Compat::Included
        } else {
            Compat::Excluded
        }
    }
}

} // verus!
