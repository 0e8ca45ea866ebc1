//! The license data model: a tagged, immutable representation of a license
//! declaration, its mathematical view, and the canonical order used to keep
//! composite declarations sorted.

use vstd::prelude::*;

verus! {

/// A license declaration, immutable once constructed.
///
/// Besides the fixed set of named identifiers, a declaration can be an
/// unrecognized identifier kept verbatim (`Custom`), a reference to a file
/// that holds the terms (`File`), a disjunction of alternatives
/// (`Multiple`, always at least two members in canonical order), or absent
/// altogether (`Unspecified`).
#[allow(non_camel_case_types)]
#[derive(Debug, PartialEq, Eq)]
pub enum License {
    MIT,
    X11,
    BSD_3_Clause,
    Apache_2_0,
    LGPL_2_0,
    LGPL_2_1,
    LGPL_2_1Plus,
    LGPL_3_0,
    LGPL_3_0Plus,
    MPL_1_1,
    MPL_2_0,
    GPL_2_0,
    GPL_2_0Plus,
    GPL_3_0,
    GPL_3_0Plus,
    AGPL_1_0,
    Custom(String),
    File(String),
    Multiple(Vec<License>),
    Unspecified,
}

/// The mathematical shape of a [`License`]: strings become character
/// sequences, vectors become sequences. Contracts speak of this type.
#[allow(non_camel_case_types)]
pub enum LicenseView {
    MIT,
    X11,
    BSD_3_Clause,
    Apache_2_0,
    LGPL_2_0,
    LGPL_2_1,
    LGPL_2_1Plus,
    LGPL_3_0,
    LGPL_3_0Plus,
    MPL_1_1,
    MPL_2_0,
    GPL_2_0,
    GPL_2_0Plus,
    GPL_3_0,
    GPL_3_0Plus,
    AGPL_1_0,
    Custom(Seq<char>),
    File(Seq<char>),
    Multiple(Seq<LicenseView>),
    Unspecified,
}

/// The views of a sequence of licenses, element by element.
pub open spec fn views_of(s: Seq<License>) -> Seq<LicenseView>
    decreases s,
{
    if s.len() == 0 {
        Seq::empty()
    } else {
        views_of(s.drop_last()).push(s.last()@)
    }
}

/// `views_of` maps the view over the elements, index by index.
pub broadcast proof fn lemma_views_of(s: Seq<License>)
    ensures
        (#[trigger] views_of(s)).len() == s.len(),
        forall|i: int| 0 <= i < s.len() ==> views_of(s)[i] == s[i]@,
    decreases s,
{
    if s.len() == 0 {
        assert(views_of(s) =~= Seq::<LicenseView>::empty());
    } else {
        lemma_views_of(s.drop_last());
        assert(views_of(s) == views_of(s.drop_last()).push(s.last()@));
        assert forall|i: int| 0 <= i < s.len() implies views_of(s)[i] == s[i]@ by {
            if i < s.len() - 1 {
                assert(s.drop_last()[i] == s[i]);
            }
        }
    }
}

impl View for License {
    type V = LicenseView;

    open spec fn view(&self) -> LicenseView
        decreases self,
    {
        match self {
            License::MIT => LicenseView::MIT,
            License::X11 => LicenseView::X11,
            License::BSD_3_Clause => LicenseView::BSD_3_Clause,
            License::Apache_2_0 => LicenseView::Apache_2_0,
            License::LGPL_2_0 => LicenseView::LGPL_2_0,
            License::LGPL_2_1 => LicenseView::LGPL_2_1,
            License::LGPL_2_1Plus => LicenseView::LGPL_2_1Plus,
            License::LGPL_3_0 => LicenseView::LGPL_3_0,
            License::LGPL_3_0Plus => LicenseView::LGPL_3_0Plus,
            License::MPL_1_1 => LicenseView::MPL_1_1,
            License::MPL_2_0 => LicenseView::MPL_2_0,
            License::GPL_2_0 => LicenseView::GPL_2_0,
            License::GPL_2_0Plus => LicenseView::GPL_2_0Plus,
            License::GPL_3_0 => LicenseView::GPL_3_0,
            License::GPL_3_0Plus => LicenseView::GPL_3_0Plus,
            License::AGPL_1_0 => LicenseView::AGPL_1_0,
            License::Custom(s) => LicenseView::Custom(s@),
            License::File(p) => LicenseView::File(p@),
            License::Multiple(v) => LicenseView::Multiple(views_of(v@)),
            License::Unspecified => LicenseView::Unspecified,
        }
    }
}

impl Default for License {
    /// An absent declaration stands in until one is parsed.
    fn default() -> (r: License)
        ensures
            r@ == LicenseView::Unspecified,
    {
        License::Unspecified
    }
}

/// Position of each variant in the canonical order of license values.
pub open spec fn rank(l: LicenseView) -> int {
    match l {
        LicenseView::MIT => 0,
        LicenseView::X11 => 1,
        LicenseView::BSD_3_Clause => 2,
        LicenseView::Apache_2_0 => 3,
        LicenseView::LGPL_2_0 => 4,
        LicenseView::LGPL_2_1 => 5,
        LicenseView::LGPL_2_1Plus => 6,
        LicenseView::LGPL_3_0 => 7,
        LicenseView::LGPL_3_0Plus => 8,
        LicenseView::MPL_1_1 => 9,
        LicenseView::MPL_2_0 => 10,
        LicenseView::GPL_2_0 => 11,
        LicenseView::GPL_2_0Plus => 12,
        LicenseView::GPL_3_0 => 13,
        LicenseView::GPL_3_0Plus => 14,
        LicenseView::AGPL_1_0 => 15,
        LicenseView::Custom(_) => 16,
        LicenseView::File(_) => 17,
        LicenseView::Multiple(_) => 18,
        LicenseView::Unspecified => 19,
    }
}

/// One of the fixed named identifiers (neither custom, file, composite nor
/// absent).
pub open spec fn is_named(l: LicenseView) -> bool {
    rank(l) <= 15
}

/// Canonical order: by variant first; custom and file declarations of the
/// same kind compare by their text. Parsing never nests composites inside
/// composites, so two composite members are not distinguished further.
pub open spec fn lic_le(a: LicenseView, b: LicenseView) -> bool {
    if rank(a) != rank(b) {
        rank(a) < rank(b)
    } else {
        match (a, b) {
            (LicenseView::Custom(x), LicenseView::Custom(y)) => str_le(x, y),
            (LicenseView::File(x), LicenseView::File(y)) => str_le(x, y),
            _ => true,
        }
    }
}

/// Lexicographic order on character sequences, by code point.
pub open spec fn str_le(a: Seq<char>, b: Seq<char>) -> bool
    decreases a.len(),
{
    if a.len() == 0 {
        true
    } else if b.len() == 0 {
        false
    } else if a[0] != b[0] {
        a[0] < b[0]
    } else {
        str_le(a.drop_first(), b.drop_first())
    }
}

/// The canonical order is total: of any two license values, one is at or
/// before the other.
pub proof fn lemma_str_le_total(a: Seq<char>, b: Seq<char>)
    ensures
        str_le(a, b) || str_le(b, a),
    decreases a.len(),
{
    if a.len() > 0 && b.len() > 0 && a[0] == b[0] {
        lemma_str_le_total(a.drop_first(), b.drop_first());
    }
}

/// See `lemma_str_le_total`: totality of the canonical order on licenses.
pub proof fn lemma_lic_le_total(a: LicenseView, b: LicenseView)
    ensures
        lic_le(a, b) || lic_le(b, a),
{
    match (a, b) {
        (LicenseView::Custom(x), LicenseView::Custom(y)) => lemma_str_le_total(x, y),
        (LicenseView::File(x), LicenseView::File(y)) => lemma_str_le_total(x, y),
        _ => {},
    }
}

/// In canonical order: each member at or before the next.
pub open spec fn sorted(s: Seq<LicenseView>) -> bool {
    forall|i: int| 0 <= i < s.len() - 1 ==> lic_le(#[trigger] s[i], s[i + 1])
}

/// `l` placed before the first member of `s` that is at or after it.
pub open spec fn insert_ordered(l: LicenseView, s: Seq<LicenseView>) -> Seq<LicenseView>
    decreases s.len(),
{
    if s.len() == 0 {
        seq![l]
    } else if lic_le(l, s[0]) {
        seq![l] + s
    } else {
        seq![s[0]] + insert_ordered(l, s.drop_first())
    }
}

/// Insertion sort by the canonical order; deterministic, so parsing the
/// same set of alternatives in any order gives the same composite.
pub open spec fn sort_licenses(s: Seq<LicenseView>) -> Seq<LicenseView>
    decreases s.len(),
{
    if s.len() == 0 {
        Seq::empty()
    } else {
        insert_ordered(s.last(), sort_licenses(s.drop_last()))
    }
}

/// Inserting into a sorted sequence keeps it sorted, grows it by one, and
/// adds no member but the inserted one.
pub proof fn lemma_insert_ordered_props(l: LicenseView, s: Seq<LicenseView>)
    requires
        sorted(s),
    ensures
        sorted(insert_ordered(l, s)),
        insert_ordered(l, s).len() == s.len() + 1,
        forall|i: int| 0 <= i < insert_ordered(l, s).len() ==> (#[trigger] insert_ordered(
            l,
            s,
        )[i] == l || s.contains(insert_ordered(l, s)[i])),
    decreases s.len(),
{
    let res = insert_ordered(l, s);
    if s.len() == 0 {
    } else if lic_le(l, s[0]) {
        assert(forall|i: int| 0 <= i < s.len() ==> res[i + 1] == s[i]);
        assert forall|i: int| 0 <= i < res.len() - 1 implies lic_le(
            #[trigger] res[i],
            res[i + 1],
        ) by {
            if i > 0 {
                assert(res[i] == s[i - 1] && res[i + 1] == s[i]);
            }
        }
    } else {
        let tail = s.drop_first();
        assert(forall|j: int| 0 <= j < tail.len() ==> #[trigger] tail[j] == s[j + 1]);
        assert(sorted(tail));
        lemma_insert_ordered_props(l, tail);
        let rec = insert_ordered(l, tail);
        lemma_lic_le_total(l, s[0]);
        assert(res == seq![s[0]] + rec);
        assert(forall|i: int| 0 <= i < rec.len() ==> res[i + 1] == rec[i]);
        assert forall|i: int| 0 <= i < res.len() - 1 implies lic_le(
            #[trigger] res[i],
            res[i + 1],
        ) by {
            if i == 0 {
                // the head of the recursive insertion is either `l`, which
                // follows s[0] by totality, or the old second member
                if tail.len() == 0 || lic_le(l, tail[0]) {
                    assert(rec[0] == l);
                    assert(lic_le(s[0], l));
                } else {
                    assert(rec[0] == tail[0]);
                    assert(lic_le(s[0], s[1]));
                }
                assert(res[1] == rec[0]);
            } else {
                assert(res[i] == rec[i - 1] && res[i + 1] == rec[i]);
            }
        }
        assert forall|i: int| 0 <= i < res.len() implies (#[trigger] res[i] == l || s.contains(
            res[i],
        )) by {
            if i == 0 {
                assert(s[0] == res[0]);
            } else {
                assert(res[i] == rec[i - 1]);
                if rec[i - 1] != l {
                    assert(tail.contains(rec[i - 1]));
                    let j = choose|j: int| 0 <= j < tail.len() && tail[j] == rec[i - 1];
                    assert(s[j + 1] == rec[i - 1]);
                }
            }
        }
    }
}

/// Sorting sorts, keeps the length, and invents no members.
pub proof fn lemma_sort_licenses_props(s: Seq<LicenseView>)
    ensures
        sorted(sort_licenses(s)),
        sort_licenses(s).len() == s.len(),
        forall|i: int| 0 <= i < sort_licenses(s).len() ==> s.contains(
            #[trigger] sort_licenses(s)[i],
        ),
    decreases s.len(),
{
    if s.len() > 0 {
        let front = s.drop_last();
        lemma_sort_licenses_props(front);
        lemma_insert_ordered_props(s.last(), sort_licenses(front));
        assert forall|i: int| 0 <= i < sort_licenses(s).len() implies s.contains(
            #[trigger] sort_licenses(s)[i],
        ) by {
            let x = sort_licenses(s)[i];
            if x == s.last() {
                assert(s[s.len() - 1] == x);
            } else {
                assert(sort_licenses(front).contains(x));
                let j = choose|j: int| 0 <= j < sort_licenses(front).len() && sort_licenses(
                    front,
                )[j] == x;
                assert(front.contains(x));
                let m = choose|m: int| 0 <= m < front.len() && front[m] == x;
                assert(s[m] == x);
            }
        }
    }
}

/// The lexicographic order is antisymmetric.
pub proof fn lemma_str_le_antisym(a: Seq<char>, b: Seq<char>)
    requires
        str_le(a, b),
        str_le(b, a),
    ensures
        a == b,
    decreases a.len(),
{
    if a.len() > 0 && b.len() > 0 && a[0] == b[0] {
        lemma_str_le_antisym(a.drop_first(), b.drop_first());
        assert(a =~= seq![a[0]] + a.drop_first());
        assert(b =~= seq![b[0]] + b.drop_first());
    } else {
        assert(a.len() == 0 && b.len() == 0);
        assert(a =~= b);
    }
}

/// On values that are not composites the canonical order is antisymmetric:
/// each at or before the other only when they are the same value.
pub proof fn lemma_lic_le_antisym(a: LicenseView, b: LicenseView)
    requires
        !(a is Multiple),
        !(b is Multiple),
        lic_le(a, b),
        lic_le(b, a),
    ensures
        a == b,
{
    match (a, b) {
        (LicenseView::Custom(x), LicenseView::Custom(y)) => lemma_str_le_antisym(x, y),
        (LicenseView::File(x), LicenseView::File(y)) => lemma_str_le_antisym(x, y),
        _ => {},
    }
}

/// Parsing sorts deterministically: a composite of two alternatives is the
/// same value whichever order they were declared in.
pub proof fn lemma_sort_two_alternatives(x: LicenseView, y: LicenseView)
    requires
        !(x is Multiple),
        !(y is Multiple),
    ensures
        sort_licenses(seq![x, y]) == sort_licenses(seq![y, x]),
{
    reveal_with_fuel(sort_licenses, 3);
    reveal_with_fuel(insert_ordered, 3);
    lemma_lic_le_total(x, y);
    assert(seq![x, y].drop_last() =~= seq![x]);
    assert(seq![y, x].drop_last() =~= seq![y]);
    assert(seq![x].drop_last() =~= Seq::<LicenseView>::empty());
    assert(seq![y].drop_last() =~= Seq::<LicenseView>::empty());
    assert(sort_licenses(seq![x]) == insert_ordered(x, Seq::empty()));
    assert(sort_licenses(seq![y]) == insert_ordered(y, Seq::empty()));
    assert(sort_licenses(seq![x, y]) == insert_ordered(y, seq![x]));
    assert(sort_licenses(seq![y, x]) == insert_ordered(x, seq![y]));
    if lic_le(x, y) && lic_le(y, x) {
        lemma_lic_le_antisym(x, y);
        assert(insert_ordered(y, seq![x]) =~= insert_ordered(x, seq![y]));
    } else if lic_le(y, x) {
        assert(seq![x].drop_first() =~= Seq::<LicenseView>::empty());
        assert(insert_ordered(y, seq![x]) =~= seq![y, x]);
        assert(insert_ordered(x, seq![y]) =~= seq![y, x]);
    } else {
        assert(seq![y].drop_first() =~= Seq::<LicenseView>::empty());
        assert(insert_ordered(y, seq![x]) =~= seq![x, y]);
        assert(insert_ordered(x, seq![y]) =~= seq![x, y]);
    }
}

/// Where the scan in the executable insertion stops is exactly where the
/// specification inserts.
proof fn lemma_insert_ordered_at(l: LicenseView, s: Seq<LicenseView>, j: int)
    requires
        0 <= j <= s.len(),
        forall|i: int| 0 <= i < j ==> !lic_le(l, #[trigger] s[i]),
        j < s.len() ==> lic_le(l, s[j]),
    ensures
        insert_ordered(l, s) == s.insert(j, l),
    decreases s.len(),
{
    if s.len() == 0 {
        assert(insert_ordered(l, s) =~= s.insert(0, l));
    } else if lic_le(l, s[0]) {
        assert(j == 0);
        assert(seq![l] + s =~= s.insert(0, l));
    } else {
        let tail = s.drop_first();
        assert(forall|k: int| 0 <= k < tail.len() ==> #[trigger] tail[k] == s[k + 1]);
        lemma_insert_ordered_at(l, tail, j - 1);
        assert(seq![s[0]] + tail.insert(j - 1, l) =~= s.insert(j, l));
    }
}

impl License {
    /// Canonical rank of this value's variant.
    fn rank_of(&self) -> (r: u32)
        ensures
            r as int == rank(self@),
    {
        match self {
            License::MIT => 0,
            License::X11 => 1,
            License::BSD_3_Clause => 2,
            License::Apache_2_0 => 3,
            License::LGPL_2_0 => 4,
            License::LGPL_2_1 => 5,
            License::LGPL_2_1Plus => 6,
            License::LGPL_3_0 => 7,
            License::LGPL_3_0Plus => 8,
            License::MPL_1_1 => 9,
            License::MPL_2_0 => 10,
            License::GPL_2_0 => 11,
            License::GPL_2_0Plus => 12,
            License::GPL_3_0 => 13,
            License::GPL_3_0Plus => 14,
            License::AGPL_1_0 => 15,
            License::Custom(_) => 16,
            License::File(_) => 17,
            License::Multiple(_) => 18,
            License::Unspecified => 19,
        }
    }
}

/// Lexicographic comparison of two strings, by code point.
fn str_le_exec(a: &str, b: &str) -> (r: bool)
    ensures
        r == str_le(a@, b@),
    decreases a@.len(),
{
    let na = a.unicode_len();
    let nb = b.unicode_len();
    if na == 0 {
        true
    } else if nb == 0 {
        false
    } else {
        let ca = a.get_char(0);
        let cb = b.get_char(0);
        if ca != cb {
            ca < cb
        } else {
            let ra = a.substring_char(1, na);
            let rb = b.substring_char(1, nb);
            proof {
                assert(ra@ =~= a@.drop_first());
                assert(rb@ =~= b@.drop_first());
            }
            str_le_exec(ra, rb)
        }
    }
}

/// Canonical order test on two license values.
pub fn lic_le_exec(a: &License, b: &License) -> (r: bool)
    ensures
        r == lic_le(a@, b@),
{
    let ra = a.rank_of();
    let rb = b.rank_of();
    if ra != rb {
        return ra < rb;
    }
    match (a, b) {
        (License::Custom(x), License::Custom(y)) => str_le_exec(x.as_str(), y.as_str()),
        (License::File(x), License::File(y)) => str_le_exec(x.as_str(), y.as_str()),
        _ => true,
    }
}

/// Structural equality of two license values, decided at the level of
/// their mathematical views.
#[verifier::loop_isolation(false)]
pub fn lic_eq(a: &License, b: &License) -> (r: bool)
    ensures
        r == (a@ == b@),
    decreases *a,
{
    let ra = a.rank_of();
    let rb = b.rank_of();
    if ra != rb {
        return false;
    }
    match (a, b) {
        (License::Custom(x), License::Custom(y)) => crate::strutil::str_eq(
            x.as_str(),
            y.as_str(),
        ),
        (License::File(x), License::File(y)) => crate::strutil::str_eq(x.as_str(), y.as_str()),
        (License::Multiple(va), License::Multiple(vb)) => {
            let ghost msa = views_of(va@);
            let ghost msb = views_of(vb@);
            proof {
                lemma_views_of(va@);
                lemma_views_of(vb@);
            }
            if va.len() != vb.len() {
                return false;
            }
            let mut k: usize = 0;
            while k < va.len()
                invariant
                    k <= va@.len(),
                    forall|i: int| 0 <= i < k ==> msa[i] == msb[i],
                decreases va@.len() - k,
            {
                proof {
                    assert(*a == License::Multiple(*va));
                    assert(decreases_to!(*a => (*a)->Multiple_0));
                    assert(decreases_to!(*va => va@));
                    assert(decreases_to!(va@ => va@[k as int]));
                    assert(decreases_to!(*a => va@[k as int]));
                }
                if !lic_eq(&va[k], &vb[k]) {
                    proof {
                        assert(msa[k as int] != msb[k as int]);
                    }
                    return false;
                }
                k = k + 1;
            }
            proof {
                assert(msa =~= msb);
            }
            true
        },
        _ => true,
    }
}

/// The first position in `v` whose member is at or after `l` in canonical
/// order, or the length when there is none.
fn lower_position(v: &Vec<License>, l: &License) -> (j: usize)
    ensures
        j <= v@.len(),
        forall|i: int| 0 <= i < j ==> !lic_le(l@, views_of(v@)[i]),
        j < v@.len() ==> lic_le(l@, views_of(v@)[j as int]),
{
    proof {
        lemma_views_of(v@);
    }
    let mut j: usize = 0;
    while j < v.len()
        invariant
            j <= v@.len(),
            forall|i: int| 0 <= i < j ==> !lic_le(l@, views_of(v@)[i]),
        decreases v@.len() - j,
    {
        if lic_le_exec(l, &v[j]) {
            proof {
                lemma_views_of(v@);
            }
            return j;
        }
        proof {
            lemma_views_of(v@);
        }
        j = j + 1;
    }
    j
}

/// `l` placed at its canonical position in `v`.
fn insert_sorted_vec(v: Vec<License>, l: License) -> (r: Vec<License>)
    ensures
        views_of(r@) == insert_ordered(l@, views_of(v@)),
{
    let j = lower_position(&v, &l);
    let ghost before = v@;
    let ghost lv = l@;
    proof {
        lemma_views_of(before);
        lemma_insert_ordered_at(lv, views_of(before), j as int);
    }
    let mut out = v;
    out.insert(j, l);
    proof {
        lemma_views_of(out@);
        assert(views_of(out@) =~= views_of(before).insert(j as int, lv));
    }
    out
}

/// `v` rearranged into canonical order by insertion sort.
pub fn sort_licenses_vec(v: Vec<License>) -> (r: Vec<License>)
    ensures
        views_of(r@) == sort_licenses(views_of(v@)),
{
    let ghost orig = v@;
    let mut rest = v;
    let mut out: Vec<License> = Vec::new();
    proof {
        lemma_views_of(orig);
        assert(views_of(out@) =~= sort_licenses(views_of(orig.subrange(0, 0))));
    }
    while rest.len() > 0
        invariant
            rest@.len() <= orig.len(),
            rest@ == orig.subrange(orig.len() - rest@.len(), orig.len() as int),
            views_of(out@) == sort_licenses(
                views_of(orig.subrange(0, orig.len() - rest@.len())),
            ),
        decreases rest@.len(),
    {
        let ghost k = orig.len() - rest@.len();
        let l = rest.remove(0);
        proof {
            assert(l == orig[k]);
            assert(rest@ =~= orig.subrange(k + 1, orig.len() as int));
        }
        out = insert_sorted_vec(out, l);
        proof {
            let s1 = views_of(orig.subrange(0, k + 1));
            lemma_views_of(orig.subrange(0, k + 1));
            lemma_views_of(orig.subrange(0, k));
            assert(s1.drop_last() =~= views_of(orig.subrange(0, k)));
            assert(s1.last() == orig[k]@);
        }
    }
    proof {
        assert(orig.subrange(0, orig.len() as int) =~= orig);
    }
    out
}

/// A well-formed license value: every composite holds at least two members,
/// each itself well-formed, in canonical order.
pub open spec fn wf(l: LicenseView) -> bool
    decreases l,
{
    match l {
        LicenseView::Multiple(ms) => {
            &&& ms.len() >= 2
            &&& forall|i: int| 0 <= i < ms.len() ==> wf(#[trigger] ms[i])
            &&& forall|i: int| 0 <= i < ms.len() - 1 ==> lic_le(#[trigger] ms[i], ms[i + 1])
        },
        _ => true,
    }
}

} // verus!
