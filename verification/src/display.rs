//! Canonical formatting of a license value back to text: named identifiers
//! render as themselves, composites join their alternatives with " OR ",
//! and an absent declaration renders as "Unlicensed".

use vstd::prelude::*;

use crate::license::{lemma_views_of, views_of, License, LicenseView};

verus! {

/// The canonical text of a license value.
pub open spec fn spec_format(l: LicenseView) -> Seq<char>
    decreases l,
{
    match l {
        LicenseView::MIT => "MIT"@,
        LicenseView::X11 => "X11"@,
        LicenseView::BSD_3_Clause => "BSD-3-Clause"@,
        LicenseView::Apache_2_0 => "Apache-2.0"@,
        LicenseView::LGPL_2_0 => "LGPL-2.0"@,
        LicenseView::LGPL_2_1 => "LGPL-2.1"@,
        LicenseView::LGPL_2_1Plus => "LGPL-2.1+"@,
        LicenseView::LGPL_3_0 => "LGPL-3.0"@,
        LicenseView::LGPL_3_0Plus => "LGPL-3.0+"@,
        LicenseView::MPL_1_1 => "MPL-1.1"@,
        LicenseView::MPL_2_0 => "MPL-2.0"@,
        LicenseView::GPL_2_0 => "GPL-2.0"@,
        LicenseView::GPL_2_0Plus => "GPL-2.0+"@,
        LicenseView::GPL_3_0 => "GPL-3.0"@,
        LicenseView::GPL_3_0Plus => "GPL-3.0+"@,
        LicenseView::AGPL_1_0 => "AGPL-1.0"@,
        LicenseView::Custom(s) => "Custom("@ + s + ")"@,
        LicenseView::File(p) => "File("@ + p + ")"@,
        LicenseView::Multiple(ms) => format_members(ms),
        LicenseView::Unspecified => "Unlicensed"@,
    }
}

/// The alternatives of a composite, each formatted, joined with " OR ".
pub open spec fn format_members(ms: Seq<LicenseView>) -> Seq<char>
    decreases ms,
{
    if ms.len() == 0 {
        Seq::empty()
    } else if ms.len() == 1 {
        spec_format(ms[0])
    } else {
        format_members(ms.drop_last()) + " OR "@ + spec_format(ms.last())
    }
}

impl License {
    /// Renders this license as its canonical text.
    #[verifier::loop_isolation(false)]
    pub fn format(&self) -> (r: String)
        ensures
            r@ == spec_format(self@),
        decreases *self,
    {
        match self {
            License::MIT => String::from_str("MIT"),
            License::X11 => String::from_str("X11"),
            License::BSD_3_Clause => String::from_str("BSD-3-Clause"),
            License::Apache_2_0 => String::from_str("Apache-2.0"),
            License::LGPL_2_0 => String::from_str("LGPL-2.0"),
            License::LGPL_2_1 => String::from_str("LGPL-2.1"),
            License::LGPL_2_1Plus => String::from_str("LGPL-2.1+"),
            License::LGPL_3_0 => String::from_str("LGPL-3.0"),
            License::LGPL_3_0Plus => String::from_str("LGPL-3.0+"),
            License::MPL_1_1 => String::from_str("MPL-1.1"),
            License::MPL_2_0 => String::from_str("MPL-2.0"),
            License::GPL_2_0 => String::from_str("GPL-2.0"),
            License::GPL_2_0Plus => String::from_str("GPL-2.0+"),
            License::GPL_3_0 => String::from_str("GPL-3.0"),
            License::GPL_3_0Plus => String::from_str("GPL-3.0+"),
            License::AGPL_1_0 => String::from_str("AGPL-1.0"),
            License::Custom(s) => {
                let mut r = String::from_str("Custom(");
                r.append(s.as_str());
                r.append(")");
                r
            },
            License::File(p) => {
                let mut r = String::from_str("File(");
                r.append(p.as_str());
                r.append(")");
                r
            },
            License::Multiple(v) => {
                let ghost ms = views_of(v@);
                proof {
                    lemma_views_of(v@);
                }
                let mut r = String::new();
                let mut k: usize = 0;
                while k < v.len()
                    invariant
                        k <= v@.len(),
                        r@ == format_members(ms.take(k as int)),
                    decreases v@.len() - k,
                {
                    if k > 0 {
                        r.append(" OR ");
                    }
                    proof {
                        assert(*self == License::Multiple(*v));
                        assert(decreases_to!(*self => (*self)->Multiple_0));
                        assert(decreases_to!(*v => v@));
                        assert(decreases_to!(v@ => v@[k as int]));
                        assert(decreases_to!(*self => v@[k as int]));
                    }
                    let sub = v[k].format();
                    r.append(sub.as_str());
                    proof {
                        let pre = ms.take(k as int);
                        let cur = ms.take(k + 1int);
                        assert(cur.drop_last() =~= pre);
                        assert(cur.last() == ms[k as int]);
                        if k == 0 {
                            assert(r@ == format_members(cur));
                        } else {
                            assert(r@ == format_members(pre) + " OR "@ + spec_format(
                                ms[k as int],
                            ));
                            assert(r@ == format_members(cur));
                        }
                    }
                    k = k + 1;
                }
                proof {
                    assert(ms.take(v@.len() as int) =~= ms);
                }
                r
            },
            License::Unspecified => String::from_str("Unlicensed"),
        }
    }
}

} // verus!
