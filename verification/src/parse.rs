//! Total parsing of a license declaration from free-form text: trimming,
//! the named-identifier table, and composite declarations split on `/` and
//! canonically sorted. Parsing never fails; unrecognized text is kept
//! verbatim.

use vstd::prelude::*;

use crate::license::{
    lemma_sort_licenses_props, lemma_views_of, sort_licenses, sort_licenses_vec, views_of, wf,
    License, LicenseView,
};
use crate::display::spec_format;
use crate::strutil::{find_char, first_at, is_ws, spec_trim, split_seps, str_eq, trim_str};

verus! {

/// The variant for text that is exactly one of the named identifiers.
pub open spec fn known_of(t: Seq<char>) -> Option<LicenseView> {
    if t == "MIT"@ {
        Some(LicenseView::MIT)
    } else if t == "X11"@ {
        Some(LicenseView::X11)
    } else if t == "BSD-3-Clause"@ {
        Some(LicenseView::BSD_3_Clause)
    } else if t == "Apache-2.0"@ {
        Some(LicenseView::Apache_2_0)
    } else if t == "LGPL-2.0"@ {
        Some(LicenseView::LGPL_2_0)
    } else if t == "LGPL-2.1"@ {
        Some(LicenseView::LGPL_2_1)
    } else if t == "LGPL-2.1+"@ {
        Some(LicenseView::LGPL_2_1Plus)
    } else if t == "LGPL-3.0"@ {
        Some(LicenseView::LGPL_3_0)
    } else if t == "LGPL-3.0+"@ {
        Some(LicenseView::LGPL_3_0Plus)
    } else if t == "MPL-1.1"@ {
        Some(LicenseView::MPL_1_1)
    } else if t == "MPL-2.0"@ {
        Some(LicenseView::MPL_2_0)
    } else if t == "GPL-2.0"@ {
        Some(LicenseView::GPL_2_0)
    } else if t == "GPL-2.0+"@ {
        Some(LicenseView::GPL_2_0Plus)
    } else if t == "GPL-3.0"@ {
        Some(LicenseView::GPL_3_0)
    } else if t == "GPL-3.0+"@ {
        Some(LicenseView::GPL_3_0Plus)
    } else if t == "AGPL-1.0"@ {
        Some(LicenseView::AGPL_1_0)
    } else {
        None
    }
}

/// One alternative of a composite declaration: trimmed, then either a named
/// identifier or kept verbatim. Alternatives contain no separator, so this
/// is how the parser treats each of them.
pub open spec fn parse_segment(s: Seq<char>) -> LicenseView {
    let t = spec_trim(s);
    match known_of(t) {
        Some(l) => l,
        None => LicenseView::Custom(t),
    }
}

/// Every alternative of a composite declaration, parsed.
pub open spec fn parse_segments_spec(parts: Seq<Seq<char>>) -> Seq<LicenseView> {
    parts.map_values(|seg: Seq<char>| parse_segment(seg))
}

/// What parsing yields: trim the text; a named identifier parses to its
/// variant; text with a separator parses each alternative and sorts them
/// canonically; anything else is kept verbatim.
pub open spec fn spec_parse(s: Seq<char>) -> LicenseView {
    let t = spec_trim(s);
    match known_of(t) {
        Some(l) => l,
        None => {
            if first_at(t, '/') < t.len() {
                LicenseView::Multiple(sort_licenses(parse_segments_spec(split_seps(t, '/'))))
            } else {
                LicenseView::Custom(t)
            }
        },
    }
}

/// Whatever the text, parsing yields a well-formed license value.
pub proof fn lemma_parse_wf(s: Seq<char>)
    ensures
        wf(spec_parse(s)),
{
    let t = spec_trim(s);
    if known_of(t) is None && first_at(t, '/') < t.len() {
        let parts = split_seps(t, '/');
        let mapped = parse_segments_spec(parts);
        let res = sort_licenses(mapped);
        lemma_sort_licenses_props(mapped);
        assert(split_seps(t.subrange(first_at(t, '/') + 1, t.len() as int), '/').len() >= 1);
        assert(parts.len() >= 2);
        assert forall|i: int| 0 <= i < res.len() implies wf(#[trigger] res[i]) by {
            assert(mapped.contains(res[i]));
            let j = choose|j: int| 0 <= j < mapped.len() && mapped[j] == res[i];
            assert(mapped[j] == parse_segment(parts[j]));
        }
        assert(wf(LicenseView::Multiple(res)));
    }
}

/// Text without any whitespace is left alone by trimming.
proof fn lemma_trim_id(s: Seq<char>)
    requires
        forall|i: int| 0 <= i < s.len() ==> !is_ws(#[trigger] s[i]),
    ensures
        spec_trim(s) == s,
{
    if s.len() > 0 {
        assert(!is_ws(s[0]));
        assert(!is_ws(s.last()));
    }
}

/// Round trip: every named identifier parses back from its canonical text
/// to the same value.
pub proof fn lemma_parse_format_roundtrip(l: LicenseView)
    requires
        crate::license::is_named(l),
    ensures
        spec_parse(spec_format(l)) == l,
{
    reveal_strlit("MIT");
    reveal_strlit("X11");
    reveal_strlit("BSD-3-Clause");
    reveal_strlit("Apache-2.0");
    reveal_strlit("LGPL-2.0");
    reveal_strlit("LGPL-2.1");
    reveal_strlit("LGPL-2.1+");
    reveal_strlit("LGPL-3.0");
    reveal_strlit("LGPL-3.0+");
    reveal_strlit("MPL-1.1");
    reveal_strlit("MPL-2.0");
    reveal_strlit("GPL-2.0");
    reveal_strlit("GPL-2.0+");
    reveal_strlit("GPL-3.0");
    reveal_strlit("GPL-3.0+");
    reveal_strlit("AGPL-1.0");
    assert("X11"@ != "MIT"@) by {
        assert("X11"@[0] != "MIT"@[0]);
    }
    assert("BSD-3-Clause"@ != "MIT"@) by {
        assert("BSD-3-Clause"@.len() != "MIT"@.len());
    }
    assert("BSD-3-Clause"@ != "X11"@) by {
        assert("BSD-3-Clause"@.len() != "X11"@.len());
    }
    assert("Apache-2.0"@ != "MIT"@) by {
        assert("Apache-2.0"@.len() != "MIT"@.len());
    }
    assert("Apache-2.0"@ != "X11"@) by {
        assert("Apache-2.0"@.len() != "X11"@.len());
    }
    assert("Apache-2.0"@ != "BSD-3-Clause"@) by {
        assert("Apache-2.0"@.len() != "BSD-3-Clause"@.len());
    }
    assert("LGPL-2.0"@ != "MIT"@) by {
        assert("LGPL-2.0"@.len() != "MIT"@.len());
    }
    assert("LGPL-2.0"@ != "X11"@) by {
        assert("LGPL-2.0"@.len() != "X11"@.len());
    }
    assert("LGPL-2.0"@ != "BSD-3-Clause"@) by {
        assert("LGPL-2.0"@.len() != "BSD-3-Clause"@.len());
    }
    assert("LGPL-2.0"@ != "Apache-2.0"@) by {
        assert("LGPL-2.0"@.len() != "Apache-2.0"@.len());
    }
    assert("LGPL-2.1"@ != "MIT"@) by {
        assert("LGPL-2.1"@.len() != "MIT"@.len());
    }
    assert("LGPL-2.1"@ != "X11"@) by {
        assert("LGPL-2.1"@.len() != "X11"@.len());
    }
    assert("LGPL-2.1"@ != "BSD-3-Clause"@) by {
        assert("LGPL-2.1"@.len() != "BSD-3-Clause"@.len());
    }
    assert("LGPL-2.1"@ != "Apache-2.0"@) by {
        assert("LGPL-2.1"@.len() != "Apache-2.0"@.len());
    }
    assert("LGPL-2.1"@ != "LGPL-2.0"@) by {
        assert("LGPL-2.1"@[7] != "LGPL-2.0"@[7]);
    }
    assert("LGPL-2.1+"@ != "MIT"@) by {
        assert("LGPL-2.1+"@.len() != "MIT"@.len());
    }
    assert("LGPL-2.1+"@ != "X11"@) by {
        assert("LGPL-2.1+"@.len() != "X11"@.len());
    }
    assert("LGPL-2.1+"@ != "BSD-3-Clause"@) by {
        assert("LGPL-2.1+"@.len() != "BSD-3-Clause"@.len());
    }
    assert("LGPL-2.1+"@ != "Apache-2.0"@) by {
        assert("LGPL-2.1+"@.len() != "Apache-2.0"@.len());
    }
    assert("LGPL-2.1+"@ != "LGPL-2.0"@) by {
        assert("LGPL-2.1+"@.len() != "LGPL-2.0"@.len());
    }
    assert("LGPL-2.1+"@ != "LGPL-2.1"@) by {
        assert("LGPL-2.1+"@.len() != "LGPL-2.1"@.len());
    }
    assert("LGPL-3.0"@ != "MIT"@) by {
        assert("LGPL-3.0"@.len() != "MIT"@.len());
    }
    assert("LGPL-3.0"@ != "X11"@) by {
        assert("LGPL-3.0"@.len() != "X11"@.len());
    }
    assert("LGPL-3.0"@ != "BSD-3-Clause"@) by {
        assert("LGPL-3.0"@.len() != "BSD-3-Clause"@.len());
    }
    assert("LGPL-3.0"@ != "Apache-2.0"@) by {
        assert("LGPL-3.0"@.len() != "Apache-2.0"@.len());
    }
    assert("LGPL-3.0"@ != "LGPL-2.0"@) by {
        assert("LGPL-3.0"@[5] != "LGPL-2.0"@[5]);
    }
    assert("LGPL-3.0"@ != "LGPL-2.1"@) by {
        assert("LGPL-3.0"@[5] != "LGPL-2.1"@[5]);
    }
    assert("LGPL-3.0"@ != "LGPL-2.1+"@) by {
        assert("LGPL-3.0"@.len() != "LGPL-2.1+"@.len());
    }
    assert("LGPL-3.0+"@ != "MIT"@) by {
        assert("LGPL-3.0+"@.len() != "MIT"@.len());
    }
    assert("LGPL-3.0+"@ != "X11"@) by {
        assert("LGPL-3.0+"@.len() != "X11"@.len());
    }
    assert("LGPL-3.0+"@ != "BSD-3-Clause"@) by {
        assert("LGPL-3.0+"@.len() != "BSD-3-Clause"@.len());
    }
    assert("LGPL-3.0+"@ != "Apache-2.0"@) by {
        assert("LGPL-3.0+"@.len() != "Apache-2.0"@.len());
    }
    assert("LGPL-3.0+"@ != "LGPL-2.0"@) by {
        assert("LGPL-3.0+"@.len() != "LGPL-2.0"@.len());
    }
    assert("LGPL-3.0+"@ != "LGPL-2.1"@) by {
        assert("LGPL-3.0+"@.len() != "LGPL-2.1"@.len());
    }
    assert("LGPL-3.0+"@ != "LGPL-2.1+"@) by {
        assert("LGPL-3.0+"@[5] != "LGPL-2.1+"@[5]);
    }
    assert("LGPL-3.0+"@ != "LGPL-3.0"@) by {
        assert("LGPL-3.0+"@.len() != "LGPL-3.0"@.len());
    }
    assert("MPL-1.1"@ != "MIT"@) by {
        assert("MPL-1.1"@.len() != "MIT"@.len());
    }
    assert("MPL-1.1"@ != "X11"@) by {
        assert("MPL-1.1"@.len() != "X11"@.len());
    }
    assert("MPL-1.1"@ != "BSD-3-Clause"@) by {
        assert("MPL-1.1"@.len() != "BSD-3-Clause"@.len());
    }
    assert("MPL-1.1"@ != "Apache-2.0"@) by {
        assert("MPL-1.1"@.len() != "Apache-2.0"@.len());
    }
    assert("MPL-1.1"@ != "LGPL-2.0"@) by {
        assert("MPL-1.1"@.len() != "LGPL-2.0"@.len());
    }
    assert("MPL-1.1"@ != "LGPL-2.1"@) by {
        assert("MPL-1.1"@.len() != "LGPL-2.1"@.len());
    }
    assert("MPL-1.1"@ != "LGPL-2.1+"@) by {
        assert("MPL-1.1"@.len() != "LGPL-2.1+"@.len());
    }
    assert("MPL-1.1"@ != "LGPL-3.0"@) by {
        assert("MPL-1.1"@.len() != "LGPL-3.0"@.len());
    }
    assert("MPL-1.1"@ != "LGPL-3.0+"@) by {
        assert("MPL-1.1"@.len() != "LGPL-3.0+"@.len());
    }
    assert("MPL-2.0"@ != "MIT"@) by {
        assert("MPL-2.0"@.len() != "MIT"@.len());
    }
    assert("MPL-2.0"@ != "X11"@) by {
        assert("MPL-2.0"@.len() != "X11"@.len());
    }
    assert("MPL-2.0"@ != "BSD-3-Clause"@) by {
        assert("MPL-2.0"@.len() != "BSD-3-Clause"@.len());
    }
    assert("MPL-2.0"@ != "Apache-2.0"@) by {
        assert("MPL-2.0"@.len() != "Apache-2.0"@.len());
    }
    assert("MPL-2.0"@ != "LGPL-2.0"@) by {
        assert("MPL-2.0"@.len() != "LGPL-2.0"@.len());
    }
    assert("MPL-2.0"@ != "LGPL-2.1"@) by {
        assert("MPL-2.0"@.len() != "LGPL-2.1"@.len());
    }
    assert("MPL-2.0"@ != "LGPL-2.1+"@) by {
        assert("MPL-2.0"@.len() != "LGPL-2.1+"@.len());
    }
    assert("MPL-2.0"@ != "LGPL-3.0"@) by {
        assert("MPL-2.0"@.len() != "LGPL-3.0"@.len());
    }
    assert("MPL-2.0"@ != "LGPL-3.0+"@) by {
        assert("MPL-2.0"@.len() != "LGPL-3.0+"@.len());
    }
    assert("MPL-2.0"@ != "MPL-1.1"@) by {
        assert("MPL-2.0"@[4] != "MPL-1.1"@[4]);
    }
    assert("GPL-2.0"@ != "MIT"@) by {
        assert("GPL-2.0"@.len() != "MIT"@.len());
    }
    assert("GPL-2.0"@ != "X11"@) by {
        assert("GPL-2.0"@.len() != "X11"@.len());
    }
    assert("GPL-2.0"@ != "BSD-3-Clause"@) by {
        assert("GPL-2.0"@.len() != "BSD-3-Clause"@.len());
    }
    assert("GPL-2.0"@ != "Apache-2.0"@) by {
        assert("GPL-2.0"@.len() != "Apache-2.0"@.len());
    }
    assert("GPL-2.0"@ != "LGPL-2.0"@) by {
        assert("GPL-2.0"@.len() != "LGPL-2.0"@.len());
    }
    assert("GPL-2.0"@ != "LGPL-2.1"@) by {
        assert("GPL-2.0"@.len() != "LGPL-2.1"@.len());
    }
    assert("GPL-2.0"@ != "LGPL-2.1+"@) by {
        assert("GPL-2.0"@.len() != "LGPL-2.1+"@.len());
    }
    assert("GPL-2.0"@ != "LGPL-3.0"@) by {
        assert("GPL-2.0"@.len() != "LGPL-3.0"@.len());
    }
    assert("GPL-2.0"@ != "LGPL-3.0+"@) by {
        assert("GPL-2.0"@.len() != "LGPL-3.0+"@.len());
    }
    assert("GPL-2.0"@ != "MPL-1.1"@) by {
        assert("GPL-2.0"@[0] != "MPL-1.1"@[0]);
    }
    assert("GPL-2.0"@ != "MPL-2.0"@) by {
        assert("GPL-2.0"@[0] != "MPL-2.0"@[0]);
    }
    assert("GPL-2.0+"@ != "MIT"@) by {
        assert("GPL-2.0+"@.len() != "MIT"@.len());
    }
    assert("GPL-2.0+"@ != "X11"@) by {
        assert("GPL-2.0+"@.len() != "X11"@.len());
    }
    assert("GPL-2.0+"@ != "BSD-3-Clause"@) by {
        assert("GPL-2.0+"@.len() != "BSD-3-Clause"@.len());
    }
    assert("GPL-2.0+"@ != "Apache-2.0"@) by {
        assert("GPL-2.0+"@.len() != "Apache-2.0"@.len());
    }
    assert("GPL-2.0+"@ != "LGPL-2.0"@) by {
        assert("GPL-2.0+"@[0] != "LGPL-2.0"@[0]);
    }
    assert("GPL-2.0+"@ != "LGPL-2.1"@) by {
        assert("GPL-2.0+"@[0] != "LGPL-2.1"@[0]);
    }
    assert("GPL-2.0+"@ != "LGPL-2.1+"@) by {
        assert("GPL-2.0+"@.len() != "LGPL-2.1+"@.len());
    }
    assert("GPL-2.0+"@ != "LGPL-3.0"@) by {
        assert("GPL-2.0+"@[0] != "LGPL-3.0"@[0]);
    }
    assert("GPL-2.0+"@ != "LGPL-3.0+"@) by {
        assert("GPL-2.0+"@.len() != "LGPL-3.0+"@.len());
    }
    assert("GPL-2.0+"@ != "MPL-1.1"@) by {
        assert("GPL-2.0+"@.len() != "MPL-1.1"@.len());
    }
    assert("GPL-2.0+"@ != "MPL-2.0"@) by {
        assert("GPL-2.0+"@.len() != "MPL-2.0"@.len());
    }
    assert("GPL-2.0+"@ != "GPL-2.0"@) by {
        assert("GPL-2.0+"@.len() != "GPL-2.0"@.len());
    }
    assert("GPL-3.0"@ != "MIT"@) by {
        assert("GPL-3.0"@.len() != "MIT"@.len());
    }
    assert("GPL-3.0"@ != "X11"@) by {
        assert("GPL-3.0"@.len() != "X11"@.len());
    }
    assert("GPL-3.0"@ != "BSD-3-Clause"@) by {
        assert("GPL-3.0"@.len() != "BSD-3-Clause"@.len());
    }
    assert("GPL-3.0"@ != "Apache-2.0"@) by {
        assert("GPL-3.0"@.len() != "Apache-2.0"@.len());
    }
    assert("GPL-3.0"@ != "LGPL-2.0"@) by {
        assert("GPL-3.0"@.len() != "LGPL-2.0"@.len());
    }
    assert("GPL-3.0"@ != "LGPL-2.1"@) by {
        assert("GPL-3.0"@.len() != "LGPL-2.1"@.len());
    }
    assert("GPL-3.0"@ != "LGPL-2.1+"@) by {
        assert("GPL-3.0"@.len() != "LGPL-2.1+"@.len());
    }
    assert("GPL-3.0"@ != "LGPL-3.0"@) by {
        assert("GPL-3.0"@.len() != "LGPL-3.0"@.len());
    }
    assert("GPL-3.0"@ != "LGPL-3.0+"@) by {
        assert("GPL-3.0"@.len() != "LGPL-3.0+"@.len());
    }
    assert("GPL-3.0"@ != "MPL-1.1"@) by {
        assert("GPL-3.0"@[0] != "MPL-1.1"@[0]);
    }
    assert("GPL-3.0"@ != "MPL-2.0"@) by {
        assert("GPL-3.0"@[0] != "MPL-2.0"@[0]);
    }
    assert("GPL-3.0"@ != "GPL-2.0"@) by {
        assert("GPL-3.0"@[4] != "GPL-2.0"@[4]);
    }
    assert("GPL-3.0"@ != "GPL-2.0+"@) by {
        assert("GPL-3.0"@.len() != "GPL-2.0+"@.len());
    }
    assert("GPL-3.0+"@ != "MIT"@) by {
        assert("GPL-3.0+"@.len() != "MIT"@.len());
    }
    assert("GPL-3.0+"@ != "X11"@) by {
        assert("GPL-3.0+"@.len() != "X11"@.len());
    }
    assert("GPL-3.0+"@ != "BSD-3-Clause"@) by {
        assert("GPL-3.0+"@.len() != "BSD-3-Clause"@.len());
    }
    assert("GPL-3.0+"@ != "Apache-2.0"@) by {
        assert("GPL-3.0+"@.len() != "Apache-2.0"@.len());
    }
    assert("GPL-3.0+"@ != "LGPL-2.0"@) by {
        assert("GPL-3.0+"@[0] != "LGPL-2.0"@[0]);
    }
    assert("GPL-3.0+"@ != "LGPL-2.1"@) by {
        assert("GPL-3.0+"@[0] != "LGPL-2.1"@[0]);
    }
    assert("GPL-3.0+"@ != "LGPL-2.1+"@) by {
        assert("GPL-3.0+"@.len() != "LGPL-2.1+"@.len());
    }
    assert("GPL-3.0+"@ != "LGPL-3.0"@) by {
        assert("GPL-3.0+"@[0] != "LGPL-3.0"@[0]);
    }
    assert("GPL-3.0+"@ != "LGPL-3.0+"@) by {
        assert("GPL-3.0+"@.len() != "LGPL-3.0+"@.len());
    }
    assert("GPL-3.0+"@ != "MPL-1.1"@) by {
        assert("GPL-3.0+"@.len() != "MPL-1.1"@.len());
    }
    assert("GPL-3.0+"@ != "MPL-2.0"@) by {
        assert("GPL-3.0+"@.len() != "MPL-2.0"@.len());
    }
    assert("GPL-3.0+"@ != "GPL-2.0"@) by {
        assert("GPL-3.0+"@.len() != "GPL-2.0"@.len());
    }
    assert("GPL-3.0+"@ != "GPL-2.0+"@) by {
        assert("GPL-3.0+"@[4] != "GPL-2.0+"@[4]);
    }
    assert("GPL-3.0+"@ != "GPL-3.0"@) by {
        assert("GPL-3.0+"@.len() != "GPL-3.0"@.len());
    }
    assert("AGPL-1.0"@ != "MIT"@) by {
        assert("AGPL-1.0"@.len() != "MIT"@.len());
    }
    assert("AGPL-1.0"@ != "X11"@) by {
        assert("AGPL-1.0"@.len() != "X11"@.len());
    }
    assert("AGPL-1.0"@ != "BSD-3-Clause"@) by {
        assert("AGPL-1.0"@.len() != "BSD-3-Clause"@.len());
    }
    assert("AGPL-1.0"@ != "Apache-2.0"@) by {
        assert("AGPL-1.0"@.len() != "Apache-2.0"@.len());
    }
    assert("AGPL-1.0"@ != "LGPL-2.0"@) by {
        assert("AGPL-1.0"@[0] != "LGPL-2.0"@[0]);
    }
    assert("AGPL-1.0"@ != "LGPL-2.1"@) by {
        assert("AGPL-1.0"@[0] != "LGPL-2.1"@[0]);
    }
    assert("AGPL-1.0"@ != "LGPL-2.1+"@) by {
        assert("AGPL-1.0"@.len() != "LGPL-2.1+"@.len());
    }
    assert("AGPL-1.0"@ != "LGPL-3.0"@) by {
        assert("AGPL-1.0"@[0] != "LGPL-3.0"@[0]);
    }
    assert("AGPL-1.0"@ != "LGPL-3.0+"@) by {
        assert("AGPL-1.0"@.len() != "LGPL-3.0+"@.len());
    }
    assert("AGPL-1.0"@ != "MPL-1.1"@) by {
        assert("AGPL-1.0"@.len() != "MPL-1.1"@.len());
    }
    assert("AGPL-1.0"@ != "MPL-2.0"@) by {
        assert("AGPL-1.0"@.len() != "MPL-2.0"@.len());
    }
    assert("AGPL-1.0"@ != "GPL-2.0"@) by {
        assert("AGPL-1.0"@.len() != "GPL-2.0"@.len());
    }
    assert("AGPL-1.0"@ != "GPL-2.0+"@) by {
        assert("AGPL-1.0"@[0] != "GPL-2.0+"@[0]);
    }
    assert("AGPL-1.0"@ != "GPL-3.0"@) by {
        assert("AGPL-1.0"@.len() != "GPL-3.0"@.len());
    }
    assert("AGPL-1.0"@ != "GPL-3.0+"@) by {
        assert("AGPL-1.0"@[0] != "GPL-3.0+"@[0]);
    }
    let t = spec_format(l);
    match l {
        LicenseView::MIT => {
            assert(t == "MIT"@);
            assert(forall|i: int| 0 <= i < t.len() ==> !is_ws(#[trigger] t[i]));
        },
        LicenseView::X11 => {
            assert(t == "X11"@);
            assert(forall|i: int| 0 <= i < t.len() ==> !is_ws(#[trigger] t[i]));
        },
        LicenseView::BSD_3_Clause => {
            assert(t == "BSD-3-Clause"@);
            assert(forall|i: int| 0 <= i < t.len() ==> !is_ws(#[trigger] t[i]));
        },
        LicenseView::Apache_2_0 => {
            assert(t == "Apache-2.0"@);
            assert(forall|i: int| 0 <= i < t.len() ==> !is_ws(#[trigger] t[i]));
        },
        LicenseView::LGPL_2_0 => {
            assert(t == "LGPL-2.0"@);
            assert(forall|i: int| 0 <= i < t.len() ==> !is_ws(#[trigger] t[i]));
        },
        LicenseView::LGPL_2_1 => {
            assert(t == "LGPL-2.1"@);
            assert(forall|i: int| 0 <= i < t.len() ==> !is_ws(#[trigger] t[i]));
        },
        LicenseView::LGPL_2_1Plus => {
            assert(t == "LGPL-2.1+"@);
            assert(forall|i: int| 0 <= i < t.len() ==> !is_ws(#[trigger] t[i]));
        },
        LicenseView::LGPL_3_0 => {
            assert(t == "LGPL-3.0"@);
            assert(forall|i: int| 0 <= i < t.len() ==> !is_ws(#[trigger] t[i]));
        },
        LicenseView::LGPL_3_0Plus => {
            assert(t == "LGPL-3.0+"@);
            assert(forall|i: int| 0 <= i < t.len() ==> !is_ws(#[trigger] t[i]));
        },
        LicenseView::MPL_1_1 => {
            assert(t == "MPL-1.1"@);
            assert(forall|i: int| 0 <= i < t.len() ==> !is_ws(#[trigger] t[i]));
        },
        LicenseView::MPL_2_0 => {
            assert(t == "MPL-2.0"@);
            assert(forall|i: int| 0 <= i < t.len() ==> !is_ws(#[trigger] t[i]));
        },
        LicenseView::GPL_2_0 => {
            assert(t == "GPL-2.0"@);
            assert(forall|i: int| 0 <= i < t.len() ==> !is_ws(#[trigger] t[i]));
        },
        LicenseView::GPL_2_0Plus => {
            assert(t == "GPL-2.0+"@);
            assert(forall|i: int| 0 <= i < t.len() ==> !is_ws(#[trigger] t[i]));
        },
        LicenseView::GPL_3_0 => {
            assert(t == "GPL-3.0"@);
            assert(forall|i: int| 0 <= i < t.len() ==> !is_ws(#[trigger] t[i]));
        },
        LicenseView::GPL_3_0Plus => {
            assert(t == "GPL-3.0+"@);
            assert(forall|i: int| 0 <= i < t.len() ==> !is_ws(#[trigger] t[i]));
        },
        LicenseView::AGPL_1_0 => {
            assert(t == "AGPL-1.0"@);
            assert(forall|i: int| 0 <= i < t.len() ==> !is_ws(#[trigger] t[i]));
        },
        _ => {},
    }
    lemma_trim_id(t);
    assert(known_of(t) == Some(l));
}

/// An alternative parses to a named identifier or to verbatim text, never
/// to a composite.
proof fn lemma_parse_segment_leaf(s: Seq<char>)
    ensures
        !(parse_segment(s) is Multiple),
{
}

/// No named identifier contains the separator.
proof fn lemma_no_separator_in_idents(t: Seq<char>, p: int)
    requires
        0 <= p < t.len(),
        t[p] == '/',
    ensures
        known_of(t) is None,
{
    reveal_strlit("MIT");
    reveal_strlit("X11");
    reveal_strlit("BSD-3-Clause");
    reveal_strlit("Apache-2.0");
    reveal_strlit("LGPL-2.0");
    reveal_strlit("LGPL-2.1");
    reveal_strlit("LGPL-2.1+");
    reveal_strlit("LGPL-3.0");
    reveal_strlit("LGPL-3.0+");
    reveal_strlit("MPL-1.1");
    reveal_strlit("MPL-2.0");
    reveal_strlit("GPL-2.0");
    reveal_strlit("GPL-2.0+");
    reveal_strlit("GPL-3.0");
    reveal_strlit("GPL-3.0+");
    reveal_strlit("AGPL-1.0");
    assert(t != "MIT"@) by {
        if t == "MIT"@ {
            assert("MIT"@[p] == '/');
        }
    }
    assert(t != "X11"@) by {
        if t == "X11"@ {
            assert("X11"@[p] == '/');
        }
    }
    assert(t != "BSD-3-Clause"@) by {
        if t == "BSD-3-Clause"@ {
            assert("BSD-3-Clause"@[p] == '/');
        }
    }
    assert(t != "Apache-2.0"@) by {
        if t == "Apache-2.0"@ {
            assert("Apache-2.0"@[p] == '/');
        }
    }
    assert(t != "LGPL-2.0"@) by {
        if t == "LGPL-2.0"@ {
            assert("LGPL-2.0"@[p] == '/');
        }
    }
    assert(t != "LGPL-2.1"@) by {
        if t == "LGPL-2.1"@ {
            assert("LGPL-2.1"@[p] == '/');
        }
    }
    assert(t != "LGPL-2.1+"@) by {
        if t == "LGPL-2.1+"@ {
            assert("LGPL-2.1+"@[p] == '/');
        }
    }
    assert(t != "LGPL-3.0"@) by {
        if t == "LGPL-3.0"@ {
            assert("LGPL-3.0"@[p] == '/');
        }
    }
    assert(t != "LGPL-3.0+"@) by {
        if t == "LGPL-3.0+"@ {
            assert("LGPL-3.0+"@[p] == '/');
        }
    }
    assert(t != "MPL-1.1"@) by {
        if t == "MPL-1.1"@ {
            assert("MPL-1.1"@[p] == '/');
        }
    }
    assert(t != "MPL-2.0"@) by {
        if t == "MPL-2.0"@ {
            assert("MPL-2.0"@[p] == '/');
        }
    }
    assert(t != "GPL-2.0"@) by {
        if t == "GPL-2.0"@ {
            assert("GPL-2.0"@[p] == '/');
        }
    }
    assert(t != "GPL-2.0+"@) by {
        if t == "GPL-2.0+"@ {
            assert("GPL-2.0+"@[p] == '/');
        }
    }
    assert(t != "GPL-3.0"@) by {
        if t == "GPL-3.0"@ {
            assert("GPL-3.0"@[p] == '/');
        }
    }
    assert(t != "GPL-3.0+"@) by {
        if t == "GPL-3.0+"@ {
            assert("GPL-3.0+"@[p] == '/');
        }
    }
    assert(t != "AGPL-1.0"@) by {
        if t == "AGPL-1.0"@ {
            assert("AGPL-1.0"@[p] == '/');
        }
    }
}

/// What a declaration of two separator-free alternatives, written without
/// whitespace at its ends, parses to.
proof fn lemma_parse_pair(s1: Seq<char>, s2: Seq<char>)
    requires
        forall|k: int| 0 <= k < s1.len() ==> #[trigger] s1[k] != '/',
        forall|k: int| 0 <= k < s2.len() ==> #[trigger] s2[k] != '/',
        s1.len() > 0 ==> !is_ws(s1[0]),
        s2.len() > 0 ==> !is_ws(s2[s2.len() - 1]),
    ensures
        spec_parse(s1 + seq!['/'] + s2) == LicenseView::Multiple(
            sort_licenses(seq![parse_segment(s1), parse_segment(s2)]),
        ),
{
    let cat = s1 + seq!['/'] + s2;
    let n1 = s1.len() as int;
    assert(cat.len() == s1.len() + 1 + s2.len());
    assert(cat[n1] == '/');
    assert(!is_ws(cat[0]));
    assert(!is_ws(cat[cat.len() - 1]));
    assert(spec_trim(cat) == cat);
    lemma_no_separator_in_idents(cat, n1);
    assert forall|k: int| 0 <= k < n1 implies cat[k] != '/' by {
        assert(cat[k] == s1[k]);
    }
    crate::strutil::lemma_first_at_is(cat, '/', n1);
    let rest = cat.subrange(n1 + 1, cat.len() as int);
    assert(rest =~= s2);
    assert forall|k: int| 0 <= k < s2.len() implies s2[k] != '/' by {}
    crate::strutil::lemma_first_at_is(s2, '/', s2.len() as int);
    assert(split_seps(s2, '/') == seq![s2]);
    assert(cat.subrange(0, n1) =~= s1);
    assert(split_seps(cat, '/') == seq![s1] + seq![s2]);
    assert(seq![s1] + seq![s2] =~= seq![s1, s2]);
    let mapped = parse_segments_spec(seq![s1, s2]);
    assert(mapped.len() == 2);
    assert(mapped[0] == parse_segment(s1));
    assert(mapped[1] == parse_segment(s2));
    assert(mapped =~= seq![parse_segment(s1), parse_segment(s2)]);
}

/// Order independence: a declaration of two alternatives parses to the
/// same value whichever order they are written in, as long as neither
/// holds the separator and neither starts or ends with whitespace.
pub proof fn lemma_parse_pair_order_independent(s1: Seq<char>, s2: Seq<char>)
    requires
        forall|k: int| 0 <= k < s1.len() ==> #[trigger] s1[k] != '/',
        forall|k: int| 0 <= k < s2.len() ==> #[trigger] s2[k] != '/',
        s1.len() > 0 ==> !is_ws(s1[0]) && !is_ws(s1[s1.len() - 1]),
        s2.len() > 0 ==> !is_ws(s2[0]) && !is_ws(s2[s2.len() - 1]),
    ensures
        spec_parse(s1 + seq!['/'] + s2) == spec_parse(s2 + seq!['/'] + s1),
{
    lemma_parse_pair(s1, s2);
    lemma_parse_pair(s2, s1);
    lemma_parse_segment_leaf(s1);
    lemma_parse_segment_leaf(s2);
    crate::license::lemma_sort_two_alternatives(parse_segment(s1), parse_segment(s2));
}

/// The named variant for text that is exactly one of the fixed identifiers.
fn known_ident(t: &str) -> (r: Option<License>)
    ensures
        match r {
            Some(l) => known_of(t@) == Some(l@),
            None => known_of(t@) is None,
        },
{
    if str_eq(t, "MIT") {
        Some(License::MIT)
    } else if str_eq(t, "X11") {
        Some(License::X11)
    } else if str_eq(t, "BSD-3-Clause") {
        Some(License::BSD_3_Clause)
    } else if str_eq(t, "Apache-2.0") {
        Some(License::Apache_2_0)
    } else if str_eq(t, "LGPL-2.0") {
        Some(License::LGPL_2_0)
    } else if str_eq(t, "LGPL-2.1") {
        Some(License::LGPL_2_1)
    } else if str_eq(t, "LGPL-2.1+") {
        Some(License::LGPL_2_1Plus)
    } else if str_eq(t, "LGPL-3.0") {
        Some(License::LGPL_3_0)
    } else if str_eq(t, "LGPL-3.0+") {
        Some(License::LGPL_3_0Plus)
    } else if str_eq(t, "MPL-1.1") {
        Some(License::MPL_1_1)
    } else if str_eq(t, "MPL-2.0") {
        Some(License::MPL_2_0)
    } else if str_eq(t, "GPL-2.0") {
        Some(License::GPL_2_0)
    } else if str_eq(t, "GPL-2.0+") {
        Some(License::GPL_2_0Plus)
    } else if str_eq(t, "GPL-3.0") {
        Some(License::GPL_3_0)
    } else if str_eq(t, "GPL-3.0+") {
        Some(License::GPL_3_0Plus)
    } else if str_eq(t, "AGPL-1.0") {
        Some(License::AGPL_1_0)
    } else {
        None
    }
}

/// Parses one alternative of a composite declaration.
fn parse_segment_str(seg: &str) -> (l: License)
    ensures
        l@ == parse_segment(seg@),
{
    let t = trim_str(seg);
    match known_ident(t) {
        Some(l) => l,
        None => License::Custom(t.to_owned()),
    }
}

/// Parses every alternative of `t`, in declaration order.
fn parse_alternatives(t: &str) -> (v: Vec<License>)
    ensures
        views_of(v@) == parse_segments_spec(split_seps(t@, '/')),
    decreases t@.len(),
{
    let n = t.unicode_len();
    let i = find_char(t, '/');
    if i == n {
        let l = parse_segment_str(t);
        let mut v: Vec<License> = Vec::new();
        v.push(l);
        proof {
            lemma_views_of(v@);
            assert(views_of(v@) =~= parse_segments_spec(split_seps(t@, '/')));
        }
        v
    } else {
        let head = t.substring_char(0, i);
        let rest = t.substring_char(i + 1, n);
        let hl = parse_segment_str(head);
        let mut v: Vec<License> = Vec::new();
        v.push(hl);
        let mut tail = parse_alternatives(rest);
        proof {
            lemma_views_of(v@);
            lemma_views_of(tail@);
        }
        let ghost vpre = v@;
        let ghost tailpre = tail@;
        v.append(&mut tail);
        proof {
            lemma_views_of(v@);
            assert(v@ == vpre + tailpre);
            let parts = split_seps(t@, '/');
            assert(parts == seq![t@.subrange(0, i as int)] + split_seps(
                t@.subrange(i + 1, t@.len() as int),
                '/',
            ));
            assert forall|k: int| 0 <= k < v@.len() implies views_of(v@)[k]
                == parse_segments_spec(parts)[k] by {
                if k == 0 {
                    assert(v@[0] == hl);
                    assert(parts[0] == head@);
                } else {
                    assert(v@[k] == tailpre[k - 1]);
                    assert(views_of(tailpre)[k - 1] == tailpre[k - 1]@);
                    assert(parts[k] == split_seps(rest@, '/')[k - 1]);
                }
            }
            assert(views_of(v@) =~= parse_segments_spec(parts));
        }
        v
    }
}

impl License {
    /// Parses a license declaration from free-form text. Total: every
    /// input yields a well-formed value, never an error.
    pub fn parse(s: &str) -> (l: License)
        ensures
            l@ == spec_parse(s@),
            wf(l@),
    {
        proof {
            lemma_parse_wf(s@);
        }
        let t = trim_str(s);
        match known_ident(t) {
            Some(l) => l,
            None => {
                let n = t.unicode_len();
                let i = find_char(t, '/');
                if i < n {
                    let alts = parse_alternatives(t);
                    let sorted = sort_licenses_vec(alts);
                    License::Multiple(sorted)
                } else {
                    License::Custom(t.to_owned())
                }
            },
        }
    }
}

} // verus!

