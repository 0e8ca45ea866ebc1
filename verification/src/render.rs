//! The report renderers, as pure string builders: the listing (one line
//! per license group) and the bundle document (per-group package lines
//! followed by the indented license texts). Sections follow the order of
//! the groups handed in; writing the result anywhere is the caller's
//! business.

use vstd::prelude::*;

use crate::display::spec_format;
use crate::group::{group_views, LicenseGroup, LicenseGroupView, PackageIdView};
use crate::license::{lemma_views_of, views_of, License, LicenseView};
use crate::strutil::{find_char, first_at, split_seps};
use crate::text::{spec_full_text, TextError};

verus! {

/// The views of a sequence of strings.
pub open spec fn string_views(ss: Seq<String>) -> Seq<Seq<char>> {
    ss.map_values(|s: String| s@)
}

/// Package names joined with ", ".
pub open spec fn names_joined(pkgs: Seq<PackageIdView>) -> Seq<char>
    decreases pkgs.len(),
{
    if pkgs.len() == 0 {
        Seq::empty()
    } else if pkgs.len() == 1 {
        pkgs[0].name
    } else {
        names_joined(pkgs.drop_last()) + ", "@ + pkgs.last().name
    }
}

/// One listing line: the license display, a colon, the package names.
pub open spec fn spec_list_line(g: LicenseGroupView) -> Seq<char> {
    spec_format(g.license) + ": "@ + names_joined(g.packages)
}

/// The whole listing: one line per group, in group order.
pub open spec fn spec_list_lines(gs: Seq<LicenseGroupView>) -> Seq<Seq<char>> {
    gs.map_values(|g: LicenseGroupView| spec_list_line(g))
}

/// Renders the listing report: one line per license group.
#[verifier::loop_isolation(false)]
pub fn render_list(groups: &Vec<LicenseGroup>) -> (lines: Vec<String>)
    ensures
        string_views(lines@) == spec_list_lines(group_views(groups@)),
{
    let mut lines: Vec<String> = Vec::new();
    let mut k: usize = 0;
    while k < groups.len()
        invariant
            k <= groups@.len(),
            string_views(lines@) =~= spec_list_lines(group_views(groups@)).take(k as int),
        decreases groups@.len() - k,
    {
        let g = &groups[k];
        let mut line = g.license.format();
        line.append(": ");
        let ghost pviews = g.packages@.map_values(|p: crate::group::PackageId| p@);
        let mut m: usize = 0;
        while m < g.packages.len()
            invariant
                m <= g.packages@.len(),
                line@ == spec_format(g.license@) + ": "@ + names_joined(
                    pviews.take(m as int),
                ),
            decreases g.packages@.len() - m,
        {
            if m > 0 {
                line.append(", ");
            }
            line.append(g.packages[m].name.as_str());
            proof {
                let pre = pviews.take(m as int);
                let cur = pviews.take(m + 1int);
                assert(cur.drop_last() =~= pre);
                assert(cur.last() == pviews[m as int]);
                if m == 0 {
                    assert(names_joined(cur) == pviews[0].name);
                }
            }
            m = m + 1;
        }
        proof {
            assert(pviews.take(g.packages@.len() as int) =~= pviews);
            assert(g@.packages == pviews);
        }
        let ghost prev = lines@;
        lines.push(line);
        proof {
            assert(lines@ == prev.push(line));
            assert forall|i: int| 0 <= i < lines@.len() implies string_views(lines@)[i]
                == spec_list_lines(group_views(groups@)).take(k + 1int)[i] by {
                assert(string_views(lines@)[i] == lines@[i]@);
                if i < k {
                    assert(lines@[i] == prev[i]);
                    assert(string_views(prev)[i] == prev[i]@);
                }
                assert(group_views(groups@)[k as int] == groups@[k as int]@);
            }
            assert(string_views(lines@) =~= spec_list_lines(group_views(groups@)).take(
                k + 1int,
            ));
        }
        k = k + 1;
    }
    proof {
        assert(spec_list_lines(group_views(groups@)).take(groups@.len() as int)
            =~= spec_list_lines(group_views(groups@)));
    }
    lines
}

/// The lines of a text: the segments between newlines, without a final
/// empty segment when the text ends with a newline.
pub open spec fn lines_of(s: Seq<char>) -> Seq<Seq<char>> {
    let parts = split_seps(s, '\n');
    if parts.len() > 0 && parts.last().len() == 0 {
        parts.drop_last()
    } else {
        parts
    }
}

/// Each line indented by four spaces and terminated by a newline.
pub open spec fn indent_all(lines: Seq<Seq<char>>) -> Seq<char>
    decreases lines.len(),
{
    if lines.len() == 0 {
        Seq::empty()
    } else {
        indent_all(lines.drop_last()) + "    "@ + lines.last() + "\n"@
    }
}

/// A text with every line indented by four spaces.
pub open spec fn spec_indent(text: Seq<char>) -> Seq<char> {
    indent_all(lines_of(text))
}

/// Peeling the first line off a text peels it off its line sequence.
proof fn lemma_lines_of_step(s: Seq<char>)
    requires
        first_at(s, '\n') < s.len(),
    ensures
        lines_of(s) == seq![s.subrange(0, first_at(s, '\n'))] + lines_of(
            s.subrange(first_at(s, '\n') + 1, s.len() as int),
        ),
{
    let i = first_at(s, '\n');
    let rest = s.subrange(i + 1, s.len() as int);
    let parts = split_seps(s, '\n');
    let rparts = split_seps(rest, '\n');
    assert(parts == seq![s.subrange(0, i)] + rparts);
    assert(rparts.len() >= 1);
    assert(parts.last() == rparts.last());
    assert(lines_of(s) =~= seq![s.subrange(0, i)] + lines_of(rest));
}

/// Indenting distributes over peeling off the first line.
proof fn lemma_indent_all_cons(h: Seq<char>, lines: Seq<Seq<char>>)
    ensures
        indent_all(seq![h] + lines) == "    "@ + h + "\n"@ + indent_all(lines),
    decreases lines.len(),
{
    let whole = seq![h] + lines;
    if lines.len() == 0 {
        assert(whole.drop_last() =~= Seq::<Seq<char>>::empty());
        assert(whole.last() == h);
        assert(indent_all(whole.drop_last()) == Seq::<char>::empty());
        assert(indent_all(lines) == Seq::<char>::empty());
        assert(indent_all(whole) == indent_all(whole.drop_last()) + "    "@ + h + "\n"@);
        assert(indent_all(whole) =~= "    "@ + h + "\n"@ + indent_all(lines));
    } else {
        assert(whole.drop_last() =~= seq![h] + lines.drop_last());
        assert(whole.last() == lines.last());
        lemma_indent_all_cons(h, lines.drop_last());
        assert(indent_all(whole) =~= "    "@ + h + "\n"@ + indent_all(lines));
    }
}

/// Indents every line of `text` by four spaces, each line newline
/// terminated.
fn indent_text(text: &str) -> (r: String)
    ensures
        r@ == spec_indent(text@),
    decreases text@.len(),
{
    let n = text.unicode_len();
    if n == 0 {
        proof {
            assert(split_seps(text@, '\n') == seq![text@]);
            assert(lines_of(text@) =~= Seq::<Seq<char>>::empty());
        }
        return String::new();
    }
    let i = find_char(text, '\n');
    if i == n {
        let mut r = String::from_str("    ");
        r.append(text);
        r.append("\n");
        proof {
            assert(split_seps(text@, '\n') == seq![text@]);
            assert(seq![text@].last() == text@);
            assert(text@.len() > 0);
            assert(lines_of(text@) == seq![text@]);
            let ls = lines_of(text@);
            assert(ls.drop_last() =~= Seq::<Seq<char>>::empty());
            assert(indent_all(ls.drop_last()) == Seq::<char>::empty());
            assert(indent_all(ls) == indent_all(ls.drop_last()) + "    "@ + text@ + "\n"@);
            assert(r@ =~= spec_indent(text@));
        }
        r
    } else {
        let head = text.substring_char(0, i);
        let rest = text.substring_char(i + 1, n);
        let mut r = String::from_str("    ");
        r.append(head);
        r.append("\n");
        let tail = indent_text(rest);
        let r = r.concat(tail.as_str());
        proof {
            lemma_lines_of_step(text@);
            lemma_indent_all_cons(head@, lines_of(rest@));
            assert(r@ =~= spec_indent(text@));
        }
        r
    }
}

/// The text block of one bundled license: each alternative's full text for
/// a composite, separated by " ---" lines; nothing for an absent
/// declaration; otherwise the license's full text — always indented.
pub open spec fn spec_text_block(l: LicenseView) -> Result<Seq<char>, TextError> {
    match l {
        LicenseView::Multiple(ms) => spec_members_text(ms),
        LicenseView::Unspecified => Ok(Seq::empty()),
        _ => match spec_full_text(l) {
            Ok(t) => Ok(spec_indent(t)),
            Err(e) => Err(e),
        },
    }
}

/// The texts of a composite's alternatives, indented and separated by
/// " ---" lines; the first failure wins.
pub open spec fn spec_members_text(ms: Seq<LicenseView>) -> Result<Seq<char>, TextError>
    decreases ms.len(),
{
    if ms.len() == 0 {
        Ok(Seq::empty())
    } else if ms.len() == 1 {
        match spec_full_text(ms[0]) {
            Ok(t) => Ok(spec_indent(t)),
            Err(e) => Err(e),
        }
    } else {
        match spec_members_text(ms.drop_last()) {
            Ok(front) => match spec_full_text(ms.last()) {
                Ok(t) => Ok(front + " ---\n"@ + spec_indent(t)),
                Err(e) => Err(e),
            },
            Err(e) => Err(e),
        }
    }
}

/// The first alternative whose text fails decides the whole block.
proof fn lemma_members_text_err(ms: Seq<LicenseView>, k: int, e: TextError)
    requires
        0 <= k < ms.len(),
        spec_members_text(ms.take(k)) is Ok,
        spec_full_text(ms[k]) == Err::<Seq<char>, TextError>(e),
    ensures
        spec_members_text(ms) == Err::<Seq<char>, TextError>(e),
    decreases ms.len(),
{
    if ms.len() == k + 1 {
        if k > 0 {
            assert(ms.drop_last() =~= ms.take(k));
            assert(ms.last() == ms[k]);
        }
    } else {
        assert(ms.drop_last().take(k) =~= ms.take(k));
        assert(ms.drop_last()[k] == ms[k]);
        lemma_members_text_err(ms.drop_last(), k, e);
    }
}

/// Builds the text block of one bundled license.
#[verifier::loop_isolation(false)]
fn text_block(l: &License) -> (r: Result<String, TextError>)
    ensures
        match r {
            Ok(t) => spec_text_block(l@) == Ok::<Seq<char>, TextError>(t@),
            Err(e) => spec_text_block(l@) == Err::<Seq<char>, TextError>(e),
        },
{
    match l {
        License::Multiple(v) => {
            let ghost ms = views_of(v@);
            proof {
                lemma_views_of(v@);
            }
            let mut acc = String::new();
            let mut m: usize = 0;
            while m < v.len()
                invariant
                    m <= v@.len(),
                    spec_members_text(ms.take(m as int)) == Ok::<Seq<char>, TextError>(acc@),
                decreases v@.len() - m,
            {
                if m > 0 {
                    acc.append(" ---\n");
                }
                match v[m].full_text() {
                    Ok(t) => {
                        let ind = indent_text(t);
                        acc.append(ind.as_str());
                        proof {
                            let pre = ms.take(m as int);
                            let cur = ms.take(m + 1int);
                            assert(cur.drop_last() =~= pre);
                            assert(cur.last() == ms[m as int]);
                        }
                    },
                    Err(e) => {
                        proof {
                            lemma_members_text_err(ms, m as int, e);
                        }
                        return Err(e);
                    },
                }
                m = m + 1;
            }
            proof {
                assert(ms.take(v@.len() as int) =~= ms);
            }
            Ok(acc)
        },
        License::Unspecified => Ok(String::new()),
        _ => match l.full_text() {
            Ok(t) => Ok(indent_text(t)),
            Err(e) => Err(e),
        },
    }
}

/// The package lines of one group: one " * name - license" line per
/// package.
pub open spec fn pkg_lines(pkgs: Seq<PackageIdView>, lic: LicenseView) -> Seq<char>
    decreases pkgs.len(),
{
    if pkgs.len() == 0 {
        Seq::empty()
    } else {
        pkg_lines(pkgs.drop_last(), lic) + " * "@ + pkgs.last().name + " - "@ + spec_format(
            lic,
        ) + "\n"@
    }
}

/// One bundle section: the group's package lines, its text block, and a
/// blank line.
pub open spec fn spec_group_section(g: LicenseGroupView) -> Result<Seq<char>, TextError> {
    match spec_text_block(g.license) {
        Ok(t) => Ok(pkg_lines(g.packages, g.license) + t + "\n"@),
        Err(e) => Err(e),
    }
}

/// All bundle sections in group order; the first failure wins.
pub open spec fn spec_sections(gs: Seq<LicenseGroupView>) -> Result<Seq<char>, TextError>
    decreases gs.len(),
{
    if gs.len() == 0 {
        Ok(Seq::empty())
    } else {
        match spec_sections(gs.drop_last()) {
            Ok(front) => match spec_group_section(gs.last()) {
                Ok(s) => Ok(front + s),
                Err(e) => Err(e),
            },
            Err(e) => Err(e),
        }
    }
}

/// The whole bundle document: a header naming the root package, a blank
/// line, then the sections.
pub open spec fn spec_bundle(root: Seq<char>, gs: Seq<LicenseGroupView>) -> Result<
    Seq<char>,
    TextError,
> {
    match spec_sections(gs) {
        Ok(body) => Ok(
            "The "@ + root
                + " package uses some third party libraries under their own license terms:\n\n"@
                + body,
        ),
        Err(e) => Err(e),
    }
}

/// The first group whose section fails decides the whole document.
proof fn lemma_sections_err(gs: Seq<LicenseGroupView>, k: int, e: TextError)
    requires
        0 <= k < gs.len(),
        spec_sections(gs.take(k)) is Ok,
        spec_group_section(gs[k]) == Err::<Seq<char>, TextError>(e),
    ensures
        spec_sections(gs) == Err::<Seq<char>, TextError>(e),
    decreases gs.len(),
{
    if gs.len() == k + 1 {
        assert(gs.drop_last() =~= gs.take(k));
        assert(gs.last() == gs[k]);
    } else {
        assert(gs.drop_last().take(k) =~= gs.take(k));
        assert(gs.drop_last()[k] == gs[k]);
        lemma_sections_err(gs.drop_last(), k, e);
    }
}

/// Renders the bundle document for the root package and the given groups,
/// or the failure of the first group whose license text is unavailable.
#[verifier::loop_isolation(false)]
pub fn render_bundle(root_name: &str, groups: &Vec<LicenseGroup>) -> (r: Result<
    String,
    TextError,
>)
    ensures
        match r {
            Ok(doc) => spec_bundle(root_name@, group_views(groups@)) == Ok::<
                Seq<char>,
                TextError,
            >(doc@),
            Err(e) => spec_bundle(root_name@, group_views(groups@)) == Err::<
                Seq<char>,
                TextError,
            >(e),
        },
{
    let ghost gvs = group_views(groups@);
    let mut body = String::new();
    let mut k: usize = 0;
    while k < groups.len()
        invariant
            k <= groups@.len(),
            spec_sections(gvs.take(k as int)) == Ok::<Seq<char>, TextError>(body@),
        decreases groups@.len() - k,
    {
        let g = &groups[k];
        let ghost gv = gvs[k as int];
        proof {
            assert(gv == groups@[k as int]@);
        }
        let ltext = g.license.format();
        let ghost pviews = g.packages@.map_values(|p: crate::group::PackageId| p@);
        let mut sec = String::new();
        let mut m: usize = 0;
        while m < g.packages.len()
            invariant
                m <= g.packages@.len(),
                sec@ == pkg_lines(pviews.take(m as int), g.license@),
                ltext@ == spec_format(g.license@),
            decreases g.packages@.len() - m,
        {
            sec.append(" * ");
            sec.append(g.packages[m].name.as_str());
            sec.append(" - ");
            sec.append(ltext.as_str());
            sec.append("\n");
            proof {
                let pre = pviews.take(m as int);
                let cur = pviews.take(m + 1int);
                assert(cur.drop_last() =~= pre);
                assert(cur.last() == pviews[m as int]);
            }
            m = m + 1;
        }
        proof {
            assert(pviews.take(g.packages@.len() as int) =~= pviews);
            assert(gv.packages == pviews);
            assert(gv.license == g.license@);
        }
        match text_block(&g.license) {
            Ok(t) => {
                sec.append(t.as_str());
                sec.append("\n");
                body.append(sec.as_str());
                proof {
                    let pre = gvs.take(k as int);
                    let cur = gvs.take(k + 1int);
                    assert(cur.drop_last() =~= pre);
                    assert(cur.last() == gvs[k as int]);
                }
            },
            Err(e) => {
                proof {
                    lemma_sections_err(gvs, k as int, e);
                }
                return Err(e);
            },
        }
        k = k + 1;
    }
    proof {
        assert(gvs.take(groups@.len() as int) =~= gvs);
    }
    let mut r = String::from_str("The ");
    r.append(root_name);
    r.append(" package uses some third party libraries under their own license terms:\n\n");
    let out = r.concat(body.as_str());
    Ok(out)
}

} // verus!
