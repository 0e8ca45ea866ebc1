//! The aggregator: groups (package identity, license) pairs into
//! license-keyed groups. A package joins the group of its license,
//! preserving input order within each group; a new group opens at the end
//! when its license has no group yet.

use vstd::prelude::*;

use crate::license::{lic_eq, License, LicenseView};

verus! {

/// An opaque package identity: a name and a version.
#[derive(Debug, PartialEq, Eq)]
pub struct PackageId {
    pub name: String,
    pub version: String,
}

/// The mathematical shape of a [`PackageId`].
pub struct PackageIdView {
    pub name: Seq<char>,
    pub version: Seq<char>,
}

impl View for PackageId {
    type V = PackageIdView;

    open spec fn view(&self) -> PackageIdView {
        PackageIdView { name: self.name@, version: self.version@ }
    }
}

/// A package identity together with its declared license.
#[derive(Debug, PartialEq, Eq)]
pub struct PackageLicense {
    pub id: PackageId,
    pub license: License,
}

/// The mathematical shape of a [`PackageLicense`].
pub struct PackageLicenseView {
    pub id: PackageIdView,
    pub license: LicenseView,
}

impl View for PackageLicense {
    type V = PackageLicenseView;

    open spec fn view(&self) -> PackageLicenseView {
        PackageLicenseView { id: self.id@, license: self.license@ }
    }
}

/// One group of the report: a license and the packages under it, in input
/// order.
#[derive(Debug, PartialEq, Eq)]
pub struct LicenseGroup {
    pub license: License,
    pub packages: Vec<PackageId>,
}

/// The mathematical shape of a [`LicenseGroup`].
pub struct LicenseGroupView {
    pub license: LicenseView,
    pub packages: Seq<PackageIdView>,
}

impl View for LicenseGroup {
    type V = LicenseGroupView;

    open spec fn view(&self) -> LicenseGroupView {
        LicenseGroupView {
            license: self.license@,
            packages: self.packages@.map_values(|p: PackageId| p@),
        }
    }
}

/// The views of a sequence of groups.
pub open spec fn group_views(gs: Seq<LicenseGroup>) -> Seq<LicenseGroupView> {
    gs.map_values(|g: LicenseGroup| g@)
}

/// The views of a sequence of pairs.
pub open spec fn pair_views(ps: Seq<PackageLicense>) -> Seq<PackageLicenseView> {
    ps.map_values(|p: PackageLicense| p@)
}

/// The index of the group keyed by `l`, or -1 when there is none.
pub open spec fn find_group(gs: Seq<LicenseGroupView>, l: LicenseView) -> int
    decreases gs.len(),
{
    if gs.len() == 0 {
        -1
    } else if gs[0].license == l {
        0
    } else {
        let r = find_group(gs.drop_first(), l);
        if r == -1 {
            -1
        } else {
            1 + r
        }
    }
}

/// The scan that stops at the first group keyed by `l` computes
/// `find_group`.
proof fn lemma_find_group_is(gs: Seq<LicenseGroupView>, l: LicenseView, j: int)
    requires
        0 <= j <= gs.len(),
        forall|i: int| 0 <= i < j ==> (#[trigger] gs[i]).license != l,
        j < gs.len() ==> gs[j].license == l,
    ensures
        find_group(gs, l) == if j == gs.len() {
            -1int
        } else {
            j
        },
    decreases gs.len(),
{
    if gs.len() > 0 && gs[0].license != l {
        let tail = gs.drop_first();
        assert(forall|k: int| 0 <= k < tail.len() ==> #[trigger] tail[k] == gs[k + 1]);
        lemma_find_group_is(tail, l, j - 1);
    }
}

/// One pair folded into the groups: appended to its license's group, or a
/// fresh group at the end.
pub open spec fn add_package(
    gs: Seq<LicenseGroupView>,
    l: LicenseView,
    p: PackageIdView,
) -> Seq<LicenseGroupView> {
    let i = find_group(gs, l);
    if i == -1 {
        gs.push(LicenseGroupView { license: l, packages: seq![p] })
    } else {
        gs.update(i, LicenseGroupView { license: l, packages: gs[i].packages.push(p) })
    }
}

/// The grouped report for a sequence of pairs, folded left to right.
pub open spec fn spec_group_by(pairs: Seq<PackageLicenseView>) -> Seq<LicenseGroupView>
    decreases pairs.len(),
{
    if pairs.len() == 0 {
        Seq::empty()
    } else {
        add_package(spec_group_by(pairs.drop_last()), pairs.last().license, pairs.last().id)
    }
}

/// The packages that belong with license `l`: of the input pairs carrying
/// exactly that license, the identities, in input order.
pub open spec fn group_packages(pairs: Seq<PackageLicenseView>, l: LicenseView) -> Seq<
    PackageIdView,
>
    decreases pairs.len(),
{
    if pairs.len() == 0 {
        Seq::empty()
    } else {
        let front = group_packages(pairs.drop_last(), l);
        if pairs.last().license == l {
            front.push(pairs.last().id)
        } else {
            front
        }
    }
}

/// Where `find_group` lands: off the end exactly when no group is keyed by
/// `l`, else on a group keyed by it.
proof fn lemma_find_group_props(gs: Seq<LicenseGroupView>, l: LicenseView)
    ensures
        find_group(gs, l) == -1 ==> forall|j: int|
            0 <= j < gs.len() ==> (#[trigger] gs[j]).license != l,
        find_group(gs, l) != -1 ==> 0 <= find_group(gs, l) < gs.len() && gs[find_group(
            gs,
            l,
        )].license == l,
    decreases gs.len(),
{
    if gs.len() > 0 && gs[0].license != l {
        let tail = gs.drop_first();
        lemma_find_group_props(tail, l);
        assert(forall|k: int| 0 <= k < tail.len() ==> #[trigger] tail[k] == gs[k + 1]);
        if find_group(gs, l) == -1 {
            assert forall|j: int| 0 <= j < gs.len() implies (#[trigger] gs[j]).license
                != l by {
                if j > 0 {
                    assert(tail[j - 1] == gs[j]);
                }
            }
        }
    }
}

/// One more pair extends its license's packages and leaves every other
/// license's packages alone.
proof fn lemma_group_packages_step(pairs: Seq<PackageLicenseView>, l: LicenseView)
    requires
        pairs.len() > 0,
    ensures
        pairs.last().license == l ==> group_packages(pairs, l) == group_packages(
            pairs.drop_last(),
            l,
        ).push(pairs.last().id),
        pairs.last().license != l ==> group_packages(pairs, l) == group_packages(
            pairs.drop_last(),
            l,
        ),
{
}

/// The grouping law: the groups carry distinct licenses; each group holds
/// exactly the input's packages with its license, in input order; and a
/// license without a group has no package in the input.
pub proof fn lemma_group_by_exact(pairs: Seq<PackageLicenseView>)
    ensures
        forall|i: int, j: int|
            0 <= i < j < spec_group_by(pairs).len() ==> (#[trigger] spec_group_by(
                pairs,
            )[i]).license != (#[trigger] spec_group_by(pairs)[j]).license,
        forall|i: int|
            0 <= i < spec_group_by(pairs).len() ==> (#[trigger] spec_group_by(
                pairs,
            )[i]).packages == group_packages(pairs, spec_group_by(pairs)[i].license),
        forall|l: LicenseView| #[trigger]
            find_group(spec_group_by(pairs), l) == -1 ==> group_packages(pairs, l).len()
                == 0,
    decreases pairs.len(),
{
    if pairs.len() > 0 {
        let front = pairs.drop_last();
        let p = pairs.last();
        lemma_group_by_exact(front);
        let prev = spec_group_by(front);
        let gs = spec_group_by(pairs);
        lemma_find_group_props(prev, p.license);
        lemma_group_packages_step(pairs, p.license);
        let fi = find_group(prev, p.license);
        if fi == -1 {
            let fresh = LicenseGroupView { license: p.license, packages: seq![p.id] };
            assert(gs == prev.push(fresh));
            assert(group_packages(front, p.license).len() == 0);
            assert(group_packages(pairs, p.license) =~= seq![p.id]);
            assert forall|i: int| 0 <= i < gs.len() implies (#[trigger] gs[i]).packages
                == group_packages(pairs, gs[i].license) by {
                if i < prev.len() {
                    assert(gs[i] == prev[i]);
                    assert(prev[i].license != p.license);
                    lemma_group_packages_step(pairs, prev[i].license);
                } else {
                    assert(gs[i] == fresh);
                }
            }
            assert forall|l: LicenseView| #[trigger]
                find_group(gs, l) == -1 implies group_packages(pairs, l).len() == 0 by {
                lemma_find_group_props(gs, l);
                assert(gs[prev.len() as int].license == p.license);
                assert(l != p.license);
                if find_group(prev, l) != -1 {
                    lemma_find_group_props(prev, l);
                    assert(gs[find_group(prev, l)] == prev[find_group(prev, l)]);
                }
                lemma_group_packages_step(pairs, l);
            }
        } else {
            let grown = LicenseGroupView {
                license: p.license,
                packages: prev[fi].packages.push(p.id),
            };
            assert(gs == prev.update(fi, grown));
            assert(forall|i: int|
                0 <= i < gs.len() ==> (#[trigger] gs[i]).license == prev[i].license);
            assert forall|i: int| 0 <= i < gs.len() implies (#[trigger] gs[i]).packages
                == group_packages(pairs, gs[i].license) by {
                if i != fi {
                    assert(gs[i] == prev[i]);
                    assert(prev[i].license != p.license);
                    lemma_group_packages_step(pairs, prev[i].license);
                } else {
                    assert(gs[i] == grown);
                }
            }
            assert forall|l: LicenseView| #[trigger]
                find_group(gs, l) == -1 implies group_packages(pairs, l).len() == 0 by {
                lemma_find_group_props(gs, l);
                assert(gs[fi].license == p.license);
                assert(l != p.license);
                if find_group(prev, l) != -1 {
                    lemma_find_group_props(prev, l);
                    assert(gs[find_group(prev, l)].license == prev[find_group(
                        prev,
                        l,
                    )].license);
                }
                lemma_group_packages_step(pairs, l);
            }
        }
    }
}

/// The first group in `groups` keyed by `l`, or the length when none is.
fn find_group_exec(groups: &Vec<LicenseGroup>, l: &License) -> (j: usize)
    ensures
        j <= groups@.len(),
        find_group(group_views(groups@), l@) == if j == groups@.len() {
            -1int
        } else {
            j as int
        },
        j < groups@.len() ==> group_views(groups@)[j as int].license == l@,
{
    let n = groups.len();
    let mut j: usize = 0;
    while j < n
        invariant
            j <= n,
            n == groups@.len(),
            forall|i: int| 0 <= i < j ==> (#[trigger] group_views(groups@)[i]).license != l@,
        decreases n - j,
    {
        if lic_eq(&groups[j].license, l) {
            proof {
                lemma_find_group_is(group_views(groups@), l@, j as int);
            }
            return j;
        }
        j = j + 1;
    }
    proof {
        lemma_find_group_is(group_views(groups@), l@, n as int);
    }
    n
}

/// Groups the pairs by license: each package is appended to the group of
/// its license, keeping input order within a group; groups appear in order
/// of first occurrence of their license.
#[verifier::loop_isolation(false)]
pub fn packages_by_license(packages: Vec<PackageLicense>) -> (r: Vec<LicenseGroup>)
    ensures
        group_views(r@) == spec_group_by(pair_views(packages@)),
{
    let ghost orig = pair_views(packages@);
    let mut rest = packages;
    let mut groups: Vec<LicenseGroup> = Vec::new();
    proof {
        assert(group_views(groups@) =~= spec_group_by(orig.subrange(0, 0)));
    }
    while rest.len() > 0
        invariant
            rest@.len() <= orig.len(),
            pair_views(rest@) =~= orig.subrange(orig.len() - rest@.len(), orig.len() as int),
            group_views(groups@) == spec_group_by(
                orig.subrange(0, orig.len() - rest@.len()),
            ),
        decreases rest@.len(),
    {
        let ghost k = orig.len() - rest@.len();
        let ghost prev = rest@;
        let pl = rest.remove(0);
        proof {
            assert(pair_views(prev)[0] == prev[0]@);
            assert(pl@ == orig[k]);
            assert forall|i: int| 0 <= i < rest@.len() implies pair_views(rest@)[i]
                == orig.subrange(k + 1, orig.len() as int)[i] by {
                assert(rest@[i] == prev[i + 1]);
                assert(pair_views(prev)[i + 1] == prev[i + 1]@);
                assert(pair_views(rest@)[i] == rest@[i]@);
            }
            assert(pair_views(rest@) =~= orig.subrange(k + 1, orig.len() as int));
        }
        let ghost before = group_views(groups@);
        let ghost prevg = groups@;
        let PackageLicense { id, license } = pl;
        let j = find_group_exec(&groups, &license);
        if j < groups.len() {
            let mut g = groups.remove(j);
            proof {
                assert(g == prevg[j as int]);
            }
            g.packages.push(id);
            groups.insert(j, g);
            proof {
                let target = before.update(
                    j as int,
                    LicenseGroupView {
                        license: license@,
                        packages: before[j as int].packages.push(id@),
                    },
                );
                assert(groups@ =~= prevg.update(j as int, g));
                assert(g.packages@ == prevg[j as int].packages@.push(id));
                assert forall|m: int| 0 <= m < g@.packages.len() implies g@.packages[m]
                    == target[j as int].packages[m] by {
                    assert(g@.packages[m] == g.packages@[m]@);
                    assert(before[j as int].packages == prevg[j as int]@.packages);
                    if m < prevg[j as int].packages@.len() {
                        assert(before[j as int].packages[m]
                            == prevg[j as int].packages@[m]@);
                    }
                }
                assert(g@.packages =~= target[j as int].packages);
                assert(g@.license == prevg[j as int]@.license);
                assert(before[j as int].license == license@);
                assert(g@ == target[j as int]);
                assert forall|i: int| 0 <= i < target.len() implies group_views(groups@)[i]
                    == target[i] by {
                    assert(group_views(groups@)[i] == groups@[i]@);
                    if i != j {
                        assert(groups@[i] == prevg[i]);
                        assert(before[i] == prevg[i]@);
                    }
                }
                assert(group_views(groups@) =~= target);
            }
        } else {
            let mut pkgs: Vec<PackageId> = Vec::new();
            pkgs.push(id);
            let g = LicenseGroup { license, packages: pkgs };
            groups.push(g);
            proof {
                let target = before.push(
                    LicenseGroupView { license: license@, packages: seq![id@] },
                );
                assert(groups@ == prevg.push(g));
                assert(g@.packages =~= seq![id@]);
                assert(g@ == target[before.len() as int]);
                assert forall|i: int| 0 <= i < target.len() implies group_views(groups@)[i]
                    == target[i] by {
                    assert(group_views(groups@)[i] == groups@[i]@);
                    if i < before.len() {
                        assert(groups@[i] == prevg[i]);
                        assert(before[i] == prevg[i]@);
                    }
                }
                assert(group_views(groups@) =~= target);
            }
        }
        proof {
            let s1 = orig.subrange(0, k + 1);
            assert(s1.drop_last() =~= orig.subrange(0, k));
            assert(s1.last() == orig[k]);
            assert(group_views(groups@) == add_package(before, license@, id@));
        }
    }
    proof {
        assert(orig.subrange(0, orig.len() as int) =~= orig);
    }
    groups
}

} // verus!
