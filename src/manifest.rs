use vstd::prelude::*;

use crate::error::{GlamError, GlamErrorView};

verus! {

/// One directory mapping: `source_folder` lies inside the vendored checkout,
/// `target_folder` inside the host project.
#[derive(Clone, Debug)]
pub struct Link {
    pub source_folder: String,
    pub target_folder: String,
}

pub struct LinkView {
    pub source: Seq<char>,
    pub target: Seq<char>,
}

impl View for Link {
    type V = LinkView;

    open spec fn view(&self) -> LinkView {
        LinkView { source: self.source_folder@, target: self.target_folder@ }
    }
}

/// One managed external repository and its links.
#[derive(Clone, Debug)]
pub struct Package {
    pub name: String,
    pub git_repo: String,
    pub commit: String,
    pub links: Vec<Link>,
}

pub struct PackageView {
    pub name: Seq<char>,
    pub repository: Seq<char>,
    pub commit: Seq<char>,
    pub links: Seq<LinkView>,
}

pub open spec fn links_view(links: Seq<Link>) -> Seq<LinkView> {
    links.map_values(|l: Link| l@)
}

impl View for Package {
    type V = PackageView;

    open spec fn view(&self) -> PackageView {
        PackageView {
            name: self.name@,
            repository: self.git_repo@,
            commit: self.commit@,
            links: links_view(self.links@),
        }
    }
}

pub open spec fn packages_view(ps: Seq<Package>) -> Seq<PackageView> {
    ps.map_values(|p: Package| p@)
}

/// The persisted list of packages, in insertion order.
#[derive(Clone, Debug)]
pub struct Manifest {
    pub packages: Vec<Package>,
}

impl View for Manifest {
    type V = Seq<PackageView>;

    open spec fn view(&self) -> Seq<PackageView> {
        packages_view(self.packages@)
    }
}

/// `r` is the last index of `ps` whose package satisfies `pred`, or `None`
/// when no package does.
pub open spec fn is_last_match(
    ps: Seq<PackageView>,
    pred: spec_fn(PackageView) -> bool,
    r: Option<usize>,
) -> bool {
    match r {
        Some(i) => i < ps.len() && pred(ps[i as int]) && forall|j: int|
            i < j < ps.len() ==> !#[trigger] pred(ps[j]),
        None => forall|j: int| 0 <= j < ps.len() ==> !#[trigger] pred(ps[j]),
    }
}

pub open spec fn has_link_target(p: PackageView, folder: Seq<char>) -> bool {
    exists|k: int| 0 <= k < p.links.len() && #[trigger] p.links[k].target == folder
}

/// A package that may not stand beside `p`: same name, or same non-empty
/// source repository.
pub open spec fn conflicts(q: PackageView, p: PackageView) -> bool {
    q.name == p.name || (p.repository.len() > 0 && q.repository == p.repository)
}

pub open spec fn has_conflict(ps: Seq<PackageView>, p: PackageView) -> bool {
    exists|j: int| 0 <= j < ps.len() && conflicts(#[trigger] ps[j], p)
}

/// No two packages of the list conflict.
pub open spec fn unique_packages(ps: Seq<PackageView>) -> bool {
    forall|i: int, j: int|
        0 <= i < ps.len() && 0 <= j < ps.len() && i != j ==> !conflicts(
            #[trigger] ps[i],
            #[trigger] ps[j],
        )
}

/// Every package has a name, and no two packages conflict.
pub open spec fn valid_packages(ps: Seq<PackageView>) -> bool {
    &&& forall|i: int| 0 <= i < ps.len() ==> #[trigger] ps[i].name.len() > 0
    &&& unique_packages(ps)
}

pub fn copy_string(s: &String) -> (r: String)
    ensures
        r@ == s@,
{
    s.clone()
}

impl Link {
    pub fn duplicate(&self) -> (r: Link)
        ensures
            r@ == self@,
    {
        Link { source_folder: copy_string(&self.source_folder), target_folder: copy_string(&self.target_folder) }
    }
}

pub fn copy_links(links: &Vec<Link>) -> (r: Vec<Link>)
    ensures
        links_view(r@) == links_view(links@),
{
    let mut r: Vec<Link> = Vec::new();
    let mut i: usize = 0;
    while i < links.len()
        invariant
            i <= links.len(),
            r@.len() == i,
            forall|k: int| 0 <= k < i ==> #[trigger] r@[k]@ == links@[k]@,
        decreases links.len() - i,
    {
        r.push(links[i].duplicate());
        i = i + 1;
    }
    assert(links_view(r@) =~= links_view(links@));
    r
}

impl Package {
    /// A package that has not been installed yet: no links, and `commit` as
    /// requested.
    pub fn new(name: &str, git_repo: &str, commit: &str) -> (r: Package)
        ensures
            r@ == (PackageView {
                name: name@,
                repository: git_repo@,
                commit: commit@,
                links: Seq::empty(),
            }),
    {
        let r = Package {
            name: String::from_str(name),
            git_repo: String::from_str(git_repo),
            commit: String::from_str(commit),
            links: Vec::new(),
        };
        assert(links_view(r.links@) == Seq::<LinkView>::empty());
        r
    }

    pub fn duplicate(&self) -> (r: Package)
        ensures
            r@ == self@,
    {
        Package {
            name: copy_string(&self.name),
            git_repo: copy_string(&self.git_repo),
            commit: copy_string(&self.commit),
            links: copy_links(&self.links),
        }
    }
}

/// Index of the last package named `name`.
pub fn find_package_by_name(packages: &Vec<Package>, name: &str) -> (r: Option<usize>)
    ensures
        is_last_match(packages_view(packages@), |p: PackageView| p.name == name@, r),
{
    let ghost pred = |p: PackageView| p.name == name@;
    let ghost ps = packages_view(packages@);
    let key = String::from_str(name);
    let mut found: Option<usize> = None;
    let mut i: usize = 0;
    while i < packages.len()
        invariant
            i <= packages.len(),
            ps == packages_view(packages@),
            key@ == name@,
            pred == (|p: PackageView| p.name == name@),
            is_last_match(ps.subrange(0, i as int), pred, found),
        decreases packages.len() - i,
    {
        if packages[i].name == key {
            found = Some(i);
        }
        i = i + 1;
    }
    assert(ps.subrange(0, i as int) == ps);
    found
}

/// Index of the last package whose source repository is `repo`.
pub fn find_package_by_repository(packages: &Vec<Package>, repo: &str) -> (r: Option<usize>)
    ensures
        is_last_match(packages_view(packages@), |p: PackageView| p.repository == repo@, r),
{
    let ghost pred = |p: PackageView| p.repository == repo@;
    let ghost ps = packages_view(packages@);
    let key = String::from_str(repo);
    let mut found: Option<usize> = None;
    let mut i: usize = 0;
    while i < packages.len()
        invariant
            i <= packages.len(),
            ps == packages_view(packages@),
            key@ == repo@,
            pred == (|p: PackageView| p.repository == repo@),
            is_last_match(ps.subrange(0, i as int), pred, found),
        decreases packages.len() - i,
    {
        if packages[i].git_repo == key {
            found = Some(i);
        }
        i = i + 1;
    }
    assert(ps.subrange(0, i as int) == ps);
    found
}

/// Whether one of `links` has `folder` as its target.
pub fn links_target(links: &Vec<Link>, folder: &String) -> (r: bool)
    ensures
        r == exists|k: int| 0 <= k < links@.len() && #[trigger] links@[k]@.target == folder@,
{
    let mut i: usize = 0;
    while i < links.len()
        invariant
            i <= links.len(),
            forall|k: int| 0 <= k < i ==> #[trigger] links@[k]@.target != folder@,
        decreases links.len() - i,
    {
        if links[i].target_folder == *folder {
            assert(links@[i as int]@.target == folder@);
            return true;
        }
        i = i + 1;
    }
    false
}

/// Index of the last package that links the project folder `addons_folder`.
pub fn find_package_by_link(packages: &Vec<Package>, addons_folder: &str) -> (r: Option<usize>)
    ensures
        is_last_match(
            packages_view(packages@),
            |p: PackageView| has_link_target(p, addons_folder@),
            r,
        ),
{
    let ghost pred = |p: PackageView| has_link_target(p, addons_folder@);
    let ghost ps = packages_view(packages@);
    let key = String::from_str(addons_folder);
    let mut found: Option<usize> = None;
    let mut i: usize = 0;
    while i < packages.len()
        invariant
            i <= packages.len(),
            ps == packages_view(packages@),
            key@ == addons_folder@,
            pred == (|p: PackageView| has_link_target(p, addons_folder@)),
            is_last_match(ps.subrange(0, i as int), pred, found),
        decreases packages.len() - i,
    {
        let hit = links_target(&packages[i].links, &key);
        proof {
            let p = packages@[i as int];
            if hit {
                let k = choose|k: int| 0 <= k < p.links@.len() && #[trigger] p.links@[k]@.target == key@;
                assert(p@.links[k] == p.links@[k]@);
            } else {
                assert forall|k: int| 0 <= k < p@.links.len() implies #[trigger] p@.links[k].target != addons_folder@ by {
                    assert(p@.links[k] == p.links@[k]@);
                }
            }
        }
        if hit {
            found = Some(i);
        }
        i = i + 1;
    }
    assert(ps.subrange(0, i as int) == ps);
    found
}

/// Whether some package of `packages` conflicts with `package`.
pub fn has_conflicting(packages: &Vec<Package>, package: &Package) -> (r: bool)
    ensures
        r == has_conflict(packages_view(packages@), package@),
{
    let ghost ps = packages_view(packages@);
    let mut i: usize = 0;
    while i < packages.len()
        invariant
            i <= packages.len(),
            ps == packages_view(packages@),
            forall|j: int| 0 <= j < i ==> !conflicts(#[trigger] ps[j], package@),
        decreases packages.len() - i,
    {
        let q = &packages[i];
        if q.name == package.name {
            assert(conflicts(ps[i as int], package@));
            return true;
        }
        if !package.git_repo.as_str().is_empty() && q.git_repo == package.git_repo {
            assert(conflicts(ps[i as int], package@));
            return true;
        }
        i = i + 1;
    }
    false
}

impl Manifest {
    /// A manifest with no packages.
    pub fn new() -> (r: Manifest)
        ensures
            r@ == Seq::<PackageView>::empty(),
    {
        let r = Manifest { packages: Vec::new() };
        assert(r@ =~= Seq::<PackageView>::empty());
        r
    }

    /// Appends `package`, unless a package with its name or its (non-empty)
    /// source repository is already present (`DuplicatePackage`) or its name
    /// is empty (`InvalidName`); on an error the manifest is left as it was.
    pub fn add_package(&mut self, package: Package) -> (r: Result<usize, GlamError>)
        ensures
            has_conflict(old(self)@, package@) ==> r is Err && r->Err_0@ == GlamErrorView::DuplicatePackage
                && final(self)@ == old(self)@,
            !has_conflict(old(self)@, package@) && package@.name.len() == 0 ==> r is Err
                && r->Err_0@ == GlamErrorView::InvalidName && final(self)@ == old(self)@,
            !has_conflict(old(self)@, package@) && package@.name.len() > 0 ==> r == Ok::<usize, GlamError>(
                old(self)@.len() as usize,
            ) && final(self)@ == old(self)@.push(package@),
            valid_packages(old(self)@) ==> valid_packages(final(self)@),
    {
        if has_conflicting(&self.packages, &package) {
            return Err(GlamError::DuplicatePackage);
        }
        if package.name.as_str().is_empty() {
            return Err(GlamError::InvalidName);
        }
        let i = self.packages.len();
        let ghost before = self@;
        self.packages.push(package);
        assert(self@ =~= before.push(package@));
        proof {
            if valid_packages(before) {
                assert forall|a: int, b: int|
                    0 <= a < self@.len() && 0 <= b < self@.len() && a != b implies !conflicts(
                    #[trigger] self@[a],
                    #[trigger] self@[b],
                ) by {
                    if b == before.len() {
                        assert(!conflicts(before[a], package@));
                    } else if a == before.len() {
                        assert(!conflicts(before[b], package@));
                    }
                }
            }
        }
        Ok(i)
    }

    /// Takes the package at `index` out of the manifest. Its checkout is
    /// left on disk: nothing in the manifest refers to it by path.
    pub fn remove_package(&mut self, index: usize) -> (r: Package)
        requires
            index < old(self)@.len(),
        ensures
            r@ == old(self)@[index as int],
            final(self)@ == old(self)@.remove(index as int),
            valid_packages(old(self)@) ==> valid_packages(final(self)@),
    {
        let ghost before = self.packages@;
        let r = self.packages.remove(index);
        assert(self@ =~= old(self)@.remove(index as int));
        proof {
            let ps = old(self)@;
            let qs = self@;
            if valid_packages(ps) {
                assert forall|i: int| 0 <= i < qs.len() implies #[trigger] qs[i].name.len() > 0 by {
                    if i < index {
                        assert(qs[i] == ps[i]);
                    } else {
                        assert(qs[i] == ps[i + 1]);
                    }
                }
                assert forall|a: int, b: int|
                    0 <= a < qs.len() && 0 <= b < qs.len() && a != b implies !conflicts(
                    #[trigger] qs[a],
                    #[trigger] qs[b],
                ) by {
                    let a2 = if a < index { a } else { a + 1 };
                    let b2 = if b < index { b } else { b + 1 };
                    assert(qs[a] == ps[a2] && qs[b] == ps[b2]);
                }
            }
        }
        r
    }
}

} // verus!
