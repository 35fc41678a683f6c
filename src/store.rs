use vstd::prelude::*;

use crate::error::{GlamError, GlamErrorView};
use crate::manifest::{
    conflicts, copy_links, copy_string, has_conflict, links_view, valid_packages, Link, LinkView,
    Manifest, Package, PackageView,
};

verus! {

/// A package as the manifest file holds it. Files written by earlier versions
/// of the tool may lack `commit` and `links`, and may give a single
/// `source_folder` / `target_folder` pair in place of `links`.
#[derive(Clone, Debug)]
pub struct PackageRecord {
    pub name: String,
    pub git_repo: String,
    pub commit: Option<String>,
    pub links: Option<Vec<Link>>,
    pub source_folder: Option<String>,
    pub target_folder: Option<String>,
}

pub struct PackageRecordView {
    pub name: Seq<char>,
    pub repository: Seq<char>,
    pub commit: Option<Seq<char>>,
    pub links: Option<Seq<LinkView>>,
    pub source: Option<Seq<char>>,
    pub target: Option<Seq<char>>,
}

pub open spec fn opt_string_view(o: Option<String>) -> Option<Seq<char>> {
    match o {
        Some(s) => Some(s@),
        None => None,
    }
}

impl View for PackageRecord {
    type V = PackageRecordView;

    open spec fn view(&self) -> PackageRecordView {
        PackageRecordView {
            name: self.name@,
            repository: self.git_repo@,
            commit: opt_string_view(self.commit),
            links: match self.links {
                Some(ls) => Some(links_view(ls@)),
                None => None,
            },
            source: opt_string_view(self.source_folder),
            target: opt_string_view(self.target_folder),
        }
    }
}

/// The whole manifest file.
#[derive(Clone, Debug)]
pub struct ManifestRecord {
    pub packages: Vec<PackageRecord>,
}

pub open spec fn records_view(rs: Seq<PackageRecord>) -> Seq<PackageRecordView> {
    rs.map_values(|r: PackageRecord| r@)
}

/// The package that a record describes, in the current shape: a missing
/// commit reads as empty, and a lone folder pair becomes one link. A record
/// with half a folder pair and no links describes none.
pub open spec fn package_of_record(r: PackageRecordView) -> Option<PackageView> {
    let commit = match r.commit {
        Some(c) => c,
        None => Seq::empty(),
    };
    let links = match r.links {
        Some(ls) => Some(ls),
        None => match (r.source, r.target) {
            (Some(s), Some(t)) => Some(seq![LinkView { source: s, target: t }]),
            (None, None) => Some(Seq::empty()),
            _ => None,
        },
    };
    match links {
        Some(ls) => Some(PackageView { name: r.name, repository: r.repository, commit, links: ls }),
        None => None,
    }
}

/// How a package is written: every field in the current shape.
pub open spec fn record_of_package(p: PackageView) -> PackageRecordView {
    PackageRecordView {
        name: p.name,
        repository: p.repository,
        commit: Some(p.commit),
        links: Some(p.links),
        source: None,
        target: None,
    }
}

fn copy_opt_string(o: &Option<String>) -> (r: Option<String>)
    ensures
        opt_string_view(r) == opt_string_view(*o),
{
    match o {
        Some(s) => Some(copy_string(s)),
        None => None,
    }
}

impl Package {
    /// Reads a package record, accepting the earlier shapes.
    pub fn from_record(record: &PackageRecord) -> (r: Result<Package, GlamError>)
        ensures
            package_of_record(record@) is None ==> r is Err && r->Err_0@ == GlamErrorView::ManifestCorrupt,
            package_of_record(record@) matches Some(p) ==> r is Ok && r->Ok_0@ == p,
    {
        let commit = match &record.commit {
            Some(c) => copy_string(c),
            None => String::new(),
        };
        let links = match &record.links {
            Some(ls) => copy_links(ls),
            None => match (&record.source_folder, &record.target_folder) {
                (Some(s), Some(t)) => {
                    let mut v: Vec<Link> = Vec::new();
                    v.push(Link { source_folder: copy_string(s), target_folder: copy_string(t) });
                    assert(links_view(v@) =~= seq![LinkView { source: s@, target: t@ }]);
                    v
                },
                (None, None) => {
                    let v: Vec<Link> = Vec::new();
                    assert(links_view(v@) =~= Seq::<LinkView>::empty());
                    v
                },
                _ => {
                    return Err(GlamError::ManifestCorrupt);
                },
            },
        };
        Ok(Package { name: copy_string(&record.name), git_repo: copy_string(&record.git_repo), commit, links })
    }

    /// The record that the manifest file holds for this package.
    pub fn to_record(&self) -> (r: PackageRecord)
        ensures
            r@ == record_of_package(self@),
    {
        PackageRecord {
            name: copy_string(&self.name),
            git_repo: copy_string(&self.git_repo),
            commit: Some(copy_string(&self.commit)),
            links: Some(copy_links(&self.links)),
            source_folder: None,
            target_folder: None,
        }
    }
}

/// The manifest after adding `p` to the packages `ps`, as
/// `Manifest::add_package` decides it.
pub open spec fn added(ps: Seq<PackageView>, p: PackageView) -> Result<Seq<PackageView>, GlamErrorView> {
    if has_conflict(ps, p) {
        Err(GlamErrorView::DuplicatePackage)
    } else if p.name.len() == 0 {
        Err(GlamErrorView::InvalidName)
    } else {
        Ok(ps.push(p))
    }
}

/// The manifest that a file's records describe: each record is read and
/// added in order, and the first record that fails decides the error.
pub open spec fn manifest_of_records(rs: Seq<PackageRecordView>) -> Result<Seq<PackageView>, GlamErrorView>
    decreases rs.len(),
{
    if rs.len() == 0 {
        Ok(Seq::empty())
    } else {
        match manifest_of_records(rs.drop_last()) {
            Err(e) => Err(e),
            Ok(ps) => match package_of_record(rs.last()) {
                None => Err(GlamErrorView::ManifestCorrupt),
                Some(p) => added(ps, p),
            },
        }
    }
}

pub open spec fn records_of_manifest(ps: Seq<PackageView>) -> Seq<PackageRecordView> {
    ps.map_values(|p: PackageView| record_of_package(p))
}

impl Manifest {
    /// Reads the records of a manifest file. The result holds only named,
    /// non-conflicting packages.
    pub fn from_record(record: &ManifestRecord) -> (r: Result<Manifest, GlamError>)
        ensures
            match manifest_of_records(records_view(record.packages@)) {
                Ok(ps) => r is Ok && r->Ok_0@ == ps,
                Err(e) => r is Err && r->Err_0@ == e,
            },
            r matches Ok(m) ==> valid_packages(m@),
    {
        let mut m = Manifest::new();
        let mut i: usize = 0;
        while i < record.packages.len()
            invariant
                i <= record.packages@.len(),
                manifest_of_records(records_view(record.packages@.subrange(0, i as int))) == Ok::<
                    Seq<PackageView>,
                    GlamErrorView,
                >(m@),
                valid_packages(m@),
            decreases record.packages@.len() - i,
        {
            let ghost done = records_view(record.packages@.subrange(0, i + 1));
            assert(records_view(record.packages@).subrange(0, i + 1) =~= done);
            assert(done.drop_last() =~= records_view(record.packages@.subrange(0, i as int)));
            assert(done.last() == record.packages@[i as int]@);
            let package = match Package::from_record(&record.packages[i]) {
                Ok(package) => package,
                Err(e) => {
                    proof {
                        let rs = records_view(record.packages@);
                        assert(rs.subrange(0, i + 1) =~= done);
                        assert(manifest_of_records(done) == Err::<Seq<PackageView>, GlamErrorView>(e@));
                        lemma_error_persists(rs, i + 1, rs.len() as int);
                        assert(rs.subrange(0, rs.len() as int) =~= rs);
                    }
                    return Err(e);
                },
            };
            match m.add_package(package) {
                Ok(_) => {},
                Err(e) => {
                    proof {
                        let rs = records_view(record.packages@);
                        assert(rs.subrange(0, i + 1) =~= done);
                        assert(manifest_of_records(done) == Err::<Seq<PackageView>, GlamErrorView>(e@));
                        lemma_error_persists(rs, i + 1, rs.len() as int);
                        assert(rs.subrange(0, rs.len() as int) =~= rs);
                    }
                    return Err(e);
                },
            }
            i = i + 1;
        }
        assert(record.packages@.subrange(0, i as int) =~= record.packages@);
        Ok(m)
    }

    /// The records written to the manifest file.
    pub fn to_record(&self) -> (r: ManifestRecord)
        ensures
            records_view(r.packages@) == records_of_manifest(self@),
    {
        let mut v: Vec<PackageRecord> = Vec::new();
        let mut i: usize = 0;
        while i < self.packages.len()
            invariant
                i <= self.packages@.len(),
                v@.len() == i,
                forall|k: int| 0 <= k < i ==> #[trigger] v@[k]@ == record_of_package(self@[k]),
            decreases self.packages@.len() - i,
        {
            v.push(self.packages[i].to_record());
            i = i + 1;
        }
        assert(records_view(v@) =~= records_of_manifest(self@));
        ManifestRecord { packages: v }
    }
}

/// Once a prefix of the records fails, every longer prefix fails the same way.
proof fn lemma_error_persists(rs: Seq<PackageRecordView>, i: int, j: int)
    requires
        0 <= i <= j <= rs.len(),
        manifest_of_records(rs.subrange(0, i)) is Err,
    ensures
        manifest_of_records(rs.subrange(0, j)) == manifest_of_records(rs.subrange(0, i)),
    decreases j - i,
{
    if j > i {
        lemma_error_persists(rs, i, j - 1);
        assert(rs.subrange(0, j).drop_last() =~= rs.subrange(0, j - 1));
    }
}

/// Writing a manifest and reading it back gives the same packages, with the
/// same links and the same pins, in the same order.
pub proof fn lemma_record_round_trip(ps: Seq<PackageView>)
    requires
        valid_packages(ps),
    ensures
        manifest_of_records(records_of_manifest(ps)) == Ok::<Seq<PackageView>, GlamErrorView>(ps),
    decreases ps.len(),
{
    if ps.len() > 0 {
        let init = ps.drop_last();
        assert(records_of_manifest(ps).drop_last() =~= records_of_manifest(init));
        assert(valid_packages(init)) by {
            assert forall|i: int| 0 <= i < init.len() implies #[trigger] init[i].name.len() > 0 by {
                assert(init[i] == ps[i]);
            }
            assert forall|a: int, b: int|
                0 <= a < init.len() && 0 <= b < init.len() && a != b implies !conflicts(
                #[trigger] init[a],
                #[trigger] init[b],
            ) by {
                assert(init[a] == ps[a] && init[b] == ps[b]);
            }
        }
        lemma_record_round_trip(init);
        let p = ps.last();
        assert(package_of_record(record_of_package(p)) == Some(p));
        assert(records_of_manifest(ps).last() == record_of_package(p));
        assert(!has_conflict(init, p)) by {
            assert forall|j: int| 0 <= j < init.len() implies !conflicts(#[trigger] init[j], p) by {
                assert(init[j] == ps[j]);
                assert(!conflicts(ps[j], ps[ps.len() - 1]));
            }
        }
        assert(init.push(p) =~= ps);
        let rs = records_of_manifest(ps);
        assert(rs.len() > 0);
        assert(manifest_of_records(rs.drop_last()) == Ok::<Seq<PackageView>, GlamErrorView>(init));
        assert(package_of_record(rs.last()) == Some(p));
        assert(added(init, p) == Ok::<Seq<PackageView>, GlamErrorView>(ps));
        assert(manifest_of_records(rs) == added(init, p));
    } else {
        assert(records_of_manifest(ps) =~= Seq::<PackageRecordView>::empty());
        assert(ps =~= Seq::<PackageView>::empty());
    }
}

} // verus!
