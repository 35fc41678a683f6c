use vstd::prelude::*;

use crate::content::{
    create_gdignore_file, create_gitignore_file, create_glam_file, empty_manifest_text,
    gdignore_text, gitignore_text,
};
use crate::error::{GlamError, GlamErrorView};
use crate::links::{addon_link, addon_path, make_addon_link, make_addon_path};
use crate::manifest::{
    find_package_by_link, find_package_by_name, find_package_by_repository, has_conflict, has_link_target, is_last_match,
    Manifest, Package, PackageView,
};
use crate::session::{fresh_session, Action, ActionView, InstallSession};
use crate::step::{steps_view, Step, StepView};
use crate::sync::{apply_package_files, apply_plan};
use crate::vendor::{checkout_dir, checkout_path, make_checkout_dir, make_checkout_path};

verus! {

/// Something that an initialized project lacks.
#[derive(Debug, PartialEq, Eq, Structural)]
pub enum Missing {
    /// No `.gitignore`: worth a warning, not fatal.
    GitIgnore,
    /// No manifest file.
    GlamFile,
    /// No vendoring directory.
    GlamDir,
}

pub struct InitStatus {
    /// The project can be worked on.
    pub ready: bool,
    /// What is missing, in the order above.
    pub missing: Vec<Missing>,
}

pub open spec fn missing_of(gitignore: bool, glam_file: bool, glam_dir: bool) -> Seq<Missing> {
    (if gitignore { seq![] } else { seq![Missing::GitIgnore] })
        + (if glam_file { seq![] } else { seq![Missing::GlamFile] })
        + (if glam_dir { seq![] } else { seq![Missing::GlamDir] })
}

/// Whether a project is ready, given which of `.gitignore`, the manifest
/// file and the vendoring directory exist. Only the last two are needed.
pub fn check_initialization(gitignore_exists: bool, glam_file_exists: bool, glam_dir_exists: bool) -> (r: InitStatus)
    ensures
        r.ready == (glam_file_exists && glam_dir_exists),
        r.missing@ == missing_of(gitignore_exists, glam_file_exists, glam_dir_exists),
{
    let mut missing: Vec<Missing> = Vec::new();
    if !gitignore_exists {
        missing.push(Missing::GitIgnore);
    }
    if !glam_file_exists {
        missing.push(Missing::GlamFile);
    }
    if !glam_dir_exists {
        missing.push(Missing::GlamDir);
    }
    assert(missing@ =~= missing_of(gitignore_exists, glam_file_exists, glam_dir_exists));
    InitStatus { ready: glam_file_exists && glam_dir_exists, missing }
}

pub open spec fn glam_files_plan(glam_dir: bool, glam_file: bool) -> Seq<StepView> {
    (if glam_dir {
        seq![]
    } else {
        seq![
            StepView::MakeDir { path: ".glam.d"@ },
            StepView::WriteFile { path: ".glam.d/.gdignore"@, contents: gdignore_text() },
        ]
    }) + (if glam_file {
        seq![]
    } else {
        seq![StepView::WriteFile { path: ".glam"@, contents: empty_manifest_text() }]
    })
}

/// The steps that create whichever of the vendoring directory (with its
/// `.gdignore`) and the manifest file is missing.
pub fn initialize_glam_files(glam_dir_exists: bool, glam_file_exists: bool) -> (r: Vec<Step>)
    ensures
        steps_view(r@) == glam_files_plan(glam_dir_exists, glam_file_exists),
{
    let mut r: Vec<Step> = Vec::new();
    if !glam_dir_exists {
        r.push(Step::MakeDir { path: String::from_str(".glam.d") });
        r.push(Step::WriteFile { path: String::from_str(".glam.d/.gdignore"), contents: create_gdignore_file() });
    }
    if !glam_file_exists {
        r.push(Step::WriteFile { path: String::from_str(".glam"), contents: create_glam_file() });
    }
    assert(steps_view(r@) =~= glam_files_plan(glam_dir_exists, glam_file_exists));
    r
}

/// The step that writes `.gitignore` when the project has none.
pub fn initialize(gitignore_exists: bool) -> (r: Vec<Step>)
    ensures
        gitignore_exists ==> r@.len() == 0,
        !gitignore_exists ==> steps_view(r@) == seq![
            StepView::WriteFile { path: ".gitignore"@, contents: gitignore_text() },
        ],
{
    let mut r: Vec<Step> = Vec::new();
    if !gitignore_exists {
        r.push(Step::WriteFile { path: String::from_str(".gitignore"), contents: create_gitignore_file() });
    }
    assert(!gitignore_exists ==> steps_view(r@) =~= seq![
        StepView::WriteFile { path: ".gitignore"@, contents: gitignore_text() },
    ]);
    r
}

/// Some package of `ps` has `repo` as its source repository.
pub open spec fn repository_registered(ps: Seq<PackageView>, repo: Seq<char>) -> bool {
    exists|i: int| 0 <= i < ps.len() && #[trigger] ps[i].repository == repo
}

/// Refuses, with `DuplicatePackage`, a repository that some package of the
/// manifest already has as its source; the empty repository included.
pub fn check_new_repository(manifest: &Manifest, git_repo: &str) -> (r: Result<(), GlamError>)
    ensures
        repository_registered(manifest@, git_repo@) ==> r is Err && r->Err_0@ == GlamErrorView::DuplicatePackage,
        !repository_registered(manifest@, git_repo@) ==> r is Ok,
{
    match find_package_by_repository(&manifest.packages, git_repo) {
        Some(i) => {
            assert(manifest@[i as int].repository == git_repo@);
            Err(GlamError::DuplicatePackage)
        },
        None => {
            assert forall|i: int| 0 <= i < manifest@.len() implies #[trigger] manifest@[i].repository != git_repo@ by {
                let pred = |p: PackageView| p.repository == git_repo@;
                assert(!pred(manifest@[i]));
            }
            Ok(())
        },
    }
}

/// Registers a new package for `git_repo`, under `name` and asking for
/// `commit`, without links yet. A repository that is already registered is
/// refused with `DuplicatePackage`; otherwise it fails as
/// `Manifest::add_package` does. On an error the manifest is left as it was.
pub fn add_repository(manifest: &mut Manifest, git_repo: &str, name: &str, commit: &str) -> (r: Result<usize, GlamError>)
    ensures
        repository_registered(old(manifest)@, git_repo@) ==> r is Err
            && r->Err_0@ == GlamErrorView::DuplicatePackage && final(manifest)@ == old(manifest)@,
        !repository_registered(old(manifest)@, git_repo@) ==> ({
            let p = PackageView { name: name@, repository: git_repo@, commit: commit@, links: Seq::empty() };
            &&& has_conflict(old(manifest)@, p) ==> r is Err && r->Err_0@ == GlamErrorView::DuplicatePackage
                && final(manifest)@ == old(manifest)@
            &&& !has_conflict(old(manifest)@, p) && name@.len() == 0 ==> r is Err
                && r->Err_0@ == GlamErrorView::InvalidName && final(manifest)@ == old(manifest)@
            &&& !has_conflict(old(manifest)@, p) && name@.len() > 0 ==> r == Ok::<usize, GlamError>(
                old(manifest)@.len() as usize,
            ) && final(manifest)@ == old(manifest)@.push(p)
        }),
{
    check_new_repository(manifest, git_repo)?;
    manifest.add_package(Package::new(name, git_repo, commit))
}

/// The package that `create_addon` makes of the project folder
/// `addons/<addon>`: no source repository or commit yet, and one link.
pub open spec fn addon_package(addon: Seq<char>, repo_name: Seq<char>) -> PackageView {
    PackageView { name: repo_name, repository: Seq::empty(), commit: Seq::empty(), links: seq![addon_link(addon)] }
}

/// The steps that start the new repository of `create_addon`.
pub open spec fn create_addon_setup(addon: Seq<char>, repo_name: Seq<char>) -> Seq<StepView> {
    seq![
        StepView::MakeDir { path: checkout_path(repo_name, addon_path(addon)) },
        StepView::InitRepository { dir: checkout_dir(repo_name) },
    ]
}

/// Turns the project folder `addons/<addon>` into a new package named
/// `repo_name`, backed by a fresh repository in the vendoring directory.
/// Returns the steps that create that repository, and apart from them the
/// steps that then fill it from the project folder. Fails with `LinkTaken` when a package already links the
/// folder, and otherwise as `Manifest::add_package` does.
pub fn create_addon(manifest: &mut Manifest, addon: &str, repo_name: &str) -> (r: Result<(Vec<Step>, Vec<Step>), GlamError>)
    ensures
        ({
            let p = addon_package(addon@, repo_name@);
            let taken = exists|j: int| 0 <= j < old(manifest)@.len()
                && has_link_target(#[trigger] old(manifest)@[j], addon_path(addon@));
            &&& taken ==> r is Err && r->Err_0@ == GlamErrorView::LinkTaken && final(manifest)@ == old(manifest)@
            &&& !taken && has_conflict(old(manifest)@, p) ==> r is Err
                && r->Err_0@ == GlamErrorView::DuplicatePackage && final(manifest)@ == old(manifest)@
            &&& !taken && !has_conflict(old(manifest)@, p) && repo_name@.len() == 0 ==> r is Err
                && r->Err_0@ == GlamErrorView::InvalidName && final(manifest)@ == old(manifest)@
            &&& !taken && !has_conflict(old(manifest)@, p) && repo_name@.len() > 0 ==> r is Ok
                && final(manifest)@ == old(manifest)@.push(p)
                && steps_view(r->Ok_0.0@) == create_addon_setup(addon@, repo_name@)
                && steps_view(r->Ok_0.1@) == apply_plan(repo_name@, seq![addon_link(addon@)])
        }),
{
    let folder = make_addon_path(addon);
    let found = find_package_by_link(&manifest.packages, folder.as_str());
    if found.is_some() {
        assert(has_link_target(manifest@[found->Some_0 as int], addon_path(addon@)));
        return Err(GlamError::LinkTaken);
    }
    assert forall|j: int| 0 <= j < manifest@.len() implies !has_link_target(
        #[trigger] manifest@[j],
        addon_path(addon@),
    ) by {
        let pred = |p: PackageView| has_link_target(p, folder@);
        assert(!pred(manifest@[j]));
    }
    let mut links = Vec::new();
    links.push(make_addon_link(addon));
    let package = Package {
        name: String::from_str(repo_name),
        git_repo: String::new(),
        commit: String::new(),
        links,
    };
    assert(package@ == addon_package(addon@, repo_name@)) by {
        assert(package@.links =~= seq![addon_link(addon@)]);
    }
    let mut steps: Vec<Step> = Vec::new();
    steps.push(Step::MakeDir { path: make_checkout_path(repo_name, folder.as_str()) });
    steps.push(Step::InitRepository { dir: make_checkout_dir(repo_name) });
    let fill = apply_package_files(&package);
    manifest.add_package(package)?;
    assert(steps_view(steps@) =~= create_addon_setup(addon@, repo_name@));
    Ok((steps, fill))
}

/// Starts moving the package named `name` to the tip of its remote: an
/// install that asks for `latest`. Gives the package's index, the session
/// and its first action.
pub fn update_repository(manifest: &Manifest, name: &str) -> (r: Result<(usize, InstallSession, Action), GlamError>)
    ensures
        r is Err ==> r->Err_0@ == GlamErrorView::PackageNotFound
            && is_last_match(manifest@, |p: PackageView| p.name == name@, None),
        r matches Ok((i, s, a)) ==> is_last_match(manifest@, |p: PackageView| p.name == name@, Some(i))
            && s@ == fresh_session(manifest@[i as int], Some("latest"@))
            && a@ == (ActionView::Probe { dir: checkout_dir(manifest@[i as int].name) }),
{
    let i = select_package(manifest, name)?;
    let (s, a) = InstallSession::new(manifest.packages[i].duplicate(), Some(String::from_str("latest")));
    Ok((i, s, a))
}

/// The steps that push the project folders of the package named `name` back
/// into its checkout.
pub fn apply_changes(manifest: &Manifest, name: &str) -> (r: Result<Vec<Step>, GlamError>)
    ensures
        r is Err ==> r->Err_0@ == GlamErrorView::PackageNotFound
            && is_last_match(manifest@, |p: PackageView| p.name == name@, None),
        r matches Ok(steps) ==> exists|i: int|
            is_last_match(manifest@, |p: PackageView| p.name == name@, Some(i as usize))
                && 0 <= i < manifest@.len()
                && steps_view(steps@) == apply_plan(manifest@[i].name, manifest@[i].links),
{
    let i = select_package(manifest, name)?;
    let steps = apply_package_files(&manifest.packages[i]);
    assert(is_last_match(manifest@, |p: PackageView| p.name == name@, Some(i)));
    Ok(steps)
}

/// Index of the package named `name`, for the commands that work on one
/// package.
pub fn select_package(manifest: &Manifest, name: &str) -> (r: Result<usize, GlamError>)
    ensures
        r matches Ok(i) ==> is_last_match(manifest@, |p: PackageView| p.name == name@, Some(i)),
        r is Err ==> r->Err_0@ == GlamErrorView::PackageNotFound
            && is_last_match(manifest@, |p: PackageView| p.name == name@, None),
{
    match find_package_by_name(&manifest.packages, name) {
        Some(i) => Ok(i),
        None => Err(GlamError::PackageNotFound),
    }
}

} // verus!
