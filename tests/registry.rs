use glam::commands::{
    add_repository, apply_changes, check_initialization, check_new_repository, create_addon, initialize, initialize_glam_files, select_package,
    update_repository, Missing,
};
use glam::session::Action;
use glam::content::{create_gdignore_file, create_gitignore_file, create_glam_file};
use glam::error::GlamError;
use glam::manifest::{find_package_by_link, find_package_by_name, find_package_by_repository, Link, Manifest, Package};
use glam::repo_name::get_repo_name;
use glam::step::Step;
use glam::store::{ManifestRecord, PackageRecord};

fn link(source: &str, target: &str) -> Link {
    Link { source_folder: source.to_string(), target_folder: target.to_string() }
}

fn package(name: &str, repo: &str, commit: &str, links: Vec<Link>) -> Package {
    Package { name: name.to_string(), git_repo: repo.to_string(), commit: commit.to_string(), links }
}

#[test]
fn repo_name_strips_path_and_extension() {
    assert_eq!(get_repo_name("https://example.com/org/cool-addon.git"), "cool-addon");
    assert_eq!(get_repo_name("git@github.com:user/thing"), "thing");
    assert_eq!(get_repo_name("plain.git"), "plain");
    assert_eq!(get_repo_name("plain"), "plain");
    assert_eq!(get_repo_name("a.b/c"), "c");
    assert_eq!(get_repo_name("https://x.org/org/name.tar.gz"), "name");
}

#[test]
fn repo_name_of_trailing_slash_is_empty() {
    assert_eq!(get_repo_name("https://example.com/org/"), "");
    assert_eq!(get_repo_name(""), "");
    assert_eq!(get_repo_name("https://example.com/org/.git"), "");
}

#[test]
fn find_returns_last_match() {
    let ps = vec![
        package("a", "r1", "", vec![link("addons/x", "addons/x")]),
        package("b", "r2", "", vec![]),
        package("a", "r3", "", vec![link("addons/y", "addons/x")]),
    ];
    assert_eq!(find_package_by_name(&ps, "a"), Some(2));
    assert_eq!(find_package_by_name(&ps, "b"), Some(1));
    assert_eq!(find_package_by_name(&ps, "c"), None);
    assert_eq!(find_package_by_repository(&ps, "r1"), Some(0));
    assert_eq!(find_package_by_repository(&ps, "r4"), None);
    assert_eq!(find_package_by_link(&ps, "addons/x"), Some(2));
    assert_eq!(find_package_by_link(&ps, "addons/y"), None);
    assert_eq!(find_package_by_name(&Vec::new(), "a"), None);
}

#[test]
fn add_rejects_duplicate_repository_and_keeps_manifest() {
    let mut m = Manifest::new();
    assert_eq!(add_repository(&mut m, "https://e.com/o/one.git", "one", "latest").unwrap(), 0);
    let r = add_repository(&mut m, "https://e.com/o/one.git", "other", "latest");
    assert!(matches!(r, Err(GlamError::DuplicatePackage)));
    assert_eq!(m.packages.len(), 1);
    assert_eq!(m.packages[0].name, "one");
    assert_eq!(m.packages[0].commit, "latest");
}

#[test]
fn add_rejects_duplicate_name_and_empty_name() {
    let mut m = Manifest::new();
    add_repository(&mut m, "r1", "one", "").unwrap();
    assert!(matches!(add_repository(&mut m, "r2", "one", ""), Err(GlamError::DuplicatePackage)));
    assert!(matches!(add_repository(&mut m, "r2", "", ""), Err(GlamError::InvalidName)));
    assert_eq!(add_repository(&mut m, "r2", "two", "abc").unwrap(), 1);
    assert_eq!(m.packages.len(), 2);
}

#[test]
fn packages_without_repository_do_not_conflict() {
    let mut m = Manifest::new();
    m.add_package(package("a", "", "", vec![])).unwrap();
    assert_eq!(m.add_package(package("b", "", "", vec![])).unwrap(), 1);
}

#[test]
fn check_initialization_reports_missing() {
    let s = check_initialization(true, true, true);
    assert!(s.ready);
    assert!(s.missing.is_empty());
    let s = check_initialization(false, true, true);
    assert!(s.ready);
    assert_eq!(s.missing, vec![Missing::GitIgnore]);
    let s = check_initialization(false, false, false);
    assert!(!s.ready);
    assert_eq!(s.missing, vec![Missing::GitIgnore, Missing::GlamFile, Missing::GlamDir]);
}

#[test]
fn initialize_creates_only_missing_files() {
    assert!(initialize_glam_files(true, true).is_empty());
    let steps = initialize_glam_files(false, false);
    assert_eq!(steps.len(), 3);
    assert!(matches!(&steps[0], Step::MakeDir { path } if path == ".glam.d"));
    assert!(matches!(&steps[1], Step::WriteFile { path, contents } if path == ".glam.d/.gdignore" && *contents == create_gdignore_file()));
    assert!(matches!(&steps[2], Step::WriteFile { path, contents } if path == ".glam" && *contents == create_glam_file()));
    assert_eq!(initialize_glam_files(true, false).len(), 1);
    assert_eq!(initialize_glam_files(false, true).len(), 2);
    let steps = initialize(false);
    assert_eq!(steps.len(), 1);
    assert!(matches!(&steps[0], Step::WriteFile { path, contents } if path == ".gitignore" && *contents == create_gitignore_file()));
    assert!(initialize(true).is_empty());
}

#[test]
fn update_and_apply_select_by_name() {
    let mut m = Manifest::new();
    m.add_package(package("one", "r1", "abc", vec![link("addons/one", "addons/one")])).unwrap();
    let (i, s, first) = update_repository(&m, "one").unwrap();
    assert_eq!(i, 0);
    assert_eq!(s.package().name, "one");
    assert!(matches!(first, Action::Probe { dir } if dir == ".glam.d/one"));
    assert!(matches!(update_repository(&m, "two"), Err(GlamError::PackageNotFound)));
    let steps = apply_changes(&m, "one").unwrap();
    assert_eq!(steps.len(), 2);
    assert!(matches!(&steps[0], Step::ClearContents { path } if path == ".glam.d/one/addons/one"));
    assert!(matches!(apply_changes(&m, "two"), Err(GlamError::PackageNotFound)));
}

#[test]
fn file_templates() {
    assert_eq!(create_gdignore_file(), "# Hide this folder from Godot editor");
    assert_eq!(create_glam_file(), "{\n    \"packages\" : [\n    ]\n}\n");
    let g = create_gitignore_file();
    assert!(g.starts_with("# Godot 4+ ignores\n.godot/\n"));
    assert!(g.ends_with("# Glam-specific ignores\n.glam.d/"));
}

#[test]
fn create_addon_registers_and_fills_repository() {
    let mut m = Manifest::new();
    let (setup, fill) = create_addon(&mut m, "tool", "tool-repo").unwrap();
    assert_eq!(m.packages.len(), 1);
    let p = &m.packages[0];
    assert_eq!(p.name, "tool-repo");
    assert_eq!(p.git_repo, "");
    assert_eq!(p.links.len(), 1);
    assert_eq!(p.links[0].source_folder, "addons/tool");
    assert_eq!(p.links[0].target_folder, "addons/tool");
    assert_eq!(setup.len(), 2);
    assert!(matches!(&setup[0], Step::MakeDir { path } if path == ".glam.d/tool-repo/addons/tool"));
    assert!(matches!(&setup[1], Step::InitRepository { dir } if dir == ".glam.d/tool-repo"));
    assert_eq!(fill.len(), 2);
    assert!(matches!(&fill[0], Step::ClearContents { path } if path == ".glam.d/tool-repo/addons/tool"));
    assert!(matches!(&fill[1], Step::CopyContents { from, to } if from == "addons/tool" && to == ".glam.d/tool-repo/addons/tool"));
}

#[test]
fn create_addon_rejects_linked_folder() {
    let mut m = Manifest::new();
    create_addon(&mut m, "tool", "tool-repo").unwrap();
    assert!(matches!(create_addon(&mut m, "tool", "another"), Err(GlamError::LinkTaken)));
    assert!(matches!(create_addon(&mut m, "other", "tool-repo"), Err(GlamError::DuplicatePackage)));
    assert!(matches!(create_addon(&mut m, "other", ""), Err(GlamError::InvalidName)));
    assert_eq!(m.packages.len(), 1);
}

#[test]
fn select_package_by_name() {
    let mut m = Manifest::new();
    add_repository(&mut m, "r1", "one", "").unwrap();
    add_repository(&mut m, "r2", "two", "").unwrap();
    assert_eq!(select_package(&m, "two").unwrap(), 1);
    assert!(matches!(select_package(&m, "three"), Err(GlamError::PackageNotFound)));
}

#[test]
fn record_round_trip() {
    let mut m = Manifest::new();
    m.add_package(package("a", "r1", "abc", vec![link("addons/a", "addons/a"), link("addons/b", "lib/b")])).unwrap();
    m.add_package(package("b", "r2", "", vec![])).unwrap();
    let back = Manifest::from_record(&m.to_record()).unwrap();
    assert_eq!(back.packages.len(), 2);
    assert_eq!(back.packages[0].name, "a");
    assert_eq!(back.packages[0].git_repo, "r1");
    assert_eq!(back.packages[0].commit, "abc");
    assert_eq!(back.packages[0].links.len(), 2);
    assert_eq!(back.packages[0].links[1].source_folder, "addons/b");
    assert_eq!(back.packages[0].links[1].target_folder, "lib/b");
    assert_eq!(back.packages[1].name, "b");
    assert!(back.packages[1].links.is_empty());
}

fn record(name: &str, repo: &str) -> PackageRecord {
    PackageRecord {
        name: name.to_string(),
        git_repo: repo.to_string(),
        commit: None,
        links: None,
        source_folder: None,
        target_folder: None,
    }
}

#[test]
fn old_record_shape_becomes_one_link() {
    let mut r = record("a", "r1");
    r.source_folder = Some("addons/a".to_string());
    r.target_folder = Some("addons/a2".to_string());
    let p = Package::from_record(&r).unwrap();
    assert_eq!(p.commit, "");
    assert_eq!(p.links.len(), 1);
    assert_eq!(p.links[0].source_folder, "addons/a");
    assert_eq!(p.links[0].target_folder, "addons/a2");
    let p = Package::from_record(&record("b", "r2")).unwrap();
    assert!(p.links.is_empty());
}

#[test]
fn half_folder_pair_is_corrupt() {
    let mut r = record("a", "r1");
    r.source_folder = Some("addons/a".to_string());
    assert!(matches!(Package::from_record(&r), Err(GlamError::ManifestCorrupt)));
    let m = ManifestRecord { packages: vec![record("ok", "r0"), r] };
    assert!(matches!(Manifest::from_record(&m), Err(GlamError::ManifestCorrupt)));
}

#[test]
fn duplicate_records_are_refused() {
    let m = ManifestRecord { packages: vec![record("a", "r1"), record("b", "r1")] };
    assert!(matches!(Manifest::from_record(&m), Err(GlamError::DuplicatePackage)));
    let m = ManifestRecord { packages: vec![record("", "r1")] };
    assert!(matches!(Manifest::from_record(&m), Err(GlamError::InvalidName)));
    let m = ManifestRecord { packages: vec![] };
    assert!(Manifest::from_record(&m).unwrap().packages.is_empty());
}

#[test]
fn remove_takes_package_out() {
    let mut m = Manifest::new();
    add_repository(&mut m, "r1", "one", "").unwrap();
    add_repository(&mut m, "r2", "two", "").unwrap();
    add_repository(&mut m, "r3", "three", "").unwrap();
    let p = m.remove_package(1);
    assert_eq!(p.name, "two");
    assert_eq!(m.packages.len(), 2);
    assert_eq!(m.packages[1].name, "three");
    assert_eq!(add_repository(&mut m, "r2", "two", "").unwrap(), 2);
}

#[test]
fn registered_repository_is_refused_even_when_empty() {
    let mut m = Manifest::new();
    create_addon(&mut m, "tool", "tool-repo").unwrap();
    assert!(matches!(check_new_repository(&m, ""), Err(GlamError::DuplicatePackage)));
    assert!(matches!(add_repository(&mut m, "", "b", "latest"), Err(GlamError::DuplicatePackage)));
    assert_eq!(m.packages.len(), 1);
    assert!(check_new_repository(&m, "https://e.com/b.git").is_ok());
    add_repository(&mut m, "https://e.com/b.git", "b", "latest").unwrap();
    assert!(matches!(check_new_repository(&m, "https://e.com/b.git"), Err(GlamError::DuplicatePackage)));
}
