use glam::commands::add_repository;
use glam::error::GlamError;
use glam::links::{list_addons, resolve_links, select_links, Resolution};
use glam::manifest::{Link, Manifest, Package};
use glam::repo_name::get_repo_name;
use glam::session::{install_repositories, Action, Event, InstallSession, Phase, RunStatus};
use glam::step::Step;
use glam::sync::{apply_package_files, install_package_files};
use glam::vendor::{pin_step, record_head, record_origin, vendor_step};

fn package(name: &str, repo: &str, commit: &str, links: Vec<Link>) -> Package {
    Package { name: name.to_string(), git_repo: repo.to_string(), commit: commit.to_string(), links }
}

fn link(folder: &str) -> Link {
    Link { source_folder: format!("addons/{}", folder), target_folder: format!("addons/{}", folder) }
}

fn out(s: &str) -> Event {
    Event::Output(s.to_string())
}

fn step_of(a: Action) -> Step {
    match a {
        Action::Run(s) => s,
        other => panic!("expected a step, got {:?}", other),
    }
}

#[test]
fn listing_lines() {
    assert_eq!(list_addons("a\nb\n"), vec!["a", "b"]);
    assert_eq!(list_addons("\n\nonly\n\n"), vec!["only"]);
    assert!(list_addons("").is_empty());
    assert!(list_addons("\n").is_empty());
    assert_eq!(list_addons("x"), vec!["x"]);
}

#[test]
fn single_addon_is_linked_without_prompt() {
    let mut p = package("foo-pkg", "r", "abc", vec![]);
    let r = resolve_links(&mut p, &list_addons("foo\n")).unwrap();
    assert_eq!(r, Resolution::Linked);
    assert_eq!(p.links.len(), 1);
    assert_eq!(p.links[0].source_folder, "addons/foo");
    assert_eq!(p.links[0].target_folder, "addons/foo");
}

#[test]
fn several_addons_ask_for_choice() {
    let mut p = package("p", "r", "abc", vec![]);
    let folders = list_addons("a\nb\nc\n");
    assert_eq!(resolve_links(&mut p, &folders).unwrap(), Resolution::Choose);
    assert!(p.links.is_empty());
    assert!(matches!(select_links(&mut p, &folders, &vec![]), Err(GlamError::NoSelection)));
    assert!(p.links.is_empty());
    let bad = vec!["a".to_string(), "d".to_string()];
    assert!(matches!(select_links(&mut p, &folders, &bad), Err(GlamError::InvalidSelection)));
    let twice = vec!["a".to_string(), "a".to_string()];
    assert!(matches!(select_links(&mut p, &folders, &twice), Err(GlamError::InvalidSelection)));
    assert!(p.links.is_empty());
    select_links(&mut p, &folders, &vec!["a".to_string(), "c".to_string()]).unwrap();
    assert_eq!(p.links.len(), 2);
    assert_eq!(p.links[1].target_folder, "addons/c");
}

#[test]
fn no_addon_is_an_error_and_links_are_kept() {
    let mut p = package("p", "r", "abc", vec![]);
    assert!(matches!(resolve_links(&mut p, &Vec::new()), Err(GlamError::NoAddonFound)));
    let mut q = package("q", "r", "abc", vec![link("keep")]);
    assert_eq!(resolve_links(&mut q, &list_addons("x\ny\n")).unwrap(), Resolution::Linked);
    assert_eq!(q.links.len(), 1);
    assert_eq!(q.links[0].source_folder, "addons/keep");
}

#[test]
fn vendor_steps() {
    let p = package("pkg", "https://e.com/pkg.git", "", vec![]);
    assert!(matches!(vendor_step(&p, false), Step::Clone { repository, dir } if repository == "https://e.com/pkg.git" && dir == ".glam.d/pkg"));
    assert!(matches!(vendor_step(&p, true), Step::Fetch { dir } if dir == ".glam.d/pkg"));
    let mut q = package("pkg", "", "", vec![]);
    assert!(matches!(vendor_step(&q, true), Step::ReadOrigin { dir } if dir == ".glam.d/pkg"));
    assert!(matches!(record_origin(&mut q, " \n"), Err(GlamError::NoOrigin)));
    assert_eq!(q.git_repo, "");
    record_origin(&mut q, "https://e.com/pkg.git\n").unwrap();
    assert_eq!(q.git_repo, "https://e.com/pkg.git");
}

#[test]
fn pin_requests() {
    let mut p = package("pkg", "r", "abc", vec![]);
    assert!(matches!(pin_step(&mut p, None), Step::ResetHard { dir, commit } if dir == ".glam.d/pkg" && commit == "abc"));
    assert_eq!(p.commit, "abc");
    assert!(matches!(pin_step(&mut p, Some("latest")), Step::ReadHead { dir } if dir == ".glam.d/pkg"));
    assert_eq!(p.commit, "latest");
    assert!(matches!(pin_step(&mut p, Some("def")), Step::ResetHard { commit, .. } if commit == "def"));
    assert_eq!(p.commit, "def");
    assert!(matches!(pin_step(&mut p, Some("")), Step::ReadHead { .. }));
    assert_eq!(p.commit, "latest");
    let mut q = package("q", "r", "", vec![]);
    assert!(matches!(pin_step(&mut q, None), Step::ReadHead { .. }));
}

#[test]
fn head_is_trimmed_and_recorded() {
    let mut p = package("pkg", "r", "latest", vec![]);
    record_head(&mut p, "0123abcd\n").unwrap();
    assert_eq!(p.commit, "0123abcd");
    let mut q = package("pkg", "r", "latest", vec![]);
    assert!(matches!(record_head(&mut q, "  \n"), Err(GlamError::CheckoutFailed(_))));
    assert_eq!(q.commit, "latest");
}

#[test]
fn install_and_apply_plans() {
    let p = package("pkg", "r", "abc", vec![link("a"), Link { source_folder: "src/b".to_string(), target_folder: "addons/b".to_string() }]);
    let steps = install_package_files(&p);
    assert_eq!(steps.len(), 4);
    assert!(matches!(&steps[0], Step::MakeDir { path } if path == "addons/a"));
    assert!(matches!(&steps[1], Step::MakeDir { path } if path == "addons/b"));
    assert!(matches!(&steps[2], Step::CopyContents { from, to } if from == ".glam.d/pkg/addons/a" && to == "addons/a"));
    assert!(matches!(&steps[3], Step::CopyContents { from, to } if from == ".glam.d/pkg/src/b" && to == "addons/b"));
    let steps = apply_package_files(&p);
    assert_eq!(steps.len(), 4);
    assert!(matches!(&steps[0], Step::ClearContents { path } if path == ".glam.d/pkg/addons/a"));
    assert!(matches!(&steps[1], Step::CopyContents { from, to } if from == "addons/a" && to == ".glam.d/pkg/addons/a"));
    assert!(matches!(&steps[2], Step::ClearContents { path } if path == ".glam.d/pkg/src/b"));
    assert!(matches!(&steps[3], Step::CopyContents { from, to } if from == "addons/b" && to == ".glam.d/pkg/src/b"));
    assert!(install_package_files(&package("e", "r", "", vec![])).is_empty());
}

#[test]
fn failures_map_to_errors() {
    let (mut s, _) = InstallSession::new(package("p", "r", "abc", vec![]), None);
    s.next(Event::Checkout(false));
    let a = s.next(Event::Failure("unreachable".to_string()));
    assert!(matches!(a, Action::Abort(GlamError::CloneFailed(m)) if m == "unreachable"));
    assert_eq!(s.phase(), Phase::Failed);

    let (mut s, _) = InstallSession::new(package("p", "r", "abc", vec![]), None);
    s.next(Event::Checkout(true));
    assert!(matches!(s.next(Event::Failure("conflict".to_string())), Action::Abort(GlamError::FetchFailed(_))));

    let (mut s, _) = InstallSession::new(package("p", "r", "abc", vec![]), None);
    s.next(Event::Checkout(true));
    s.next(out(""));
    assert!(matches!(s.next(Event::Failure("no such commit".to_string())), Action::Abort(GlamError::CheckoutFailed(_))));

    let (mut s, _) = InstallSession::new(package("p", "r", "abc", vec![link("a")]), None);
    s.next(Event::Checkout(true));
    s.next(out(""));
    s.next(out(""));
    assert!(matches!(s.next(Event::Failure("disk full".to_string())), Action::Abort(GlamError::CopyFailed(_))));

    let (mut s, _) = InstallSession::new(package("p", "", "abc", vec![]), None);
    s.next(Event::Checkout(true));
    assert!(matches!(s.next(Event::Failure("no remote".to_string())), Action::Abort(GlamError::NoOrigin)));

    let (mut s, _) = InstallSession::new(package("p", "r", "abc", vec![]), None);
    assert!(matches!(s.next(out("")), Action::Abort(GlamError::OutOfOrder)));
}

#[test]
fn listing_failures_in_session() {
    let (mut s, _) = InstallSession::new(package("p", "r", "abc", vec![]), None);
    s.next(Event::Checkout(true));
    s.next(out(""));
    assert!(matches!(s.next(out("")), Action::Run(Step::ListDirs { dir }) if dir == ".glam.d/p/addons"));
    assert!(matches!(s.next(out("\n")), Action::Abort(GlamError::NoAddonFound)));

    let (mut s, _) = InstallSession::new(package("p", "r", "abc", vec![]), None);
    s.next(Event::Checkout(true));
    s.next(out(""));
    s.next(out(""));
    match s.next(out("a\nb\n")) {
        Action::Choose(c) => assert_eq!(c, vec!["a", "b"]),
        other => panic!("expected a choice, got {:?}", other),
    }
    assert!(matches!(s.next(Event::Chosen(vec![])), Action::Abort(GlamError::NoSelection)));

    let (mut s, _) = InstallSession::new(package("p", "r", "abc", vec![]), None);
    s.next(Event::Checkout(true));
    s.next(out(""));
    s.next(out(""));
    s.next(out("a\nb\n"));
    let a = s.next(Event::Chosen(vec!["c".to_string()]));
    assert!(matches!(a, Action::Abort(GlamError::InvalidSelection)));
}

#[test]
fn choice_in_session_links_chosen_folders() {
    let (mut s, _) = InstallSession::new(package("p", "r", "abc", vec![]), None);
    s.next(Event::Checkout(true));
    s.next(out(""));
    s.next(out(""));
    s.next(out("a\nb\n"));
    let first = step_of(s.next(Event::Chosen(vec!["b".to_string()])));
    assert!(matches!(first, Step::MakeDir { path } if path == "addons/b"));
    let second = step_of(s.next(out("")));
    assert!(matches!(second, Step::CopyContents { from, to } if from == ".glam.d/p/addons/b" && to == "addons/b"));
    assert!(matches!(s.next(out("")), Action::Finished));
    assert_eq!(s.phase(), Phase::Done);
}

/// Runs a whole install, answering each step with `answers` in turn (or an
/// empty output), and returns the steps handed out and the final package.
fn run_install(p: Package, requested: Option<String>, present: bool, answers: &[&str]) -> (Vec<Step>, Package) {
    let (mut s, first) = InstallSession::new(p, requested);
    assert!(matches!(first, Action::Probe { .. }));
    let mut steps = Vec::new();
    let mut a = s.next(Event::Checkout(present));
    let mut k = 0;
    loop {
        match a {
            Action::Run(st) => {
                steps.push(st);
                let answer = if k < answers.len() { answers[k] } else { "" };
                k += 1;
                a = s.next(out(answer));
            }
            Action::Finished => break,
            other => panic!("unexpected action {:?}", other),
        }
    }
    (steps, s.into_package())
}

#[test]
fn example_add_then_reinstall() {
    let url = "https://example.com/org/cool-addon.git";
    let name = get_repo_name(url);
    assert_eq!(name, "cool-addon");
    let mut m = Manifest::new();
    let i = add_repository(&mut m, url, &name, "latest").unwrap();
    let p = m.packages[i].clone();
    // clone, read HEAD, list addons, make dir, copy
    let (steps, installed) = run_install(p, Some("latest".to_string()), false, &["", "9f8e7d6c\n", "cool-addon\n"]);
    assert_eq!(steps.len(), 5);
    assert!(matches!(&steps[0], Step::Clone { repository, dir } if repository == url && dir == ".glam.d/cool-addon"));
    assert!(matches!(&steps[1], Step::ReadHead { .. }));
    assert!(matches!(&steps[2], Step::ListDirs { .. }));
    assert!(matches!(&steps[3], Step::MakeDir { path } if path == "addons/cool-addon"));
    assert!(matches!(&steps[4], Step::CopyContents { from, to } if from == ".glam.d/cool-addon/addons/cool-addon" && to == "addons/cool-addon"));
    assert_eq!(installed.commit, "9f8e7d6c");
    assert_eq!(installed.links.len(), 1);
    assert_eq!(installed.links[0].source_folder, "addons/cool-addon");

    // a second install with nothing new upstream changes nothing
    let (steps2, again) = run_install(installed.clone(), None, true, &["", "", "", ""]);
    assert_eq!(steps2.len(), 4);
    assert!(matches!(&steps2[0], Step::Fetch { .. }));
    assert!(matches!(&steps2[1], Step::ResetHard { commit, .. } if commit == "9f8e7d6c"));
    assert!(matches!(&steps2[2], Step::MakeDir { path } if path == "addons/cool-addon"));
    assert!(matches!(&steps2[3], Step::CopyContents { .. }));
    assert_eq!(again.commit, installed.commit);
    assert_eq!(again.links.len(), 1);
    assert_eq!(again.links[0].target_folder, installed.links[0].target_folder);
}

#[test]
fn pin_is_stable_across_installs() {
    let p = package("p", "r", "", vec![link("a")]);
    let (_, first) = run_install(p, None, true, &["", "c0ffee\n"]);
    assert_eq!(first.commit, "c0ffee");
    let (steps, second) = run_install(first, None, true, &["", "different-head\n"]);
    assert!(matches!(&steps[1], Step::ResetHard { commit, .. } if commit == "c0ffee"));
    assert_eq!(second.commit, "c0ffee");
}

#[test]
fn update_moves_pin_to_new_head() {
    let p = package("p", "r", "old", vec![link("a")]);
    let (steps, updated) = run_install(p, Some("latest".to_string()), true, &["", "new\n"]);
    assert!(matches!(&steps[1], Step::ReadHead { .. }));
    assert_eq!(updated.commit, "new");
}

#[test]
fn origin_is_read_for_package_without_repository() {
    let p = package("p", "", "abc", vec![link("a")]);
    let (steps, done) = run_install(p, None, true, &["https://e.com/p.git\n"]);
    assert!(matches!(&steps[0], Step::ReadOrigin { .. }));
    assert!(matches!(&steps[1], Step::Fetch { .. }));
    assert_eq!(done.git_repo, "https://e.com/p.git");
}

#[test]
fn bulk_install_writes_all_or_nothing() {
    let mut m = Manifest::new();
    m.add_package(package("a", "ra", "c1", vec![link("a")])).unwrap();
    m.add_package(package("b", "rb", "latest", vec![link("b")])).unwrap();

    // both succeed: fetch, reset, mkdir, copy for a; fetch, head, mkdir, copy for b
    let (mut run, first) = install_repositories(&m);
    assert!(matches!(&first, Action::Probe { dir } if dir == ".glam.d/a"));
    let mut a = run.next(Event::Checkout(true));
    let mut seen = Vec::new();
    loop {
        match a {
            Action::Run(st) => {
                let answer = if matches!(st, Step::ReadHead { .. }) { "beef\n" } else { "" };
                seen.push(st);
                a = run.next(out(answer));
            }
            Action::Probe { dir } => {
                assert_eq!(dir, ".glam.d/b");
                a = run.next(Event::Checkout(true));
            }
            Action::Finished => break,
            other => panic!("unexpected action {:?}", other),
        }
    }
    assert_eq!(seen.len(), 8);
    assert_eq!(run.status(), RunStatus::Complete);
    let done = run.finish().unwrap();
    assert_eq!(done.packages.len(), 2);
    assert_eq!(done.packages[0].commit, "c1");
    assert_eq!(done.packages[1].commit, "beef");

    // the second package fails: nothing to write
    let (mut run, _) = install_repositories(&m);
    run.next(Event::Checkout(true));
    for _ in 0..4 {
        run.next(out(""));
    }
    run.next(Event::Checkout(true));
    let a = run.next(Event::Failure("network down".to_string()));
    assert!(matches!(a, Action::Abort(GlamError::FetchFailed(_))));
    assert_eq!(run.status(), RunStatus::Failed);
    assert!(run.finish().is_none());
}

#[test]
fn bulk_install_of_empty_manifest_finishes_at_once() {
    let (run, first) = install_repositories(&Manifest::new());
    assert!(matches!(first, Action::Finished));
    assert!(run.finish().unwrap().packages.is_empty());
}
