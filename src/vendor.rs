use vstd::prelude::*;

use crate::error::{GlamError, GlamErrorView};
use crate::manifest::{Package, PackageView};
use crate::step::{Step, StepView};

verus! {

/// What `str::trim` leaves of a text.
pub uninterp spec fn trimmed(s: Seq<char>) -> Seq<char>;

/// Relies on `str::trim`: the text without leading and trailing white space,
/// which depends on the characters alone.
#[verifier::external_body]
fn trim_text(s: &str) -> (r: String)
    ensures
        r@ == trimmed(s@),
{
    s.trim().to_string()
}

/// The directory that holds the checkout of the package `name`.
pub open spec fn checkout_dir(name: Seq<char>) -> Seq<char> {
    ".glam.d/"@ + name
}

/// The place of `folder` inside the checkout of the package `name`.
pub open spec fn checkout_path(name: Seq<char>, folder: Seq<char>) -> Seq<char> {
    checkout_dir(name) + "/"@ + folder
}

/// A commit value that asks for the remote tip rather than a fixed commit.
pub open spec fn is_tracking(commit: Seq<char>) -> bool {
    commit.len() == 0 || commit == "latest"@
}

pub fn make_checkout_dir(name: &str) -> (r: String)
    ensures
        r@ == checkout_dir(name@),
{
    String::from_str(".glam.d/").concat(name)
}

pub fn make_checkout_path(name: &str, folder: &str) -> (r: String)
    ensures
        r@ == checkout_path(name@, folder@),
{
    make_checkout_dir(name).concat("/").concat(folder)
}

pub fn tracks_latest(commit: &str) -> (r: bool)
    ensures
        r == is_tracking(commit@),
{
    commit.is_empty() || String::from_str(commit) == String::from_str("latest")
}

/// The first vendoring step for a package: clone when there is no checkout;
/// with a checkout, read back its remote when the package has no source
/// repository yet, else fetch.
pub open spec fn vendor_step_of(p: PackageView, checkout_present: bool) -> StepView {
    if !checkout_present {
        StepView::Clone { repository: p.repository, dir: checkout_dir(p.name) }
    } else if p.repository.len() == 0 {
        StepView::ReadOrigin { dir: checkout_dir(p.name) }
    } else {
        StepView::Fetch { dir: checkout_dir(p.name) }
    }
}

pub fn vendor_step(package: &Package, checkout_present: bool) -> (r: Step)
    ensures
        r@ == vendor_step_of(package@, checkout_present),
{
    let dir = make_checkout_dir(package.name.as_str());
    if !checkout_present {
        Step::Clone { repository: package.git_repo.clone(), dir }
    } else if package.git_repo.as_str().is_empty() {
        Step::ReadOrigin { dir }
    } else {
        Step::Fetch { dir }
    }
}

/// Records the remote that a checkout reported as the package's source
/// repository. An answer with nothing but white space is `NoOrigin`.
pub fn record_origin(package: &mut Package, output: &str) -> (r: Result<(), GlamError>)
    ensures
        trimmed(output@).len() == 0 ==> r is Err && r->Err_0@ == GlamErrorView::NoOrigin
            && final(package)@ == old(package)@,
        trimmed(output@).len() > 0 ==> r is Ok
            && final(package)@ == (PackageView { repository: trimmed(output@), ..old(package)@ }),
{
    let origin = trim_text(output);
    if origin.as_str().is_empty() {
        return Err(GlamError::NoOrigin);
    }
    package.git_repo = origin;
    Ok(())
}

pub open spec fn requested_view(requested: Option<&str>) -> Option<Seq<char>> {
    match requested {
        Some(c) => Some(c@),
        None => None,
    }
}

/// The commit a package records once `requested` is taken into account: a
/// tracking request gives `latest`, a concrete one is kept, and no request
/// keeps what the package had.
pub open spec fn requested_commit(p: PackageView, requested: Option<Seq<char>>) -> Seq<char> {
    match requested {
        Some(c) => if is_tracking(c) { "latest"@ } else { c },
        None => p.commit,
    }
}

/// How the checkout is brought to the commit: read its HEAD when it tracks
/// the tip, else reset it to the fixed commit.
pub open spec fn pin_step_of(name: Seq<char>, commit: Seq<char>) -> StepView {
    if is_tracking(commit) {
        StepView::ReadHead { dir: checkout_dir(name) }
    } else {
        StepView::ResetHard { dir: checkout_dir(name), commit: commit }
    }
}

/// Applies a commit request to a package (`None`: keep its pin) and says how
/// its checkout is to be brought to that commit.
pub fn pin_step(package: &mut Package, requested: Option<&str>) -> (r: Step)
    ensures
        final(package)@ == (PackageView {
            commit: requested_commit(old(package)@, requested_view(requested)),
            ..old(package)@
        }),
        r@ == pin_step_of(old(package)@.name, final(package)@.commit),
{
    match requested {
        Some(c) => {
            if tracks_latest(c) {
                package.commit = String::from_str("latest");
            } else {
                package.commit = String::from_str(c);
            }
        },
        None => {},
    }
    let dir = make_checkout_dir(package.name.as_str());
    if tracks_latest(package.commit.as_str()) {
        Step::ReadHead { dir }
    } else {
        Step::ResetHard { dir, commit: package.commit.clone() }
    }
}

/// Records the commit that a checkout reported as its HEAD as the package's
/// pin. An answer that is empty, or `latest`, once trimmed is no commit:
/// `CheckoutFailed`, and the package is left as it was.
pub fn record_head(package: &mut Package, output: &str) -> (r: Result<(), GlamError>)
    ensures
        is_tracking(trimmed(output@)) ==> r is Err && r->Err_0@ == GlamErrorView::CheckoutFailed(output@)
            && final(package)@ == old(package)@,
        !is_tracking(trimmed(output@)) ==> r is Ok
            && final(package)@ == (PackageView { commit: trimmed(output@), ..old(package)@ }),
{
    let head = trim_text(output);
    if tracks_latest(head.as_str()) {
        return Err(GlamError::CheckoutFailed(String::from_str(output)));
    }
    package.commit = head;
    Ok(())
}

/// Lists the addon directories of a package's checkout.
pub fn list_step(package: &Package) -> (r: Step)
    ensures
        r@ == (StepView::ListDirs { dir: checkout_path(package@.name, "addons"@) }),
{
    Step::ListDirs { dir: make_checkout_path(package.name.as_str(), "addons") }
}

} // verus!
