use vstd::prelude::*;

use crate::manifest::{LinkView, Package, PackageView};
use crate::step::{steps_view, Step, StepView};
use crate::vendor::{checkout_path, make_checkout_path};

verus! {

pub open spec fn make_dir_step(l: LinkView) -> StepView {
    StepView::MakeDir { path: l.target }
}

pub open spec fn install_copy_step(name: Seq<char>, l: LinkView) -> StepView {
    StepView::CopyContents { from: checkout_path(name, l.source), to: l.target }
}

/// Install, vendor to project: first every target folder is created, then
/// each link's checkout folder is copied over its target folder.
pub open spec fn install_plan(p: PackageView) -> Seq<StepView> {
    p.links.map_values(|l: LinkView| make_dir_step(l)) + p.links.map_values(
        |l: LinkView| install_copy_step(p.name, l),
    )
}

/// Apply, project to vendor, link by link: the checkout folder is emptied,
/// then the project folder is copied into it.
pub open spec fn apply_plan(name: Seq<char>, links: Seq<LinkView>) -> Seq<StepView>
    decreases links.len(),
{
    if links.len() == 0 {
        Seq::empty()
    } else {
        let l = links.last();
        apply_plan(name, links.drop_last()) + seq![
            StepView::ClearContents { path: checkout_path(name, l.source) },
            StepView::CopyContents { from: l.target, to: checkout_path(name, l.source) },
        ]
    }
}

/// The steps that copy a package's checkout into the host project.
pub fn install_package_files(package: &Package) -> (r: Vec<Step>)
    ensures
        steps_view(r@) == install_plan(package@),
{
    let ghost p = package@;
    let n = package.links.len();
    let mut r: Vec<Step> = Vec::new();
    let mut i: usize = 0;
    while i < n
        invariant
            p == package@,
            n == package.links@.len(),
            i <= n,
            r@.len() == i,
            forall|k: int| 0 <= k < i ==> #[trigger] r@[k]@ == make_dir_step(p.links[k]),
        decreases n - i,
    {
        let path = package.links[i].target_folder.clone();
        r.push(Step::MakeDir { path });
        i = i + 1;
    }
    let mut j: usize = 0;
    while j < n
        invariant
            p == package@,
            n == package.links@.len(),
            j <= n,
            r@.len() == n + j,
            forall|k: int| 0 <= k < n ==> #[trigger] r@[k]@ == make_dir_step(p.links[k]),
            forall|k: int| 0 <= k < j ==> #[trigger] r@[n + k]@ == install_copy_step(p.name, p.links[k]),
        decreases n - j,
    {
        let link = &package.links[j];
        let from = make_checkout_path(package.name.as_str(), link.source_folder.as_str());
        let to = link.target_folder.clone();
        r.push(Step::CopyContents { from, to });
        assert(r@[n + j]@ == install_copy_step(p.name, p.links[j as int]));
        j = j + 1;
    }
    assert forall|k: int| n <= k < 2 * n implies #[trigger] r@[k]@ == install_copy_step(p.name, p.links[k - n]) by {
        assert(r@[n + (k - n)]@ == install_copy_step(p.name, p.links[k - n]));
    }
    assert(steps_view(r@) =~= install_plan(p));
    r
}

/// The steps that push a package's project folders back into its checkout.
pub fn apply_package_files(package: &Package) -> (r: Vec<Step>)
    ensures
        steps_view(r@) == apply_plan(package@.name, package@.links),
{
    let ghost p = package@;
    let n = package.links.len();
    let mut r: Vec<Step> = Vec::new();
    let mut i: usize = 0;
    while i < n
        invariant
            p == package@,
            n == package.links@.len(),
            i <= n,
            steps_view(r@) == apply_plan(p.name, p.links.subrange(0, i as int)),
        decreases n - i,
    {
        let link = &package.links[i];
        let source = make_checkout_path(package.name.as_str(), link.source_folder.as_str());
        let clear = Step::ClearContents { path: source.clone() };
        let copy = Step::CopyContents { from: link.target_folder.clone(), to: source };
        let ghost before = r@;
        r.push(clear);
        r.push(copy);
        proof {
            let done = p.links.subrange(0, i + 1);
            assert(done.drop_last() =~= p.links.subrange(0, i as int));
            assert(done.last() == p.links[i as int]);
            assert(steps_view(r@) =~= steps_view(before) + seq![
                StepView::ClearContents { path: checkout_path(p.name, done.last().source) },
                StepView::CopyContents { from: done.last().target, to: checkout_path(p.name, done.last().source) },
            ]);
        }
        i = i + 1;
    }
    assert(p.links.subrange(0, n as int) =~= p.links);
    r
}

} // verus!
