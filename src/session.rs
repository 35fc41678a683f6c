use vstd::prelude::*;

use crate::error::{GlamError, GlamErrorView};
use crate::links::{
    addon_folders, addon_link, addon_links, copy_strings, list_addons, resolve_links,
    select_links, strings_view, valid_choice, Resolution,
};
use crate::manifest::{packages_view, LinkView, Manifest, Package, PackageView};
use crate::step::{failure_of, steps_view, Step, StepView};
use crate::store::opt_string_view;
use crate::sync::{install_package_files, install_plan};
use crate::vendor::{
    checkout_dir, checkout_path, is_tracking, list_step, make_checkout_dir, pin_step, pin_step_of,
    record_head, record_origin, requested_commit, trimmed, vendor_step, vendor_step_of,
};

verus! {

/// Where the install of one package stands. Vendoring, pinning, listing and
/// copying each wait for the result of the step last handed out.
#[derive(Clone, Copy, Debug, PartialEq, Eq, Structural)]
pub enum Phase {
    Probe,
    Vendor,
    Pin,
    List,
    Choose,
    Copy,
    Done,
    Failed,
}

/// What the outside world answers to the last action.
#[derive(Debug)]
pub enum Event {
    /// Whether the checkout directory exists.
    Checkout(bool),
    /// The step succeeded and printed this.
    Output(String),
    /// The step failed with this message.
    Failure(String),
    /// The addon directories chosen among the candidates.
    Chosen(Vec<String>),
}

pub enum EventView {
    Checkout(bool),
    Output(Seq<char>),
    Failure(Seq<char>),
    Chosen(Seq<Seq<char>>),
}

impl View for Event {
    type V = EventView;

    open spec fn view(&self) -> EventView {
        match self {
            Event::Checkout(b) => EventView::Checkout(*b),
            Event::Output(s) => EventView::Output(s@),
            Event::Failure(s) => EventView::Failure(s@),
            Event::Chosen(v) => EventView::Chosen(strings_view(v@)),
        }
    }
}

/// What the outside world is asked to do next.
#[derive(Debug)]
pub enum Action {
    /// Tell whether the directory `dir` exists.
    Probe { dir: String },
    /// Run a step and report its result.
    Run(Step),
    /// Choose one or more of these addon directories.
    Choose(Vec<String>),
    /// The package is installed.
    Finished,
    /// The install stopped on this error.
    Abort(GlamError),
}

pub enum ActionView {
    Probe { dir: Seq<char> },
    Run(StepView),
    Choose(Seq<Seq<char>>),
    Finished,
    Abort(GlamErrorView),
}

impl View for Action {
    type V = ActionView;

    open spec fn view(&self) -> ActionView {
        match self {
            Action::Probe { dir } => ActionView::Probe { dir: dir@ },
            Action::Run(s) => ActionView::Run(s@),
            Action::Choose(v) => ActionView::Choose(strings_view(v@)),
            Action::Finished => ActionView::Finished,
            Action::Abort(e) => ActionView::Abort(e@),
        }
    }
}

/// Installs one package: vendor its checkout, pin the commit, resolve its
/// links when it has none, then copy each link into the project. Each call
/// of `next` takes the answer to the last action and gives the next one.
pub struct InstallSession {
    package: Package,
    requested: Option<String>,
    phase: Phase,
    pending: Option<Step>,
    plan: Vec<Step>,
    next: usize,
    candidates: Vec<String>,
}

pub struct SessionView {
    pub package: PackageView,
    pub requested: Option<Seq<char>>,
    pub phase: Phase,
    pub pending: Option<StepView>,
    pub plan: Seq<StepView>,
    pub next: int,
    /// The addon directories offered for a choice.
    pub candidates: Seq<Seq<char>>,
}

pub open spec fn opt_step_view(o: Option<Step>) -> Option<StepView> {
    match o {
        Some(s) => Some(s@),
        None => None,
    }
}

impl View for InstallSession {
    type V = SessionView;

    closed spec fn view(&self) -> SessionView {
        SessionView {
            package: self.package@,
            requested: opt_string_view(self.requested),
            phase: self.phase,
            pending: opt_step_view(self.pending),
            plan: steps_view(self.plan@),
            next: self.next as int,
            candidates: strings_view(self.candidates@),
        }
    }
}

pub open spec fn fail(s: SessionView, e: GlamErrorView) -> (SessionView, ActionView) {
    (SessionView { phase: Phase::Failed, pending: None, ..s }, ActionView::Abort(e))
}

pub open spec fn out_of_order() -> GlamErrorView {
    GlamErrorView::OutOfOrder
}

/// Hand out `st` and wait for its result in `phase`.
pub open spec fn run(s: SessionView, p: PackageView, phase: Phase, st: StepView) -> (SessionView, ActionView) {
    (SessionView { package: p, phase, pending: Some(st), ..s }, ActionView::Run(st))
}

/// Copying starts: the steps of `install_plan` are handed out one by one.
pub open spec fn start_copy(s: SessionView, p: PackageView) -> (SessionView, ActionView) {
    let plan = install_plan(p);
    if plan.len() == 0 {
        (SessionView { package: p, phase: Phase::Done, pending: None, plan, next: 0, ..s }, ActionView::Finished)
    } else {
        (
            SessionView { package: p, phase: Phase::Copy, pending: Some(plan[0]), plan, next: 1, ..s },
            ActionView::Run(plan[0]),
        )
    }
}

/// Once pinned: links come next unless the package has them.
pub open spec fn after_pin(s: SessionView, p: PackageView) -> (SessionView, ActionView) {
    if p.links.len() > 0 {
        start_copy(s, p)
    } else {
        run(s, p, Phase::List, StepView::ListDirs { dir: checkout_path(p.name, "addons"@) })
    }
}

/// Once vendored: the requested commit is recorded and the checkout brought
/// to it.
pub open spec fn begin_pin(s: SessionView, p: PackageView) -> (SessionView, ActionView) {
    let q = PackageView { commit: requested_commit(p, s.requested), ..p };
    run(s, q, Phase::Pin, pin_step_of(p.name, q.commit))
}

/// The next state and action of an install after `e`.
pub open spec fn advance(s: SessionView, e: EventView) -> (SessionView, ActionView) {
    match e {
        EventView::Checkout(present) => if s.phase == Phase::Probe {
            run(s, s.package, Phase::Vendor, vendor_step_of(s.package, present))
        } else {
            fail(s, out_of_order())
        },
        EventView::Output(out) => if s.phase == Phase::Vendor {
            match s.pending {
                Some(StepView::ReadOrigin { .. }) => if trimmed(out).len() == 0 {
                    fail(s, GlamErrorView::NoOrigin)
                } else {
                    let p = PackageView { repository: trimmed(out), ..s.package };
                    run(s, p, Phase::Vendor, vendor_step_of(p, true))
                },
                _ => begin_pin(s, s.package),
            }
        } else if s.phase == Phase::Pin {
            match s.pending {
                Some(StepView::ReadHead { .. }) => if is_tracking(trimmed(out)) {
                    fail(s, GlamErrorView::CheckoutFailed(out))
                } else {
                    after_pin(s, PackageView { commit: trimmed(out), ..s.package })
                },
                _ => after_pin(s, s.package),
            }
        } else if s.phase == Phase::List {
            let folders = addon_folders(out);
            if s.package.links.len() > 0 {
                start_copy(s, s.package)
            } else if folders.len() == 0 {
                fail(s, GlamErrorView::NoAddonFound)
            } else if folders.len() == 1 {
                start_copy(s, PackageView { links: seq![addon_link(folders[0])], ..s.package })
            } else {
                (
                    SessionView { phase: Phase::Choose, pending: None, candidates: folders, ..s },
                    ActionView::Choose(folders),
                )
            }
        } else if s.phase == Phase::Copy {
            if 0 <= s.next < s.plan.len() {
                (
                    SessionView { pending: Some(s.plan[s.next]), next: s.next + 1, ..s },
                    ActionView::Run(s.plan[s.next]),
                )
            } else {
                (SessionView { phase: Phase::Done, pending: None, ..s }, ActionView::Finished)
            }
        } else {
            fail(s, out_of_order())
        },
        EventView::Failure(message) => match s.pending {
            Some(st) => fail(s, failure_of(st, message)),
            None => fail(s, out_of_order()),
        },
        EventView::Chosen(chosen) => if s.phase != Phase::Choose {
            fail(s, out_of_order())
        } else if chosen.len() == 0 {
            fail(s, GlamErrorView::NoSelection)
        } else if !valid_choice(s.candidates, chosen) {
            fail(s, GlamErrorView::InvalidSelection)
        } else {
            start_copy(s, PackageView { links: s.package.links + addon_links(chosen), ..s.package })
        },
    }
}

impl InstallSession {
    /// An install of `package`; `requested` is a commit to pin it to (`None`:
    /// keep its pin). The first action asks whether its checkout exists.
    pub fn new(package: Package, requested: Option<String>) -> (r: (InstallSession, Action))
        ensures
            r.0@ == (SessionView {
                package: package@,
                requested: opt_string_view(requested),
                phase: Phase::Probe,
                pending: None,
                plan: Seq::empty(),
                next: 0,
                candidates: Seq::empty(),
            }),
            r.1@ == (ActionView::Probe { dir: checkout_dir(package@.name) }),
    {
        let dir = make_checkout_dir(package.name.as_str());
        let plan: Vec<Step> = Vec::new();
        let candidates: Vec<String> = Vec::new();
        let s = InstallSession { package, requested, phase: Phase::Probe, pending: None, plan, next: 0, candidates };
        assert(steps_view(s.plan@) =~= Seq::<StepView>::empty());
        assert(strings_view(s.candidates@) =~= Seq::<Seq<char>>::empty());
        (s, Action::Probe { dir })
    }

    pub fn phase(&self) -> (r: Phase)
        ensures
            r == self@.phase,
    {
        self.phase
    }

    pub fn package(&self) -> (r: &Package)
        ensures
            r@ == self@.package,
    {
        &self.package
    }

    /// Ends the session and gives back its package as it now stands.
    pub fn into_package(self) -> (r: Package)
        ensures
            r@ == self@.package,
    {
        self.package
    }

    fn fail(&mut self, e: GlamError) -> (r: Action)
        ensures
            (final(self)@, r@) == fail(old(self)@, e@),
    {
        self.phase = Phase::Failed;
        self.pending = None;
        Action::Abort(e)
    }

    fn run(&mut self, phase: Phase, st: Step) -> (r: Action)
        ensures
            (final(self)@, r@) == run(old(self)@, old(self)@.package, phase, st@),
    {
        self.phase = phase;
        self.pending = Some(st.duplicate());
        Action::Run(st)
    }

    fn start_copy(&mut self) -> (r: Action)
        ensures
            (final(self)@, r@) == start_copy(old(self)@, old(self)@.package),
    {
        let plan = install_package_files(&self.package);
        if plan.len() == 0 {
            self.plan = plan;
            self.phase = Phase::Done;
            self.pending = None;
            self.next = 0;
            return Action::Finished;
        }
        let first = plan[0].duplicate();
        self.pending = Some(plan[0].duplicate());
        self.plan = plan;
        self.phase = Phase::Copy;
        self.next = 1;
        Action::Run(first)
    }

    fn after_pin(&mut self) -> (r: Action)
        ensures
            (final(self)@, r@) == after_pin(old(self)@, old(self)@.package),
    {
        if self.package.links.len() > 0 {
            self.start_copy()
        } else {
            let st = list_step(&self.package);
            self.run(Phase::List, st)
        }
    }

    fn begin_pin(&mut self) -> (r: Action)
        ensures
            (final(self)@, r@) == begin_pin(old(self)@, old(self)@.package),
    {
        let requested = match &self.requested {
            Some(c) => Some(c.as_str()),
            None => None,
        };
        let st = pin_step(&mut self.package, requested);
        self.run(Phase::Pin, st)
    }

    /// Takes the answer to the last action and gives the next action.
    pub fn next(&mut self, event: Event) -> (r: Action)
        ensures
            (final(self)@, r@) == advance(old(self)@, event@),
    {
        match event {
            Event::Checkout(present) => {
                if self.phase == Phase::Probe {
                    let st = vendor_step(&self.package, present);
                    self.run(Phase::Vendor, st)
                } else {
                    self.fail(GlamError::OutOfOrder)
                }
            },
            Event::Output(out) => {
                if self.phase == Phase::Vendor {
                    let reads_origin = match &self.pending {
                        Some(Step::ReadOrigin { .. }) => true,
                        _ => false,
                    };
                    if reads_origin {
                        match record_origin(&mut self.package, out.as_str()) {
                            Ok(()) => {
                                let st = vendor_step(&self.package, true);
                                self.run(Phase::Vendor, st)
                            },
                            Err(e) => self.fail(e),
                        }
                    } else {
                        self.begin_pin()
                    }
                } else if self.phase == Phase::Pin {
                    let reads_head = match &self.pending {
                        Some(Step::ReadHead { .. }) => true,
                        _ => false,
                    };
                    if reads_head {
                        match record_head(&mut self.package, out.as_str()) {
                            Ok(()) => self.after_pin(),
                            Err(e) => self.fail(e),
                        }
                    } else {
                        self.after_pin()
                    }
                } else if self.phase == Phase::List {
                    let folders = list_addons(out.as_str());
                    match resolve_links(&mut self.package, &folders) {
                        Ok(Resolution::Linked) => self.start_copy(),
                        Ok(Resolution::Choose) => {
                            self.phase = Phase::Choose;
                            self.pending = None;
                            self.candidates = copy_strings(&folders);
                            Action::Choose(folders)
                        },
                        Err(e) => self.fail(e),
                    }
                } else if self.phase == Phase::Copy {
                    if self.next < self.plan.len() {
                        let st = self.plan[self.next].duplicate();
                        self.pending = Some(self.plan[self.next].duplicate());
                        self.next = self.next + 1;
                        Action::Run(st)
                    } else {
                        self.phase = Phase::Done;
                        self.pending = None;
                        Action::Finished
                    }
                } else {
                    self.fail(GlamError::OutOfOrder)
                }
            },
            Event::Failure(message) => {
                let e = match &self.pending {
                    Some(st) => st.failure(message),
                    None => GlamError::OutOfOrder,
                };
                self.fail(e)
            },
            Event::Chosen(chosen) => {
                if self.phase != Phase::Choose {
                    self.fail(GlamError::OutOfOrder)
                } else {
                    match select_links(&mut self.package, &self.candidates, &chosen) {
                        Ok(()) => self.start_copy(),
                        Err(e) => self.fail(e),
                    }
                }
            },
        }
    }
}

/// Where a run over all packages stands.
#[derive(Clone, Copy, Debug, PartialEq, Eq, Structural)]
pub enum RunStatus {
    Running,
    Complete,
    Failed,
}

/// Installs every package of a manifest in order, one session at a time. The
/// run gives back a manifest only once every package is installed: a failure
/// leaves nothing to write.
pub struct InstallRun {
    packages: Vec<Package>,
    started: usize,
    done: Vec<Package>,
    current: Option<InstallSession>,
    status: RunStatus,
}

pub struct RunView {
    /// The packages installed so far, as their sessions left them.
    pub done: Seq<PackageView>,
    /// The packages not started yet.
    pub waiting: Seq<PackageView>,
    pub current: Option<SessionView>,
    pub status: RunStatus,
}

pub open spec fn opt_session_view(o: Option<InstallSession>) -> Option<SessionView> {
    match o {
        Some(s) => Some(s@),
        None => None,
    }
}

impl View for InstallRun {
    type V = RunView;

    closed spec fn view(&self) -> RunView {
        RunView {
            done: packages_view(self.done@),
            waiting: if self.started <= self.packages@.len() {
                packages_view(self.packages@).subrange(self.started as int, self.packages@.len() as int)
            } else {
                Seq::empty()
            },
            current: opt_session_view(self.current),
            status: self.status,
        }
    }
}

/// A session that has not started: it first asks about the checkout.
pub open spec fn fresh_session(p: PackageView, requested: Option<Seq<char>>) -> SessionView {
    SessionView {
        package: p,
        requested,
        phase: Phase::Probe,
        pending: None,
        plan: Seq::empty(),
        next: 0,
        candidates: Seq::empty(),
    }
}

/// Moves on to the next waiting package, or completes the run.
pub open spec fn start_next(done: Seq<PackageView>, waiting: Seq<PackageView>) -> (RunView, ActionView) {
    if waiting.len() > 0 {
        (
            RunView {
                done,
                waiting: waiting.drop_first(),
                current: Some(fresh_session(waiting[0], None)),
                status: RunStatus::Running,
            },
            ActionView::Probe { dir: checkout_dir(waiting[0].name) },
        )
    } else {
        (RunView { done, waiting, current: None, status: RunStatus::Complete }, ActionView::Finished)
    }
}

/// The next state and action of a run after `e`: the current session takes
/// the event; when it finishes the next package starts, and when it aborts
/// the run fails.
pub open spec fn run_advance(r: RunView, e: EventView) -> (RunView, ActionView) {
    if r.status != RunStatus::Running {
        (RunView { status: RunStatus::Failed, current: None, ..r }, ActionView::Abort(out_of_order()))
    } else {
        match r.current {
            None => (RunView { status: RunStatus::Failed, ..r }, ActionView::Abort(out_of_order())),
            Some(cs) => {
                let (cs2, a) = advance(cs, e);
                match a {
                    ActionView::Finished => start_next(r.done.push(cs2.package), r.waiting),
                    ActionView::Abort(err) => (
                        RunView { current: Some(cs2), status: RunStatus::Failed, ..r },
                        ActionView::Abort(err),
                    ),
                    _ => (RunView { current: Some(cs2), ..r }, a),
                }
            },
        }
    }
}

impl InstallRun {
    fn start_next(&mut self) -> (r: Action)
        requires
            old(self).current is None,
        ensures
            (final(self)@, r@) == start_next(old(self)@.done, old(self)@.waiting),
    {
        let ghost ps = packages_view(self.packages@);
        if self.started < self.packages.len() {
            let p = self.packages[self.started].duplicate();
            let (s, a) = InstallSession::new(p, None);
            self.current = Some(s);
            self.started = self.started + 1;
            self.status = RunStatus::Running;
            assert(ps.subrange(self.started as int, ps.len() as int) =~= ps.subrange(
                self.started - 1,
                ps.len() as int,
            ).drop_first());
            a
        } else {
            self.status = RunStatus::Complete;
            Action::Finished
        }
    }

    /// Takes the answer to the last action and gives the next action.
    pub fn next(&mut self, event: Event) -> (r: Action)
        ensures
            (final(self)@, r@) == run_advance(old(self)@, event@),
    {
        if self.status != RunStatus::Running {
            self.status = RunStatus::Failed;
            self.current = None;
            return Action::Abort(GlamError::OutOfOrder);
        }
        let current = self.current.take();
        match current {
            None => {
                self.status = RunStatus::Failed;
                Action::Abort(GlamError::OutOfOrder)
            },
            Some(mut s) => {
                let a = s.next(event);
                match a {
                    Action::Finished => {
                        let ghost before = self.done@;
                        self.done.push(s.into_package());
                        assert(packages_view(self.done@) =~= packages_view(before).push(
                            packages_view(self.done@).last(),
                        ));
                        self.start_next()
                    },
                    Action::Abort(e) => {
                        self.current = Some(s);
                        self.status = RunStatus::Failed;
                        Action::Abort(e)
                    },
                    other => {
                        self.current = Some(s);
                        other
                    },
                }
            },
        }
    }

    pub fn status(&self) -> (r: RunStatus)
        ensures
            r == self@.status,
    {
        self.status
    }

    /// The manifest to write once every package is installed: the packages
    /// as their sessions left them, in their order. `None` while the run is
    /// going on or after it failed.
    pub fn finish(self) -> (r: Option<Manifest>)
        ensures
            self@.status == RunStatus::Complete ==> r is Some && r->Some_0@ == self@.done,
            self@.status != RunStatus::Complete ==> r is None,
    {
        if self.status == RunStatus::Complete {
            Some(Manifest { packages: self.done })
        } else {
            None
        }
    }
}

/// Starts installing every package of `manifest`, each at its pinned commit.
/// The action asks about the first package's checkout, or is `Finished` for
/// an empty manifest.
pub fn install_repositories(manifest: &Manifest) -> (r: (InstallRun, Action))
    ensures
        (r.0@, r.1@) == start_next(Seq::empty(), manifest@),
{
    let mut packages: Vec<Package> = Vec::new();
    let mut i: usize = 0;
    while i < manifest.packages.len()
        invariant
            i <= manifest.packages@.len(),
            packages@.len() == i,
            forall|k: int| 0 <= k < i ==> #[trigger] packages@[k]@ == manifest.packages@[k]@,
        decreases manifest.packages@.len() - i,
    {
        packages.push(manifest.packages[i].duplicate());
        i = i + 1;
    }
    let mut run = InstallRun {
        packages,
        started: 0,
        done: Vec::new(),
        current: None,
        status: RunStatus::Running,
    };
    proof {
        assert(packages_view(run.packages@).subrange(0, run.packages@.len() as int) =~= manifest@);
        assert(packages_view(run.done@) =~= Seq::<PackageView>::empty());
    }
    let a = run.start_next();
    (run, a)
}

/// A listing with exactly one addon directory `folder` links that directory
/// at once, `addons/<folder>` to `addons/<folder>`, and asks for no choice.
pub proof fn lemma_single_addon_links(s: SessionView, listing: Seq<char>, folder: Seq<char>)
    requires
        s.phase == Phase::List,
        s.package.links.len() == 0,
        addon_folders(listing) == seq![folder],
    ensures
        advance(s, EventView::Output(listing)).0.package.links == seq![
            LinkView { source: "addons/"@ + folder, target: "addons/"@ + folder },
        ],
        !(advance(s, EventView::Output(listing)).1 is Choose),
{
}

/// The state after the vendoring step reported `vendored` and the pinning
/// step then reported `pinned`.
pub open spec fn after_vendor_and_pin(s: SessionView, vendored: Seq<char>, pinned: Seq<char>) -> SessionView {
    advance(advance(s, EventView::Output(vendored)).0, EventView::Output(pinned)).0
}

/// A session whose checkout has just been cloned or fetched, with no commit
/// requested.
pub open spec fn vendored_without_request(s: SessionView) -> bool {
    &&& s.phase == Phase::Vendor
    &&& s.requested is None
    &&& (s.pending matches Some(StepView::Fetch { .. }) || s.pending matches Some(StepView::Clone { .. }))
}

/// Installing twice without a requested commit pins the same commit both
/// times: the first install fixes a concrete commit (reading HEAD when the
/// package tracked the tip), and a second install of the package it left
/// resets to that commit and keeps it, whatever the steps print.
pub proof fn lemma_pin_stable(
    s: SessionView,
    vendored: Seq<char>,
    head: Seq<char>,
    t: SessionView,
    vendored2: Seq<char>,
    pinned2: Seq<char>,
)
    requires
        vendored_without_request(s),
        !is_tracking(trimmed(head)),
        vendored_without_request(t),
        t.package == after_vendor_and_pin(s, vendored, head).package,
    ensures
        !is_tracking(after_vendor_and_pin(s, vendored, head).package.commit),
        advance(t, EventView::Output(vendored2)).1 == ActionView::Run(
            StepView::ResetHard { dir: checkout_dir(t.package.name), commit: t.package.commit },
        ),
        after_vendor_and_pin(t, vendored2, pinned2).package.commit
            == after_vendor_and_pin(s, vendored, head).package.commit,
{
}

/// Installing a package that is already pinned to a concrete commit and
/// already has links changes nothing in it: its checkout is reset to that
/// commit, and the copy steps handed out are those of `install_plan`, the
/// same on every run.
pub proof fn lemma_install_idempotent(s: SessionView, vendored: Seq<char>, reset: Seq<char>)
    requires
        vendored_without_request(s),
        !is_tracking(s.package.commit),
        s.package.links.len() > 0,
    ensures
        advance(s, EventView::Output(vendored)).1 == ActionView::Run(
            StepView::ResetHard { dir: checkout_dir(s.package.name), commit: s.package.commit },
        ),
        after_vendor_and_pin(s, vendored, reset).package == s.package,
        after_vendor_and_pin(s, vendored, reset).plan == install_plan(s.package),
        advance(advance(s, EventView::Output(vendored)).0, EventView::Output(reset)).1
            == ActionView::Run(install_plan(s.package)[0]),
{
    assert(install_plan(s.package).len() > 0);
}

/// What holds of every state an install reaches: while pinning, the step
/// handed out is the one that the recorded commit calls for; while listing
/// and choosing, the commit is concrete and there are no links yet; while
/// copying and once done, the commit is concrete and there are links; the
/// remote is read back only for a package without a source repository.
pub open spec fn session_wf(s: SessionView) -> bool {
    &&& s.phase == Phase::Pin ==> s.pending == Some(pin_step_of(s.package.name, s.package.commit))
    &&& (s.phase == Phase::List || s.phase == Phase::Choose) ==> !is_tracking(s.package.commit)
        && s.package.links.len() == 0
    &&& (s.phase == Phase::Copy || s.phase == Phase::Done) ==> !is_tracking(s.package.commit)
        && s.package.links.len() > 0
    &&& (s.phase == Phase::Vendor && s.pending matches Some(StepView::ReadOrigin { .. }))
        ==> s.package.repository.len() == 0
}

/// A package that an install without a requested commit has nothing to add
/// to: a source repository, a concrete commit and links.
pub open spec fn settled(p: PackageView) -> bool {
    &&& p.repository.len() > 0
    &&& !is_tracking(p.commit)
    &&& p.links.len() > 0
}

/// Without a requested commit, a settled package `p` stays as it is.
pub open spec fn keeps_package(s: SessionView, p: PackageView) -> bool {
    s.requested is None && settled(p) ==> s.package == p
}

/// Without a requested commit, a package pinned to the concrete commit `c`
/// stays pinned to it.
pub open spec fn keeps_pin(s: SessionView, c: Seq<char>) -> bool {
    s.requested is None && !is_tracking(c) ==> s.package.commit == c
}

/// The state an install reaches after the events `es`, in order.
pub open spec fn run_session(s: SessionView, es: Seq<EventView>) -> SessionView
    decreases es.len(),
{
    if es.len() == 0 {
        s
    } else {
        run_session(advance(s, es[0]).0, es.drop_first())
    }
}

proof fn lemma_advance_preserves(s: SessionView, e: EventView, c: Seq<char>, p0: PackageView)
    requires
        session_wf(s),
        keeps_pin(s, c),
        keeps_package(s, p0),
    ensures
        session_wf(advance(s, e).0),
        keeps_pin(advance(s, e).0, c),
        keeps_package(advance(s, e).0, p0),
        advance(s, e).1 is Finished ==> advance(s, e).0.phase == Phase::Done,
        advance(s, e).0.requested == s.requested,
{
    let p = s.package;
    assert(forall|q: PackageView| q.links.len() > 0 ==> #[trigger] install_plan(q).len() > 0);
    match e {
        EventView::Chosen(chosen) => {
            assert(addon_links(chosen).len() == chosen.len());
        },
        _ => {},
    }
}

proof fn lemma_run_preserves(s: SessionView, es: Seq<EventView>, c: Seq<char>, p0: PackageView)
    requires
        session_wf(s),
        keeps_pin(s, c),
        keeps_package(s, p0),
    ensures
        session_wf(run_session(s, es)),
        keeps_pin(run_session(s, es), c),
        keeps_package(run_session(s, es), p0),
        run_session(s, es).requested == s.requested,
    decreases es.len(),
{
    if es.len() > 0 {
        lemma_advance_preserves(s, es[0], c, p0);
        lemma_run_preserves(advance(s, es[0]).0, es.drop_first(), c, p0);
    }
}

/// An install that gets done leaves its package pinned to a concrete commit
/// and with at least one link, whatever it started from and whatever events
/// led there.
pub proof fn lemma_done_is_pinned_and_linked(p: PackageView, requested: Option<Seq<char>>, es: Seq<EventView>)
    ensures
        run_session(fresh_session(p, requested), es).phase == Phase::Done ==> !is_tracking(
            run_session(fresh_session(p, requested), es).package.commit,
        ) && run_session(fresh_session(p, requested), es).package.links.len() > 0,
{
    lemma_run_preserves(fresh_session(p, requested), es, p.commit, p);
}

/// An install without a requested commit never moves a concrete pin, on any
/// sequence of events: a second install reuses the commit that the first
/// one fixed.
pub proof fn lemma_install_keeps_pin(p: PackageView, es: Seq<EventView>)
    requires
        !is_tracking(p.commit),
    ensures
        run_session(fresh_session(p, None), es).package.commit == p.commit,
{
    lemma_run_preserves(fresh_session(p, None), es, p.commit, p);
}

/// An install without a requested commit leaves a settled package exactly
/// as it was, on any sequence of events.
pub proof fn lemma_install_keeps_settled(p: PackageView, es: Seq<EventView>)
    requires
        settled(p),
    ensures
        run_session(fresh_session(p, None), es).package == p,
{
    lemma_run_preserves(fresh_session(p, None), es, p.commit, p);
}

/// What a finished install made of the package `p`: a concrete commit and
/// links; a concrete commit of `p` kept; a settled `p` kept whole.
pub open spec fn installed_from(d: PackageView, p: PackageView) -> bool {
    &&& !is_tracking(d.commit)
    &&& d.links.len() > 0
    &&& !is_tracking(p.commit) ==> d.commit == p.commit
    &&& settled(p) ==> d == p
}

/// What holds of every state of a run over the packages `ps`.
pub open spec fn run_wf(r: RunView, ps: Seq<PackageView>) -> bool {
    &&& r.done.len() <= ps.len()
    &&& forall|k: int| 0 <= k < r.done.len() ==> installed_from(#[trigger] r.done[k], ps[k])
    &&& r.status == RunStatus::Running ==> {
        &&& r.done.len() < ps.len()
        &&& r.waiting == ps.subrange(r.done.len() as int + 1, ps.len() as int)
        &&& r.current matches Some(cs) && session_wf(cs) && cs.requested is None
            && keeps_pin(cs, ps[r.done.len() as int].commit) && keeps_package(cs, ps[r.done.len() as int])
    }
    &&& r.status == RunStatus::Complete ==> r.done.len() == ps.len()
}

/// The state a run reaches after the events `es`, in order.
pub open spec fn run_all(r: RunView, es: Seq<EventView>) -> RunView
    decreases es.len(),
{
    if es.len() == 0 {
        r
    } else {
        run_all(run_advance(r, es[0]).0, es.drop_first())
    }
}

proof fn lemma_start_next_wf(done: Seq<PackageView>, ps: Seq<PackageView>)
    requires
        done.len() <= ps.len(),
        forall|k: int| 0 <= k < done.len() ==> installed_from(#[trigger] done[k], ps[k]),
    ensures
        run_wf(start_next(done, ps.subrange(done.len() as int, ps.len() as int)).0, ps),
{
    let waiting = ps.subrange(done.len() as int, ps.len() as int);
    if waiting.len() > 0 {
        assert(waiting[0] == ps[done.len() as int]);
        assert(waiting.drop_first() =~= ps.subrange(done.len() as int + 1, ps.len() as int));
    }
}

proof fn lemma_run_advance_wf(r: RunView, e: EventView, ps: Seq<PackageView>)
    requires
        run_wf(r, ps),
    ensures
        run_wf(run_advance(r, e).0, ps),
{
    if r.status == RunStatus::Running {
        let cs = r.current->Some_0;
        let i = r.done.len() as int;
        lemma_advance_preserves(cs, e, ps[i].commit, ps[i]);
        let (cs2, a) = advance(cs, e);
        if a is Finished {
            let done2 = r.done.push(cs2.package);
            assert(installed_from(done2[i], ps[i]));
            assert forall|k: int| 0 <= k < done2.len() implies installed_from(#[trigger] done2[k], ps[k]) by {
                if k < i {
                    assert(done2[k] == r.done[k]);
                }
            }
            lemma_start_next_wf(done2, ps);
            assert(ps.subrange(done2.len() as int, ps.len() as int) == r.waiting);
        }
    }
}

proof fn lemma_run_all_wf(r: RunView, es: Seq<EventView>, ps: Seq<PackageView>)
    requires
        run_wf(r, ps),
    ensures
        run_wf(run_all(r, es), ps),
    decreases es.len(),
{
    if es.len() > 0 {
        lemma_run_advance_wf(r, es[0], ps);
        lemma_run_all_wf(run_advance(r, es[0]).0, es.drop_first(), ps);
    }
}

/// A run over the packages `ps` that completes, whatever events led there,
/// has installed each of them in order: each with a concrete commit and
/// links, a concrete commit kept, a settled package kept whole. So a second
/// run over what a first run left pins the same commits, and over settled
/// packages gives back the manifest unchanged.
pub proof fn lemma_run_complete(ps: Seq<PackageView>, es: Seq<EventView>)
    ensures
        run_all(start_next(Seq::empty(), ps).0, es).status == RunStatus::Complete ==> {
            let done = run_all(start_next(Seq::empty(), ps).0, es).done;
            &&& done.len() == ps.len()
            &&& forall|k: int| 0 <= k < ps.len() ==> installed_from(#[trigger] done[k], ps[k])
            &&& (forall|k: int| 0 <= k < ps.len() ==> settled(#[trigger] ps[k])) ==> done == ps
        },
{
    assert(ps.subrange(0, ps.len() as int) =~= ps);
    lemma_start_next_wf(Seq::empty(), ps);
    let r = run_all(start_next(Seq::empty(), ps).0, es);
    lemma_run_all_wf(start_next(Seq::empty(), ps).0, es, ps);
    if r.status == RunStatus::Complete && (forall|k: int| 0 <= k < ps.len() ==> settled(#[trigger] ps[k])) {
        assert forall|k: int| 0 <= k < ps.len() implies r.done[k] == ps[k] by {
            assert(installed_from(r.done[k], ps[k]));
        }
        assert(r.done =~= ps);
    }
}

} // verus!
