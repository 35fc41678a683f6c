use vstd::prelude::*;

use crate::error::{GlamError, GlamErrorView};

verus! {

/// One piece of outside work, run from the host project's root. Paths are
/// relative to that root.
#[derive(Debug)]
pub enum Step {
    /// Clone `repository` into the directory `dir`.
    Clone { repository: String, dir: String },
    /// Read the URL of the remote `origin` of the checkout in `dir`.
    ReadOrigin { dir: String },
    /// Fetch `origin` and fast-forward the checkout in `dir`.
    Fetch { dir: String },
    /// Read the commit that the checkout in `dir` has checked out.
    ReadHead { dir: String },
    /// Hard-reset the checkout in `dir` to `commit`.
    ResetHard { dir: String, commit: String },
    /// Start an empty repository in `dir`.
    InitRepository { dir: String },
    /// List the subdirectories of `dir`, one per line.
    ListDirs { dir: String },
    /// Create `path` and its missing parents.
    MakeDir { path: String },
    /// Write `contents` to the file `path`.
    WriteFile { path: String, contents: String },
    /// Remove every entry of the directory `path`.
    ClearContents { path: String },
    /// Copy every entry of the directory `from` into `to`, overwriting.
    CopyContents { from: String, to: String },
}

pub enum StepView {
    Clone { repository: Seq<char>, dir: Seq<char> },
    ReadOrigin { dir: Seq<char> },
    Fetch { dir: Seq<char> },
    ReadHead { dir: Seq<char> },
    ResetHard { dir: Seq<char>, commit: Seq<char> },
    InitRepository { dir: Seq<char> },
    ListDirs { dir: Seq<char> },
    MakeDir { path: Seq<char> },
    WriteFile { path: Seq<char>, contents: Seq<char> },
    ClearContents { path: Seq<char> },
    CopyContents { from: Seq<char>, to: Seq<char> },
}

impl View for Step {
    type V = StepView;

    open spec fn view(&self) -> StepView {
        match self {
            Step::Clone { repository, dir } => StepView::Clone { repository: repository@, dir: dir@ },
            Step::ReadOrigin { dir } => StepView::ReadOrigin { dir: dir@ },
            Step::Fetch { dir } => StepView::Fetch { dir: dir@ },
            Step::ReadHead { dir } => StepView::ReadHead { dir: dir@ },
            Step::ResetHard { dir, commit } => StepView::ResetHard { dir: dir@, commit: commit@ },
            Step::InitRepository { dir } => StepView::InitRepository { dir: dir@ },
            Step::ListDirs { dir } => StepView::ListDirs { dir: dir@ },
            Step::MakeDir { path } => StepView::MakeDir { path: path@ },
            Step::WriteFile { path, contents } => StepView::WriteFile { path: path@, contents: contents@ },
            Step::ClearContents { path } => StepView::ClearContents { path: path@ },
            Step::CopyContents { from, to } => StepView::CopyContents { from: from@, to: to@ },
        }
    }
}

pub open spec fn steps_view(v: Seq<Step>) -> Seq<StepView> {
    v.map_values(|s: Step| s@)
}

/// The error that a failure of `step`, reported as `message`, stands for.
pub open spec fn failure_of(step: StepView, message: Seq<char>) -> GlamErrorView {
    match step {
        StepView::Clone { .. } => GlamErrorView::CloneFailed(message),
        StepView::ReadOrigin { .. } => GlamErrorView::NoOrigin,
        StepView::Fetch { .. } => GlamErrorView::FetchFailed(message),
        StepView::ReadHead { .. } => GlamErrorView::CheckoutFailed(message),
        StepView::ResetHard { .. } => GlamErrorView::CheckoutFailed(message),
        StepView::ListDirs { .. } => GlamErrorView::NoAddonFound,
        StepView::MakeDir { .. } => GlamErrorView::CopyFailed(message),
        StepView::ClearContents { .. } => GlamErrorView::CopyFailed(message),
        StepView::CopyContents { .. } => GlamErrorView::CopyFailed(message),
        StepView::InitRepository { .. } => GlamErrorView::IoError(message),
        StepView::WriteFile { .. } => GlamErrorView::IoError(message),
    }
}

impl Step {
    pub fn duplicate(&self) -> (r: Step)
        ensures
            r@ == self@,
    {
        match self {
            Step::Clone { repository, dir } => Step::Clone { repository: repository.clone(), dir: dir.clone() },
            Step::ReadOrigin { dir } => Step::ReadOrigin { dir: dir.clone() },
            Step::Fetch { dir } => Step::Fetch { dir: dir.clone() },
            Step::ReadHead { dir } => Step::ReadHead { dir: dir.clone() },
            Step::ResetHard { dir, commit } => Step::ResetHard { dir: dir.clone(), commit: commit.clone() },
            Step::InitRepository { dir } => Step::InitRepository { dir: dir.clone() },
            Step::ListDirs { dir } => Step::ListDirs { dir: dir.clone() },
            Step::MakeDir { path } => Step::MakeDir { path: path.clone() },
            Step::WriteFile { path, contents } => Step::WriteFile { path: path.clone(), contents: contents.clone() },
            Step::ClearContents { path } => Step::ClearContents { path: path.clone() },
            Step::CopyContents { from, to } => Step::CopyContents { from: from.clone(), to: to.clone() },
        }
    }

    /// The error to report when this step fails with `message`.
    pub fn failure(&self, message: String) -> (r: GlamError)
        ensures
            r@ == failure_of(self@, message@),
    {
        match self {
            Step::Clone { .. } => GlamError::CloneFailed(message),
            Step::ReadOrigin { .. } => GlamError::NoOrigin,
            Step::Fetch { .. } => GlamError::FetchFailed(message),
            Step::ReadHead { .. } => GlamError::CheckoutFailed(message),
            Step::ResetHard { .. } => GlamError::CheckoutFailed(message),
            Step::ListDirs { .. } => GlamError::NoAddonFound,
            Step::MakeDir { .. } => GlamError::CopyFailed(message),
            Step::ClearContents { .. } => GlamError::CopyFailed(message),
            Step::CopyContents { .. } => GlamError::CopyFailed(message),
            Step::InitRepository { .. } => GlamError::IoError(message),
            Step::WriteFile { .. } => GlamError::IoError(message),
        }
    }
}

} // verus!
