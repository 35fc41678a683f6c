use vstd::prelude::*;

verus! {

/// Everything that can stop a command. Variants that carry a `String` hold
/// the text that the failing outside tool reported.
#[derive(Debug)]
pub enum GlamError {
    /// A package with the same name or the same source repository exists.
    DuplicatePackage,
    /// Another package already links the requested project folder.
    LinkTaken,
    /// No package has the requested name.
    PackageNotFound,
    /// The manifest holds a package record that cannot be read.
    ManifestCorrupt,
    /// The checkout exists but has no configured remote.
    NoOrigin,
    CloneFailed(String),
    FetchFailed(String),
    CheckoutFailed(String),
    /// The checkout has no directory under its `addons` area.
    NoAddonFound,
    /// A choice among several addon directories came back empty.
    NoSelection,
    CopyFailed(String),
    /// Writing a file or starting a repository failed.
    IoError(String),
    /// A package name is empty.
    InvalidName,
    /// A choice names an addon directory that was not offered, or names one
    /// twice.
    InvalidSelection,
    /// An install was handed an event that does not answer its last action.
    OutOfOrder,
}

pub enum GlamErrorView {
    DuplicatePackage,
    LinkTaken,
    PackageNotFound,
    ManifestCorrupt,
    NoOrigin,
    CloneFailed(Seq<char>),
    FetchFailed(Seq<char>),
    CheckoutFailed(Seq<char>),
    NoAddonFound,
    NoSelection,
    CopyFailed(Seq<char>),
    IoError(Seq<char>),
    InvalidName,
    InvalidSelection,
    OutOfOrder,
}

impl View for GlamError {
    type V = GlamErrorView;

    open spec fn view(&self) -> GlamErrorView {
        match self {
            GlamError::DuplicatePackage => GlamErrorView::DuplicatePackage,
            GlamError::LinkTaken => GlamErrorView::LinkTaken,
            GlamError::PackageNotFound => GlamErrorView::PackageNotFound,
            GlamError::ManifestCorrupt => GlamErrorView::ManifestCorrupt,
            GlamError::NoOrigin => GlamErrorView::NoOrigin,
            GlamError::CloneFailed(m) => GlamErrorView::CloneFailed(m@),
            GlamError::FetchFailed(m) => GlamErrorView::FetchFailed(m@),
            GlamError::CheckoutFailed(m) => GlamErrorView::CheckoutFailed(m@),
            GlamError::NoAddonFound => GlamErrorView::NoAddonFound,
            GlamError::NoSelection => GlamErrorView::NoSelection,
            GlamError::CopyFailed(m) => GlamErrorView::CopyFailed(m@),
            GlamError::IoError(m) => GlamErrorView::IoError(m@),
            GlamError::InvalidName => GlamErrorView::InvalidName,
            GlamError::InvalidSelection => GlamErrorView::InvalidSelection,
            GlamError::OutOfOrder => GlamErrorView::OutOfOrder,
        }
    }
}

} // verus!
