//! What the caller found in the file system for one request.
//!
//! The handler itself reads no file. The caller walks the path that the
//! request names, with `path_components`, and hands over what it saw there.

use crate::listing::{DirEntry, DirEntryView};
use vstd::prelude::*;

verus! {

/// What stands at the end of the requested path.
#[derive(Clone, Debug, PartialEq, Eq, Hash)]
pub enum Target {
    /// Nothing.
    Missing,
    /// A plain file, with its bytes.
    File(Vec<u8>),
    /// Anything else, with its entries in the order they were read in.
    Directory(Vec<DirEntry>),
}

/// A `Target` as a mathematical value.
pub enum TargetView {
    Missing,
    File(Seq<u8>),
    Directory(Seq<DirEntryView>),
}

impl View for Target {
    type V = TargetView;

    open spec fn view(&self) -> TargetView {
        match self {
            Target::Missing => TargetView::Missing,
            Target::File(bytes) => TargetView::File(bytes@),
            Target::Directory(entries) => TargetView::Directory(entries.deep_view()),
        }
    }
}

/// What the caller found along the requested path and at its end.
#[derive(Clone, Debug, PartialEq, Eq, Hash)]
pub struct Snapshot {
    /// `links[d]` tells whether the hosted directory followed by the first
    /// `d` components of the path is a symbolic link. A depth that was not
    /// looked up counts as no link.
    pub links: Vec<bool>,
    pub target: Target,
}

/// A `Snapshot` as a mathematical value.
pub struct SnapshotView {
    pub links: Seq<bool>,
    pub target: TargetView,
}

impl View for Snapshot {
    type V = SnapshotView;

    open spec fn view(&self) -> SnapshotView {
        SnapshotView { links: self.links@, target: self.target@ }
    }
}

impl Snapshot {
    /// The snapshot of a caller that looked nothing up.
    pub fn nothing() -> (r: Snapshot)
        ensures
            r@ == (SnapshotView { links: Seq::empty(), target: TargetView::Missing }),
    {
        Snapshot { links: Vec::new(), target: Target::Missing }
    }
}

} // verus!
