//! What the handler is set up with.

use vstd::prelude::*;

verus! {

/// The two HTML templates that the pages are made from.
#[derive(Clone, Debug, PartialEq, Eq, PartialOrd, Ord, Hash)]
pub struct Templates {
    /// The page for an error. Its substitutions are the title, a short
    /// message and a paragraph of detail, which may be empty.
    pub error: String,
    /// The page for a directory listing. Its substitutions are the path that
    /// the listing is shown under and the list items.
    pub directory_listing: String,
}

/// The directory that is served: the name under which it is exposed, which
/// may be empty, and its path in the file system.
#[derive(Clone, Debug, PartialEq, Eq, PartialOrd, Ord, Hash)]
pub struct HostedDirectory {
    pub alias: String,
    pub path: String,
}

/// The settings of a server.
#[derive(Clone, Debug, PartialEq, Eq, PartialOrd, Ord, Hash)]
pub struct Options {
    pub hosted_directory: HostedDirectory,
    /// Whether symbolic links may be followed.
    pub follow_symlinks: bool,
    pub templates: Templates,
}

/// The settings of a handler as mathematical values.
pub struct ConfigView {
    pub alias: Seq<char>,
    pub root: Seq<char>,
    pub follow_symlinks: bool,
    pub error_template: Seq<char>,
    pub listing_template: Seq<char>,
}

impl View for Options {
    type V = ConfigView;

    open spec fn view(&self) -> ConfigView {
        ConfigView {
            alias: self.hosted_directory.alias@,
            root: self.hosted_directory.path@,
            follow_symlinks: self.follow_symlinks,
            error_template: self.templates.error@,
            listing_template: self.templates.directory_listing@,
        }
    }
}

} // verus!
