//! What can go wrong outside of answering a request.

use vstd::prelude::*;

verus! {

/// A failure of the server as a whole.
#[derive(Clone, Debug, PartialEq, Eq, Hash)]
pub enum Error {
    /// An input or output operation failed.
    Io {
        /// What the operation was on.
        desc: &'static str,
        /// What the operation was.
        op: &'static str,
        /// What more is known of the failure.
        more: Option<&'static str>,
    },
}

/// An `Error` as a mathematical value.
pub enum ErrorView {
    Io { desc: Seq<char>, op: Seq<char>, more: Option<Seq<char>> },
}

impl View for Error {
    type V = ErrorView;

    open spec fn view(&self) -> ErrorView {
        match self {
            Error::Io { desc, op, more } => ErrorView::Io {
                desc: desc@,
                op: op@,
                more: match more {
                    Some(text) => Some(text@),
                    None => None,
                },
            },
        }
    }
}

} // verus!
