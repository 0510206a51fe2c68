//! What an attempt to listen on a port can come to, and what the search for
//! a free port does next.

use crate::error::{Error, ErrorView};
use vstd::prelude::*;

verus! {

/// What came of one attempt to listen on a port.
#[derive(Clone, Debug, PartialEq, Eq, Hash)]
pub enum BindAttempt {
    /// The server listens.
    Bound,
    /// The attempt failed, with the description of the failure.
    Failed(String),
}

/// A `BindAttempt` as a mathematical value.
pub enum BindAttemptView {
    Bound,
    Failed(Seq<char>),
}

impl DeepView for BindAttempt {
    type V = BindAttemptView;

    open spec fn deep_view(&self) -> BindAttemptView {
        match self {
            BindAttempt::Bound => BindAttemptView::Bound,
            BindAttempt::Failed(description) => BindAttemptView::Failed(description@),
        }
    }
}

/// What the search for a free port does next.
#[derive(Clone, Debug, PartialEq, Eq, Hash)]
pub enum PortStep {
    /// Try to listen on this port, and come back with what came of it.
    Try(u16),
    /// The search is over: the server listens on this port.
    Listening(u16),
    /// The search is over: the server cannot be started.
    Failed(Error),
}

/// A `PortStep` as a mathematical value.
pub enum PortStepView {
    Try(u16),
    Listening(u16),
    Failed(ErrorView),
}

impl View for PortStep {
    type V = PortStepView;

    open spec fn view(&self) -> PortStepView {
        match self {
            PortStep::Try(port) => PortStepView::Try(*port),
            PortStep::Listening(port) => PortStepView::Listening(*port),
            PortStep::Failed(error) => PortStepView::Failed(error@),
        }
    }
}

} // verus!
