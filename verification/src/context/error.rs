//! Failures of context building.
use vstd::prelude::*;

verus! {

/// Why a context could not be built.
#[derive(Debug, Clone, PartialEq, Eq)]
pub enum ContextError {
    SectionBuildFailed { section: &'static str, message: String },
    InvalidContext(String),
}

/// The contents of a [`ContextError`].
pub enum ContextErrorView {
    SectionBuildFailed { section: Seq<char>, message: Seq<char> },
    InvalidContext(Seq<char>),
}

impl DeepView for ContextError {
    type V = ContextErrorView;

    open spec fn deep_view(&self) -> ContextErrorView {
        match self {
            ContextError::SectionBuildFailed { section, message } => ContextErrorView::SectionBuildFailed {
                section: section@,
                message: message@,
            },
            ContextError::InvalidContext(m) => ContextErrorView::InvalidContext(m@),
        }
    }
}

/// A build outcome as text, with the error's contents.
pub open spec fn outcome_view(r: Result<String, ContextError>) -> Result<Seq<char>, ContextErrorView> {
    match r {
        Ok(s) => Ok(s@),
        Err(e) => Err(e.deep_view()),
    }
}

impl ContextError {
    /// The human-readable message of the error.
    pub fn to_string(&self) -> (r: String)
        ensures
            r@ == match self {
                ContextError::SectionBuildFailed { section, message } => "failed to build section '"@
                    + section@ + "': "@ + message@,
                ContextError::InvalidContext(m) => "invalid context: "@ + m@,
            },
    {
        match self {
            ContextError::SectionBuildFailed { section, message } => "failed to build section '".to_owned().concat(
                section,
            ).concat("': ").concat(message.as_str()),
            ContextError::InvalidContext(m) => "invalid context: ".to_owned().concat(m.as_str()),
        }
    }
}

} // verus!
