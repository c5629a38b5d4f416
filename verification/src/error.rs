use vstd::prelude::*;
use vstd::string::*;

verus! {

/// Why an operation on the session gave up.
#[derive(Debug, PartialEq, Eq)]
pub enum StateError {
    /// No editor is configured.
    EditorNotSet,
    /// The configured editor is not one that can be reached.
    EditorNotFound,
    /// The editor is healthy and has no code to offer.
    NoContext,
    /// The editor is healthy and failed to hand over its code; the text is its complaint.
    ContextUnavailable(String),
    /// Nobody listens on the action channel any more.
    ChannelClosed,
}

/// The mathematical content of a [`StateError`].
pub enum StateErrorView {
    EditorNotSet,
    EditorNotFound,
    NoContext,
    ContextUnavailable(Seq<char>),
    ChannelClosed,
}

impl View for StateError {
    type V = StateErrorView;

    open spec fn view(&self) -> StateErrorView {
        match self {
            StateError::EditorNotSet => StateErrorView::EditorNotSet,
            StateError::EditorNotFound => StateErrorView::EditorNotFound,
            StateError::NoContext => StateErrorView::NoContext,
            StateError::ContextUnavailable(complaint) => StateErrorView::ContextUnavailable(
                complaint@,
            ),
            StateError::ChannelClosed => StateErrorView::ChannelClosed,
        }
    }
}

impl StateErrorView {
    /// The error in words.
    pub open spec fn describe(self) -> Seq<char> {
        match self {
            StateErrorView::EditorNotSet => "Editor name not set."@,
            StateErrorView::EditorNotFound => "Failed to load editor from manager"@,
            StateErrorView::NoContext => "No editor context"@,
            StateErrorView::ContextUnavailable(complaint) => complaint,
            StateErrorView::ChannelClosed => "channel closed"@,
        }
    }

    /// Whether the error comes from how the session is configured.
    pub open spec fn is_config(self) -> bool {
        self is EditorNotSet || self is EditorNotFound
    }
}

impl StateError {
    /// The error in words.
    pub fn describe(&self) -> (text: String)
        ensures
            text@ == self@.describe(),
    {
        match self {
            StateError::EditorNotSet => String::from_str("Editor name not set."),
            StateError::EditorNotFound => String::from_str("Failed to load editor from manager"),
            StateError::NoContext => String::from_str("No editor context"),
            StateError::ContextUnavailable(complaint) => complaint.clone(),
            StateError::ChannelClosed => String::from_str("channel closed"),
        }
    }

    /// Whether the error comes from how the session is configured.
    pub fn is_config(&self) -> (yes: bool)
        ensures
            yes == self@.is_config(),
    {
        match self {
            StateError::EditorNotSet => true,
            StateError::EditorNotFound => true,
            _ => false,
        }
    }
}

} // verus!
