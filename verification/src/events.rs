use crate::editor_context::{EditorContext, EditorContextView};
use crate::message::Author;
use vstd::prelude::*;

verus! {

/// One piece of a reply, as the backend streams it.
#[derive(Debug, PartialEq, Eq)]
pub struct BackendResponse {
    pub author: Author,
    pub text: String,
    /// Whether the reply ends with this piece.
    pub done: bool,
    /// The token that carries the conversation into the next turn; only the last piece
    /// brings one.
    pub context: Option<String>,
}

/// The mathematical content of a [`BackendResponse`].
pub struct BackendResponseView {
    pub author: Author,
    pub text: Seq<char>,
    pub done: bool,
    pub context: Option<Seq<char>>,
}

impl View for BackendResponse {
    type V = BackendResponseView;

    open spec fn view(&self) -> BackendResponseView {
        BackendResponseView {
            author: self.author,
            text: self.text@,
            done: self.done,
            context: self.context.deep_view(),
        }
    }
}

/// What probing the backend brought to light.
#[derive(Debug, PartialEq, Eq)]
pub enum BackendProbe {
    /// The health check failed; the text is the failure.
    Unreachable(String),
    /// The backend answers, and these are its models.
    Models(Vec<String>),
}

/// The mathematical content of a [`BackendProbe`].
pub enum BackendProbeView {
    Unreachable(Seq<char>),
    Models(Seq<Seq<char>>),
}

impl View for BackendProbe {
    type V = BackendProbeView;

    open spec fn view(&self) -> BackendProbeView {
        match self {
            BackendProbe::Unreachable(failure) => BackendProbeView::Unreachable(failure@),
            BackendProbe::Models(models) => BackendProbeView::Models(models.deep_view()),
        }
    }
}

/// What probing the editor brought to light, in the order of the questions asked: is there
/// such an editor, is it healthy, does it hand over code.
#[derive(Debug, PartialEq, Eq)]
pub enum EditorProbe {
    /// No editor goes by the configured name.
    NotFound,
    /// The health check failed; the text is the failure.
    Unhealthy(String),
    /// The editor is healthy and asking for its code failed; the text is the failure.
    Failed(String),
    /// The editor is healthy and has no code to offer.
    NoContext,
    /// The editor is healthy, and this is its code.
    Context(EditorContext),
}

/// The mathematical content of an [`EditorProbe`].
pub enum EditorProbeView {
    NotFound,
    Unhealthy(Seq<char>),
    Failed(Seq<char>),
    NoContext,
    Context(EditorContextView),
}

impl View for EditorProbe {
    type V = EditorProbeView;

    open spec fn view(&self) -> EditorProbeView {
        match self {
            EditorProbe::NotFound => EditorProbeView::NotFound,
            EditorProbe::Unhealthy(failure) => EditorProbeView::Unhealthy(failure@),
            EditorProbe::Failed(failure) => EditorProbeView::Failed(failure@),
            EditorProbe::NoContext => EditorProbeView::NoContext,
            EditorProbe::Context(context) => EditorProbeView::Context(context@),
        }
    }
}

} // verus!
