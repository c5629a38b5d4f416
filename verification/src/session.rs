use crate::editor_context::{EditorContext, EditorContextView};
use crate::message::{Message, MessageView};
use vstd::prelude::*;

verus! {

/// What of a conversation is kept in the session store.
#[derive(Debug, PartialEq, Eq)]
pub struct Session {
    pub session_id: String,
    pub backend_context: String,
    pub editor_context: Option<EditorContext>,
    pub messages: Vec<Message>,
}

/// The mathematical content of a [`Session`].
pub struct SessionView {
    pub session_id: Seq<char>,
    pub backend_context: Seq<char>,
    pub editor_context: Option<EditorContextView>,
    pub messages: Seq<MessageView>,
}

impl View for Session {
    type V = SessionView;

    open spec fn view(&self) -> SessionView {
        SessionView {
            session_id: self.session_id@,
            backend_context: self.backend_context@,
            editor_context: self.editor_context.deep_view(),
            messages: self.messages.deep_view(),
        }
    }
}

} // verus!
