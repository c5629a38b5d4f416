use crate::editor_context::{EditorContext, EditorContextView};
use crate::message::{Message, MessageView};
use tokio::sync::mpsc::UnboundedSender;
use vstd::prelude::*;

verus! {

/// How accepted code enters the editor.
#[derive(Clone, Copy, Debug, PartialEq, Eq, Structural)]
pub enum AcceptType {
    /// After what the editor context covers.
    Append,
    /// In place of what the editor context covers.
    Replace,
}

/// Work that a command hands to whoever listens on the action channel.
#[derive(Debug, PartialEq, Eq)]
pub enum Action {
    /// Put these messages on the clipboard.
    CopyMessages(Vec<Message>),
    /// Write this code into the editor, at the place that the context names.
    AcceptCodeBlock(Option<EditorContext>, String, AcceptType),
}

/// The mathematical content of an [`Action`].
pub enum ActionView {
    CopyMessages(Seq<MessageView>),
    AcceptCodeBlock(Option<EditorContextView>, Seq<char>, AcceptType),
}

impl View for Action {
    type V = ActionView;

    open spec fn view(&self) -> ActionView {
        match self {
            Action::CopyMessages(messages) => ActionView::CopyMessages(messages.deep_view()),
            Action::AcceptCodeBlock(context, code, accept_type) => ActionView::AcceptCodeBlock(
                context.deep_view(),
                code@,
                *accept_type,
            ),
        }
    }
}

impl DeepView for Action {
    type V = ActionView;

    open spec fn deep_view(&self) -> ActionView {
        self.view()
    }
}

/// tokio's `UnboundedSender`, the sending half of a channel without bound. The session is
/// handed one and passes it on; it never looks inside.
#[verifier::external_type_specification]
#[verifier::external_body]
#[verifier::reject_recursive_types(T)]
pub struct ExUnboundedSender<T>(UnboundedSender<T>);

/// Hands `action` to `UnboundedSender::send` and says whether it was taken. The channel
/// refuses a message once its receiving half is closed or dropped, which nothing on this
/// side can foresee: nothing is claimed of the answer.
#[verifier::external_body]
pub(crate) fn send_action(tx: &UnboundedSender<Action>, action: Action) -> (delivered: bool) {
    tx.send(action).is_ok()
}

} // verus!
