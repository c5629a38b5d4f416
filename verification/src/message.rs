use vstd::prelude::*;
use vstd::string::*;

verus! {

/// Who wrote a message.
#[derive(Clone, Copy, Debug, PartialEq, Eq, Structural)]
pub enum Author {
    User,
    Oatmeal,
    Model,
}

/// Whether a message is ordinary conversation or reports a problem.
#[derive(Clone, Copy, Debug, PartialEq, Eq, Structural)]
pub enum MessageType {
    Normal,
    Error,
}

/// One turn of the conversation.
#[derive(Debug, PartialEq, Eq)]
pub struct Message {
    pub author: Author,
    pub message_type: MessageType,
    pub text: String,
}

/// The mathematical content of a [`Message`].
pub struct MessageView {
    pub author: Author,
    pub message_type: MessageType,
    pub text: Seq<char>,
}

impl View for Message {
    type V = MessageView;

    open spec fn view(&self) -> MessageView {
        MessageView { author: self.author, message_type: self.message_type, text: self.text@ }
    }
}

impl DeepView for Message {
    type V = MessageView;

    open spec fn deep_view(&self) -> MessageView {
        self.view()
    }
}

impl Clone for Message {
    fn clone(&self) -> (copy: Self)
        ensures
            copy == *self,
    {
        Message { author: self.author, message_type: self.message_type, text: self.text.clone() }
    }
}

impl MessageView {
    /// A message of type `Normal`.
    pub open spec fn normal(author: Author, text: Seq<char>) -> MessageView {
        MessageView { author, message_type: MessageType::Normal, text }
    }

    /// A message of type `Error` written by the narrator.
    pub open spec fn narrator_error(text: Seq<char>) -> MessageView {
        MessageView { author: Author::Oatmeal, message_type: MessageType::Error, text }
    }

    /// The same message with `more` added at the end of its text.
    pub open spec fn append(self, more: Seq<char>) -> MessageView {
        MessageView { text: self.text + more, ..self }
    }
}

impl Message {
    /// A message of type `Normal` with the given text.
    pub fn new(author: Author, text: &str) -> (message: Message)
        ensures
            message@ == MessageView::normal(author, text@),
    {
        Message { author, message_type: MessageType::Normal, text: String::from_str(text) }
    }

    /// A message of the given type with the given text.
    pub fn new_with_type(author: Author, message_type: MessageType, text: &str) -> (message:
        Message)
        ensures
            message@ == (MessageView { author, message_type, text: text@ }),
    {
        Message { author, message_type, text: String::from_str(text) }
    }

    /// Adds `more` at the end of the text. Author and type stay as they are.
    pub fn append(&mut self, more: &str)
        ensures
            final(self)@ == old(self)@.append(more@),
    {
        self.text.append(more);
    }
}

} // verus!
