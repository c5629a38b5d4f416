use crate::code_blocks::{BlockError, BlockErrorView};
use crate::message::{Author, Message, MessageType, MessageView};
use vstd::prelude::*;
use vstd::string::*;

verus! {

/// What opens a conversation about code from the editor, before the code itself.
pub open spec fn editor_greeting() -> Seq<char> {
    "Hey there! Let's talk about the following: \n\n"@
}

/// The message that opens a conversation about `editor_context`, the editor's code as a
/// reader sees it.
pub open spec fn editor_message_view(editor_context: Seq<char>) -> MessageView {
    MessageView::normal(Author::Model, editor_greeting() + editor_context)
}

/// The message that opens a conversation about nothing in particular.
pub open spec fn intro_message_view() -> MessageView {
    MessageView::normal(Author::Model, "Hey there! What can I do for you?"@)
}

/// The warning that the backend does not answer.
pub open spec fn backend_down_view(backend_name: Seq<char>, failure: Seq<char>) -> MessageView {
    MessageView::narrator_error(
        "Hey, it looks like backend "@ + backend_name
            + " isn't running, I can't connect to it. You should double check that before we start talking, otherwise I may crash.\n\nError: "@
            + failure,
    )
}

/// The warning that the backend does not have the configured model.
pub open spec fn model_missing_view(
    model_name: Seq<char>,
    backend_name: Seq<char>,
) -> MessageView {
    MessageView::narrator_error(
        "Model "@ + model_name + " doesn't exist for backend "@ + backend_name
            + ". You can use `/modellist` to view all avaiable models, and `/model NAME` to switch models."@,
    )
}

/// The warning that the editor does not answer.
pub open spec fn editor_down_view(editor_name: Seq<char>, failure: Seq<char>) -> MessageView {
    MessageView::narrator_error(
        "Whoops, it looks like editor "@ + editor_name
            + " isn't setup properly. You should double check that before we start talking, otherwise I may crash.\n\nError: "@
            + failure,
    )
}

/// The warning that a reply ended without a token to carry the conversation on.
pub open spec fn missing_context_view() -> MessageView {
    MessageView::narrator_error(
        "Error: No context was provided by the backend upon completion. Please report this bug on Github."@,
    )
}

/// The warning that a command's reference to code blocks could not be resolved.
pub open spec fn command_error_view(error: BlockErrorView) -> MessageView {
    MessageView::narrator_error(
        "There was an error trying to parse your command:\n\n"@ + error.describe(),
    )
}

/// The message that opens a conversation about the editor's code.
pub fn editor_message(editor_context: String) -> (message: Message)
    ensures
        message@ == editor_message_view(editor_context@),
{
    let mut text = String::from_str("Hey there! Let's talk about the following: \n\n");
    text.append(editor_context.as_str());
    Message { author: Author::Model, message_type: MessageType::Normal, text }
}

/// The message that opens a conversation about nothing in particular.
pub fn intro_message() -> (message: Message)
    ensures
        message@ == intro_message_view(),
{
    Message::new(Author::Model, "Hey there! What can I do for you?")
}

/// The warning that the backend does not answer.
pub fn backend_down_message(backend_name: &str, failure: &str) -> (message: Message)
    ensures
        message@ == backend_down_view(backend_name@, failure@),
{
    let mut text = String::from_str("Hey, it looks like backend ");
    text.append(backend_name);
    text.append(
        " isn't running, I can't connect to it. You should double check that before we start talking, otherwise I may crash.\n\nError: ",
    );
    text.append(failure);
    Message { author: Author::Oatmeal, message_type: MessageType::Error, text }
}

/// The warning that the backend does not have the configured model.
pub fn model_missing_message(model_name: &str, backend_name: &str) -> (message: Message)
    ensures
        message@ == model_missing_view(model_name@, backend_name@),
{
    let mut text = String::from_str("Model ");
    text.append(model_name);
    text.append(" doesn't exist for backend ");
    text.append(backend_name);
    text.append(
        ". You can use `/modellist` to view all avaiable models, and `/model NAME` to switch models.",
    );
    Message { author: Author::Oatmeal, message_type: MessageType::Error, text }
}

/// The warning that the editor does not answer.
pub fn editor_down_message(editor_name: &str, failure: &str) -> (message: Message)
    ensures
        message@ == editor_down_view(editor_name@, failure@),
{
    let mut text = String::from_str("Whoops, it looks like editor ");
    text.append(editor_name);
    text.append(
        " isn't setup properly. You should double check that before we start talking, otherwise I may crash.\n\nError: ",
    );
    text.append(failure);
    Message { author: Author::Oatmeal, message_type: MessageType::Error, text }
}

/// The warning that a reply ended without a token to carry the conversation on.
pub fn missing_context_message() -> (message: Message)
    ensures
        message@ == missing_context_view(),
{
    Message::new_with_type(
        Author::Oatmeal,
        MessageType::Error,
        "Error: No context was provided by the backend upon completion. Please report this bug on Github.",
    )
}

/// The warning that a command's reference to code blocks could not be resolved.
pub fn command_error_message(error: &BlockError) -> (message: Message)
    ensures
        message@ == command_error_view(error@),
{
    let mut text = String::from_str("There was an error trying to parse your command:\n\n");
    text.append(error.describe().as_str());
    Message { author: Author::Oatmeal, message_type: MessageType::Error, text }
}

} // verus!
