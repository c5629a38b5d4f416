use crate::action::ActionView;
use crate::code_blocks::resolve_blocks;
use crate::events::{BackendResponseView, EditorProbeView};
use crate::message::{Author, MessageType, MessageView};
use crate::model::AppStateView;
use crate::notices::{editor_greeting, intro_message_view, missing_context_view};
use crate::slash_command::SlashCommandView;
use crate::text::starts_with;
use vstd::prelude::*;

verus! {

/// The session after each of `messages` was added in turn.
pub open spec fn add_messages(state: AppStateView, messages: Seq<MessageView>) -> AppStateView
    decreases messages.len(),
{
    if messages.len() == 0 {
        state
    } else {
        add_messages(state, messages.drop_last()).add_message(messages.last())
    }
}

/// Adding messages one by one lengthens the history by one each time and keeps what was
/// there: after them the history is the old one followed by the added ones. After every
/// single addition bubbles and scroll are up to date and the last rows are in view.
pub proof fn lemma_add_messages(state: AppStateView, messages: Seq<MessageView>)
    ensures
        add_messages(state, messages).messages == state.messages + messages,
        add_messages(state, messages).messages.len() == state.messages.len() + messages.len(),
        forall|n: int|
            0 < n <= messages.len() ==> {
                let then = #[trigger] add_messages(state, messages.take(n));
                then.synced() && then.scroll.position == then.scroll.bottom()
                    && then.messages.len() == state.messages.len() + n
            },
    decreases messages.len(),
{
    if messages.len() == 0 {
        assert(state.messages + messages =~= state.messages);
    } else {
        let shorter = messages.drop_last();
        lemma_add_messages(state, shorter);
        assert(add_messages(state, messages).messages =~= state.messages + messages);
        assert forall|n: int| 0 < n <= messages.len() implies {
            let then = #[trigger] add_messages(state, messages.take(n));
            then.synced() && then.scroll.position == then.scroll.bottom() && then.messages.len()
                == state.messages.len() + n
        } by {
            if n == messages.len() {
                assert(messages.take(n) == messages);
            } else {
                assert(messages.take(n) == shorter.take(n));
            }
        }
    }
}

/// Bringing bubbles and scroll up to date twice gives what doing it once gives, and it
/// leaves a session alone in which nothing is stale.
pub proof fn lemma_sync_is_idempotent(state: AppStateView)
    ensures
        state.sync_dependants().sync_dependants() == state.sync_dependants(),
        state.sync_dependants().synced(),
        state.synced() ==> state.sync_dependants() == state,
{
}

/// Every operation that changes the session leaves bubbles and scroll up to date, whatever
/// it started from.
pub proof fn lemma_operations_leave_nothing_stale(
    state: AppStateView,
    message: MessageView,
    width: u16,
    height: u16,
    clear_context: bool,
    session_id: Seq<char>,
    chunk: BackendResponseView,
)
    ensures
        state.add_message(message).synced(),
        state.set_rect(width, height).synced(),
        state.reset_state(clear_context, session_id).synced(),
        state.handle_backend_response(chunk).synced(),
{
}

/// A session that is fit for use stays so under every operation: its history never
/// empties and its bubbles and scroll never go stale.
pub proof fn lemma_operations_keep_session_fit(
    state: AppStateView,
    message: MessageView,
    width: u16,
    height: u16,
    clear_context: bool,
    session_id: Seq<char>,
    chunk: BackendResponseView,
    line: Seq<char>,
    editor_name: Seq<char>,
    editor: EditorProbeView,
)
    requires
        state.wf(),
    ensures
        state.add_message(message).wf(),
        state.set_rect(width, height).wf(),
        state.reset_state(clear_context, session_id).wf(),
        state.handle_backend_response(chunk).wf(),
        state.after_input(line, session_id).wf(),
        state.add_editor_context(editor_name, editor).0.wf(),
{
}

/// The first piece of a reply to the user starts one new message; a further piece
/// lengthens that message and adds none. Neither ends the waiting or touches the token
/// while the reply goes on.
pub proof fn lemma_pieces_fold_into_one_message(
    state: AppStateView,
    first: BackendResponseView,
    second: BackendResponseView,
)
    requires
        state.messages.len() > 0,
        state.messages.last().author == Author::User,
        first.author != Author::User,
        !first.done,
        !second.done,
    ensures
        state.handle_backend_response(first).messages == state.messages.push(
            MessageView::normal(first.author, first.text),
        ),
        state.handle_backend_response(first).handle_backend_response(second).messages
            == state.messages.push(MessageView::normal(first.author, first.text + second.text)),
        state.handle_backend_response(first).handle_backend_response(second).backend_context
            == state.backend_context,
        state.handle_backend_response(first).handle_backend_response(second).waiting_for_backend
            == state.waiting_for_backend,
{
    let once = state.handle_backend_response(first);
    assert(once.messages == state.messages.push(MessageView::normal(first.author, first.text)));
    let twice = once.handle_backend_response(second);
    assert(twice.messages =~= state.messages.push(
        MessageView::normal(first.author, first.text + second.text),
    ));
}

/// A last piece that brings no token to a session that has none adds, after its own text,
/// exactly one message: the narrator's warning. With a token at hand no message is added
/// beyond the reply.
pub proof fn lemma_last_piece_without_token(state: AppStateView, last: BackendResponseView)
    requires
        state.messages.len() > 0,
        last.done,
    ensures
        ({
            let after = state.handle_backend_response(last);
            let token = match last.context {
                Some(context) => context,
                None => state.backend_context,
            };
            &&& !after.waiting_for_backend
            &&& after.backend_context == token
            &&& token.len() == 0 ==> after.messages == state.fold_chunk(last).push(
                missing_context_view(),
            )
            &&& token.len() > 0 ==> after.messages == state.fold_chunk(last)
        }),
{
}

/// A piece of a reply leaves every message but the last as it was, and the last too where
/// the user wrote it; a last message by someone else is lengthened by the piece's text.
pub proof fn lemma_reply_touches_only_the_last_message(
    state: AppStateView,
    chunk: BackendResponseView,
)
    requires
        state.messages.len() > 0,
    ensures
        ({
            let after = state.handle_backend_response(chunk).messages;
            let last = state.messages.len() - 1;
            &&& after.len() >= state.messages.len()
            &&& forall|i: int| 0 <= i < last ==> #[trigger] after[i] == state.messages[i]
            &&& state.messages[last].author == Author::User ==> after[last] == state.messages[last]
            &&& state.messages[last].author != Author::User ==> after[last]
                == state.messages[last].append(chunk.text)
        }),
{
}

/// The backend's token changes only when the last piece of a reply brings one.
pub proof fn lemma_token_follows_last_piece(state: AppStateView, chunk: BackendResponseView)
    ensures
        state.handle_backend_response(chunk).backend_context == if chunk.done
            && chunk.context is Some {
            chunk.context->0
        } else {
            state.backend_context
        },
{
}

/// A reset that keeps the editor's code leaves one message, which begins with the
/// greeting that introduces code; a reset that clears it leaves no code and the plain
/// greeting. Either way token, exit warning and dimensions are cleared and the session has
/// the new identifier.
pub proof fn lemma_reset(state: AppStateView, session_id: Seq<char>)
    ensures
        state.editor_context is Some ==> {
            let after = state.reset_state(false, session_id);
            &&& after.messages.len() == 1
            &&& starts_with(after.messages[0].text, editor_greeting())
            &&& after.messages[0].author == Author::Model
            &&& after.editor_context == state.editor_context
        },
        state.editor_context is None ==> state.reset_state(false, session_id).messages
            == seq![intro_message_view()],
        state.reset_state(true, session_id).editor_context is None,
        state.reset_state(true, session_id).messages == seq![intro_message_view()],
        forall|clear_context: bool|
            {
                let after = #[trigger] state.reset_state(clear_context, session_id);
                &&& after.backend_context.len() == 0
                &&& !after.exit_warning
                &&& after.last_known_width == 0
                &&& after.last_known_height == 0
                &&& after.session_id == session_id
                &&& after.wf()
            },
{
    if state.editor_context is Some {
        let after = state.reset_state(false, session_id);
        let formatted = state.editor_context->0.format();
        assert(after.messages[0].text == editor_greeting() + formatted);
        assert((editor_greeting() + formatted).take(editor_greeting().len() as int)
            =~= editor_greeting());
    }
}

/// The words of the commands differ from one another.
pub proof fn lemma_command_words_differ()
    ensures
        "/quit"@ != "/append"@,
        "/quit"@ != "/replace"@,
        "/quit"@ != "/copy"@,
        "/quit"@ != "/model"@,
        "/quit"@ != "/new"@,
        "/new"@ != "/append"@,
        "/new"@ != "/replace"@,
        "/new"@ != "/copy"@,
        "/new"@ != "/model"@,
        "/model"@ != "/append"@,
        "/model"@ != "/replace"@,
        "/model"@ != "/copy"@,
        "/copy"@ != "/append"@,
        "/copy"@ != "/replace"@,
        "/append"@ != "/replace"@,
{
    reveal_strlit("/quit");
    reveal_strlit("/append");
    reveal_strlit("/replace");
    reveal_strlit("/copy");
    reveal_strlit("/model");
    reveal_strlit("/new");
    assert("/quit"@[1] == 'q');
    assert("/copy"@[1] == 'c');
    assert("/model"@[1] == 'm');
    assert("/append"@[1] == 'a');
    assert("/replace"@[1] == 'r');
    assert("/new"@[1] == 'n');
}

/// `/quit` asks to end the program and nothing else: the line is not held back from the
/// backend, no action is emitted and the session stays as it is.
pub proof fn lemma_quit(state: AppStateView, command: SlashCommandView, session_id: Seq<char>)
    requires
        command.is_quit(),
    ensures
        state.plan_command(command).should_terminate,
        !state.plan_command(command).should_skip_backend_send,
        state.plan_command(command).action is None,
        state.apply_change(state.plan_command(command).change, session_id) == state,
{
    lemma_command_words_differ();
}

/// `/new` does not end the program, is dealt with here, emits no action and starts the
/// conversation over. The editor's code is forgotten if and only if the first argument is
/// the word `clear`.
pub proof fn lemma_new(state: AppStateView, command: SlashCommandView, session_id: Seq<char>)
    requires
        command.is_new(),
    ensures
        !state.plan_command(command).should_terminate,
        state.plan_command(command).should_skip_backend_send,
        state.plan_command(command).action is None,
        ({
            let clear = command.args.len() > 0 && command.args[0] == "clear"@;
            let after = state.apply_change(state.plan_command(command).change, session_id);
            &&& after == state.reset_state(clear, session_id)
            &&& clear ==> after.editor_context is None
            &&& !clear ==> after.editor_context == state.editor_context
        }),
{
    lemma_command_words_differ();
}

/// Switching the model forgets the backend's token, whatever it was, and changes nothing
/// else. The line still goes to the backend, and no action is emitted.
pub proof fn lemma_model_switch_forgets_token(
    state: AppStateView,
    command: SlashCommandView,
    session_id: Seq<char>,
)
    requires
        command.is_model_set(),
    ensures
        !state.plan_command(command).should_terminate,
        !state.plan_command(command).should_skip_backend_send,
        state.plan_command(command).action is None,
        state.apply_change(state.plan_command(command).change, session_id) == (AppStateView {
            backend_context: Seq::empty(),
            ..state
        }),
{
    lemma_command_words_differ();
}

/// Among the commands only a model switch and a new conversation touch the backend's
/// token, and only a new conversation shortens the history.
pub proof fn lemma_other_commands_keep_token_and_history(
    state: AppStateView,
    command: SlashCommandView,
    session_id: Seq<char>,
)
    requires
        !command.is_new(),
    ensures
        ({
            let after = state.apply_change(state.plan_command(command).change, session_id);
            &&& !command.is_model_set() ==> after.backend_context == state.backend_context
            &&& after.messages.len() >= state.messages.len()
            &&& after.messages.take(state.messages.len() as int) == state.messages
            &&& after.session_id == state.session_id
            &&& after.editor_context == state.editor_context
        }),
{
    lemma_command_words_differ();
    let after = state.apply_change(state.plan_command(command).change, session_id);
    assert(after.messages.take(state.messages.len() as int) =~= state.messages);
}

/// A command about code blocks whose reference cannot be resolved emits no action and adds
/// exactly one message to the history: a warning by the narrator. The line is dealt with
/// here, and the session does not start to wait.
pub proof fn lemma_unresolved_blocks(
    state: AppStateView,
    command: SlashCommandView,
    session_id: Seq<char>,
)
    requires
        command.is_append_code_block() || command.is_replace_code_block()
            || command.is_copy_code_block(),
        resolve_blocks(state.codeblocks, command.args) is Err,
    ensures
        state.plan_command(command).action is None,
        state.plan_command(command).should_skip_backend_send,
        !state.plan_command(command).should_terminate,
        ({
            let after = state.apply_change(state.plan_command(command).change, session_id);
            &&& after.messages.len() == state.messages.len() + 1
            &&& after.messages.drop_last() == state.messages
            &&& after.messages.last().message_type == MessageType::Error
            &&& after.messages.last().author == Author::Oatmeal
            &&& after.waiting_for_backend == state.waiting_for_backend
        }),
{
    lemma_command_words_differ();
    let after = state.apply_change(state.plan_command(command).change, session_id);
    assert(after.messages.drop_last() =~= state.messages);
}

/// A command that copies emits one action, which carries messages, and leaves the session
/// waiting with the history as it was: the whole history for `/copy` alone, and one message
/// by the model that holds the resolved code for `/copy` with arguments.
pub proof fn lemma_copy(state: AppStateView, command: SlashCommandView, session_id: Seq<char>)
    requires
        command.is_copy_chat() || (command.is_copy_code_block() && resolve_blocks(
            state.codeblocks,
            command.args,
        ) is Ok),
    ensures
        state.plan_command(command).should_skip_backend_send,
        !state.plan_command(command).should_terminate,
        state.plan_command(command).action == Some(
            if command.is_copy_chat() {
                ActionView::CopyMessages(state.messages)
            } else {
                ActionView::CopyMessages(
                    seq![
                        MessageView::normal(
                            Author::Model,
                            resolve_blocks(state.codeblocks, command.args)->Ok_0,
                        ),
                    ],
                )
            },
        ),
        ({
            let after = state.apply_change(state.plan_command(command).change, session_id);
            &&& after.waiting_for_backend
            &&& after.messages == state.messages
            &&& after.synced()
        }),
{
    lemma_command_words_differ();
}

/// What is saved of a session comes back when the session is taken up again: token and
/// history are those that were saved, while waiting, exit warning and dimensions start
/// from nothing, whatever they were. This holds whenever taking up succeeds, that is
/// unless a healthy editor fails to hand over its code.
pub proof fn lemma_save_then_resume(
    state: AppStateView,
    session_id: Seq<char>,
    editor: EditorProbeView,
)
    requires
        !(editor is Failed),
    ensures
        AppStateView::from_session(session_id, state.save_session(), editor) is Ok,
        ({
            let resumed = AppStateView::from_session(
                session_id,
                state.save_session(),
                editor,
            )->Ok_0;
            &&& resumed.backend_context == state.backend_context
            &&& resumed.messages == state.messages
            &&& !resumed.waiting_for_backend
            &&& !resumed.exit_warning
            &&& resumed.last_known_width == 0
            &&& resumed.last_known_height == 0
            &&& resumed.session_id == session_id
            &&& resumed.synced()
        }),
{
}

} // verus!
