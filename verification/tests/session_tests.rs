use oatmeal::action::{AcceptType, Action};
use oatmeal::app_state::{AppState, AppStateProps, CommandPlan, StateChange};
use oatmeal::editor_context::EditorContext;
use oatmeal::error::StateError;
use oatmeal::events::{BackendProbe, BackendResponse, EditorProbe};
use oatmeal::message::{Author, Message, MessageType};
use oatmeal::notices::{editor_message, intro_message};
use oatmeal::scroll::Scroll;
use oatmeal::session::Session;
use oatmeal::slash_command::SlashCommand;
use tokio::sync::mpsc::error::TryRecvError;
use tokio::sync::mpsc::unbounded_channel;

const GREETING: &str = "Hey there! What can I do for you?";
const CODE_GREETING: &str = "Hey there! Let's talk about the following: \n\n";

fn props() -> AppStateProps {
    AppStateProps {
        backend_name: "ollama".to_string(),
        editor_name: "neovim".to_string(),
        model_name: "llama".to_string(),
        theme_name: "base16-onedark".to_string(),
        theme_file: "".to_string(),
        session_id: None,
    }
}

fn healthy_backend() -> BackendProbe {
    BackendProbe::Models(vec!["mistral".to_string(), "llama".to_string()])
}

fn snippet() -> EditorContext {
    EditorContext {
        file_path: "src/lib.rs".to_string(),
        language: "rust".to_string(),
        code: "fn one() -> u8 { 1 }".to_string(),
        start_line: 3,
        end_line: Some(3),
    }
}

fn plain_session() -> AppState {
    AppState::init(&props(), "first".to_string(), healthy_backend(), EditorProbe::NoContext)
}

fn session_with_code() -> AppState {
    AppState::init(
        &props(),
        "first".to_string(),
        healthy_backend(),
        EditorProbe::Context(snippet()),
    )
}

fn chunk(text: &str, done: bool, context: Option<&str>) -> BackendResponse {
    BackendResponse {
        author: Author::Model,
        text: text.to_string(),
        done,
        context: context.map(|token| token.to_string()),
    }
}

fn session_with_blocks() -> AppState {
    let mut state = plain_session();
    state.add_message(Message::new(Author::User, "show me"));
    state.handle_backend_response(chunk("```\none\n```\n```\ntwo\n```", true, Some("token")));
    state
}

#[test]
fn init_seeds_the_greeting() {
    let state = plain_session();
    assert_eq!(state.messages, vec![Message::new(Author::Model, GREETING)]);
    assert_eq!(state.messages, vec![intro_message()]);
    assert_eq!(state.session_id, "first");
    assert_eq!(state.backend_context, "");
    assert_eq!(state.editor_context, None);
    assert!(!state.waiting_for_backend);
    assert!(!state.exit_warning);
    assert_eq!(state.last_known_width, 0);
    assert_eq!(state.last_known_height, 0);
    assert_eq!(state.codeblocks.codeblocks, Vec::<String>::new());
}

#[test]
fn init_leaves_nothing_stale() {
    let state = plain_session();
    assert_eq!(state.bubble_list.heights, vec![35]);
    assert_eq!(state.bubble_list.len(), 35);
    assert_eq!(state.scroll, Scroll { list_length: 35, position: 0, viewport_length: 0 });
}

#[test]
fn init_warns_of_unreachable_backend() {
    let state = AppState::init(
        &props(),
        "first".to_string(),
        BackendProbe::Unreachable("connection refused".to_string()),
        EditorProbe::NoContext,
    );
    assert_eq!(state.messages.len(), 2);
    assert_eq!(state.messages[0].author, Author::Oatmeal);
    assert_eq!(state.messages[0].message_type, MessageType::Error);
    assert_eq!(
        state.messages[0].text,
        "Hey, it looks like backend ollama isn't running, I can't connect to it. You should double check that before we start talking, otherwise I may crash.\n\nError: connection refused"
    );
    assert_eq!(state.messages[1], intro_message());
}

#[test]
fn init_warns_of_missing_model() {
    let state = AppState::init(
        &props(),
        "first".to_string(),
        BackendProbe::Models(vec!["mistral".to_string()]),
        EditorProbe::NoContext,
    );
    assert_eq!(state.messages.len(), 2);
    assert_eq!(state.messages[0].message_type, MessageType::Error);
    assert_eq!(
        state.messages[0].text,
        "Model llama doesn't exist for backend ollama. You can use `/modellist` to view all avaiable models, and `/model NAME` to switch models."
    );
    assert_eq!(state.messages[1], intro_message());
}

#[test]
fn init_presents_editor_code() {
    let state = session_with_code();
    assert_eq!(state.editor_context, Some(snippet()));
    assert_eq!(state.messages.len(), 1);
    assert_eq!(state.messages[0], editor_message(snippet().format()));
    assert_eq!(
        state.messages[0].text,
        "Hey there! Let's talk about the following: \n\nFile: src/lib.rs\n\n```rust\nfn one() -> u8 { 1 }\n```"
    );
}

#[test]
fn init_warns_of_unhealthy_editor_without_greeting() {
    let state = AppState::init(
        &props(),
        "first".to_string(),
        healthy_backend(),
        EditorProbe::Unhealthy("no socket".to_string()),
    );
    assert_eq!(state.messages.len(), 1);
    assert_eq!(state.messages[0].message_type, MessageType::Error);
    assert_eq!(
        state.messages[0].text,
        "Whoops, it looks like editor neovim isn't setup properly. You should double check that before we start talking, otherwise I may crash.\n\nError: no socket"
    );
    assert_eq!(state.editor_context, None);
}

#[test]
fn init_greets_when_editor_gives_no_code() {
    for probe in [
        EditorProbe::NotFound,
        EditorProbe::NoContext,
        EditorProbe::Failed("timeout".to_string()),
    ] {
        let state = AppState::init(&props(), "first".to_string(), healthy_backend(), probe);
        assert_eq!(state.messages, vec![intro_message()]);
        assert_eq!(state.editor_context, None);
    }
}

#[test]
fn init_without_editor_greets_whatever_the_probe() {
    let mut without_editor = props();
    without_editor.editor_name = "".to_string();
    let state = AppState::init(
        &without_editor,
        "first".to_string(),
        healthy_backend(),
        EditorProbe::Context(snippet()),
    );
    assert_eq!(state.messages, vec![intro_message()]);
    assert_eq!(state.editor_context, None);
}

#[test]
fn add_editor_context_reports_each_error() {
    let mut state = plain_session();
    let before = plain_session();
    assert_eq!(
        state.add_editor_context("", EditorProbe::Context(snippet())),
        Err(StateError::EditorNotSet)
    );
    assert_eq!(
        state.add_editor_context("neovim", EditorProbe::NotFound),
        Err(StateError::EditorNotFound)
    );
    assert_eq!(
        state.add_editor_context("neovim", EditorProbe::NoContext),
        Err(StateError::NoContext)
    );
    assert_eq!(
        state.add_editor_context("neovim", EditorProbe::Failed("timeout".to_string())),
        Err(StateError::ContextUnavailable("timeout".to_string()))
    );
    assert_eq!(state, before);
}

#[test]
fn add_editor_context_stores_and_presents_code() {
    let mut state = plain_session();
    assert_eq!(state.add_editor_context("neovim", EditorProbe::Context(snippet())), Ok(()));
    assert_eq!(state.editor_context, Some(snippet()));
    assert_eq!(state.messages.len(), 2);
    assert_eq!(state.messages[1], editor_message(snippet().format()));
    assert_eq!(state.bubble_list.heights.len(), 2);
    assert_eq!(state.scroll.list_length, state.bubble_list.len());
}

#[test]
fn add_editor_context_unhealthy_is_no_error() {
    let mut state = plain_session();
    assert_eq!(
        state.add_editor_context("neovim", EditorProbe::Unhealthy("down".to_string())),
        Ok(())
    );
    assert_eq!(state.messages.len(), 2);
    assert_eq!(state.messages[1].message_type, MessageType::Error);
    assert_eq!(state.messages[1].author, Author::Oatmeal);
    assert_eq!(state.editor_context, None);
}

#[test]
fn state_errors_describe_themselves() {
    assert_eq!(StateError::EditorNotSet.describe(), "Editor name not set.");
    assert_eq!(StateError::EditorNotFound.describe(), "Failed to load editor from manager");
    assert_eq!(StateError::NoContext.describe(), "No editor context");
    assert_eq!(StateError::ContextUnavailable("timeout".to_string()).describe(), "timeout");
    assert_eq!(StateError::ChannelClosed.describe(), "channel closed");
    assert!(StateError::EditorNotSet.is_config());
    assert!(StateError::EditorNotFound.is_config());
    assert!(!StateError::NoContext.is_config());
    assert!(!StateError::ChannelClosed.is_config());
}

#[test]
fn add_message_lengthens_history_by_one_each_time() {
    let mut state = plain_session();
    state.set_rect(20, 5);
    for n in 1..=10usize {
        state.add_message(Message::new(Author::User, "hello"));
        assert_eq!(state.messages.len(), n + 1);
        assert_eq!(state.bubble_list.heights.len(), n + 1);
        assert_eq!(state.bubble_list.len(), 5 + 3 * n);
        assert_eq!(state.scroll.list_length, 5 + 3 * n);
        assert_eq!(state.scroll.viewport_length, 5);
        assert_eq!(state.scroll.position, 3 * n);
    }
    assert_eq!(state.messages[0], intro_message());
    assert_eq!(state.messages[10], Message::new(Author::User, "hello"));
}

#[test]
fn add_message_brings_last_rows_into_view() {
    let mut state = plain_session();
    state.set_rect(80, 4);
    state.scroll.position = 0;
    state.add_message(Message::new(Author::User, "a\nb\nc"));
    assert_eq!(state.bubble_list.heights, vec![3, 5]);
    assert_eq!(state.scroll, Scroll { list_length: 8, position: 4, viewport_length: 4 });
}

#[test]
fn set_rect_takes_dimensions_and_lays_out_anew() {
    let mut state = plain_session();
    state.set_rect(15, 7);
    assert_eq!(state.last_known_width, 15);
    assert_eq!(state.last_known_height, 7);
    assert_eq!(state.bubble_list.line_width, 15);
    assert_eq!(state.bubble_list.heights, vec![5]);
    assert_eq!(state.scroll, Scroll { list_length: 5, position: 0, viewport_length: 7 });
    state.set_rect(u16::MAX, u16::MAX);
    assert_eq!(state.last_known_width, 65535);
    assert_eq!(state.bubble_list.heights, vec![3]);
}

#[test]
fn set_rect_keeps_position_unless_waiting() {
    let mut state = plain_session();
    state.add_message(Message::new(Author::User, "one\ntwo\nthree"));
    state.set_rect(80, 2);
    state.scroll.position = 1;
    state.set_rect(80, 3);
    assert_eq!(state.scroll.position, 1);
    state.waiting_for_backend = true;
    state.set_rect(80, 3);
    assert_eq!(state.scroll.position, 5);
}

#[test]
fn sync_dependants_twice_is_once() {
    let mut state = plain_session();
    state.messages.push(Message::new(Author::User, "a question\nin two lines"));
    state.last_known_width = 12;
    state.last_known_height = 3;
    state.waiting_for_backend = true;
    state.sync_dependants();
    let once_bubbles = (state.bubble_list.heights.clone(), state.bubble_list.len());
    let once_scroll = state.scroll;
    assert_eq!(once_bubbles, (vec![7, 6], 13));
    assert_eq!(once_scroll, Scroll { list_length: 13, position: 10, viewport_length: 3 });
    state.sync_dependants();
    assert_eq!((state.bubble_list.heights.clone(), state.bubble_list.len()), once_bubbles);
    assert_eq!(state.scroll, once_scroll);
}

#[test]
fn streamed_pieces_fold_into_one_message() {
    let mut state = plain_session();
    state.add_message(Message::new(Author::User, "spell it"));
    state.waiting_for_backend = true;
    state.handle_backend_response(chunk("a", false, None));
    state.handle_backend_response(chunk("b", false, None));
    state.handle_backend_response(chunk("c", false, None));
    assert_eq!(state.messages.len(), 3);
    assert_eq!(state.messages[2], Message::new(Author::Model, "abc"));
    assert!(state.waiting_for_backend);
    assert_eq!(state.backend_context, "");
    assert_eq!(state.scroll.position, state.scroll.list_length - state.scroll.viewport_length);

    state.handle_backend_response(chunk("", true, None));
    assert_eq!(state.messages.len(), 4);
    assert_eq!(state.messages[2], Message::new(Author::Model, "abc"));
    assert_eq!(
        state.messages[3],
        Message::new_with_type(
            Author::Oatmeal,
            MessageType::Error,
            "Error: No context was provided by the backend upon completion. Please report this bug on Github."
        )
    );
    assert!(!state.waiting_for_backend);
    assert_eq!(state.bubble_list.heights.len(), 4);
}

#[test]
fn last_piece_brings_the_token() {
    let mut state = plain_session();
    state.add_message(Message::new(Author::User, "hi"));
    state.waiting_for_backend = true;
    state.handle_backend_response(chunk("hello", false, Some("ignored")));
    assert_eq!(state.backend_context, "");
    state.handle_backend_response(chunk("!", true, Some("token-1")));
    assert_eq!(state.backend_context, "token-1");
    assert!(!state.waiting_for_backend);
    assert_eq!(state.messages.len(), 3);
    assert_eq!(state.messages[2], Message::new(Author::Model, "hello!"));
}

#[test]
fn last_piece_without_token_keeps_the_old_one() {
    let mut state = plain_session();
    state.backend_context = "old".to_string();
    state.add_message(Message::new(Author::User, "hi"));
    state.handle_backend_response(chunk("hello", true, None));
    assert_eq!(state.backend_context, "old");
    assert_eq!(state.messages.len(), 3);
}

#[test]
fn last_piece_with_empty_token_earns_the_warning() {
    let mut state = plain_session();
    state.add_message(Message::new(Author::User, "hi"));
    state.handle_backend_response(chunk("hello", true, Some("")));
    assert_eq!(state.messages.len(), 4);
    assert_eq!(state.messages[3].message_type, MessageType::Error);
}

#[test]
fn piece_after_a_model_message_continues_it() {
    let mut state = plain_session();
    state.handle_backend_response(chunk(" More.", false, None));
    assert_eq!(state.messages.len(), 1);
    assert_eq!(state.messages[0].text, "Hey there! What can I do for you? More.");
    assert_eq!(state.messages[0].author, Author::Model);
}

#[test]
fn code_blocks_are_read_when_the_reply_is_complete() {
    let mut state = plain_session();
    state.add_message(Message::new(Author::User, "code please"));
    state.handle_backend_response(chunk("```\nlet a = 1;\n```", false, None));
    assert_eq!(state.codeblocks.codeblocks, Vec::<String>::new());
    state.handle_backend_response(chunk("\nbye", true, Some("t")));
    assert_eq!(state.codeblocks.codeblocks, vec!["let a = 1;".to_string()]);
}

#[test]
fn reset_keeping_context_opens_with_the_code() {
    let mut state = session_with_code();
    state.add_message(Message::new(Author::User, "hi"));
    state.backend_context = "token".to_string();
    state.exit_warning = true;
    state.set_rect(40, 10);
    state.reset_state(false, "second".to_string());
    assert_eq!(state.messages.len(), 1);
    assert!(state.messages[0].text.starts_with(CODE_GREETING));
    assert_eq!(state.messages[0], editor_message(snippet().format()));
    assert_eq!(state.editor_context, Some(snippet()));
    assert_eq!(state.backend_context, "");
    assert!(!state.exit_warning);
    assert_eq!(state.last_known_width, 0);
    assert_eq!(state.last_known_height, 0);
    assert_eq!(state.session_id, "second");
    assert_eq!(state.bubble_list.heights.len(), 1);
    assert_eq!(state.scroll.position, 0);
    assert_eq!(state.scroll.list_length, state.bubble_list.len());
}

#[test]
fn reset_clearing_context_opens_with_the_greeting() {
    let mut state = session_with_code();
    state.reset_state(true, "second".to_string());
    assert_eq!(state.editor_context, None);
    assert_eq!(state.messages, vec![intro_message()]);
    assert_eq!(state.messages[0].text, GREETING);
}

#[test]
fn reset_without_context_opens_with_the_greeting() {
    let mut state = plain_session();
    state.add_message(Message::new(Author::User, "hi"));
    state.reset_state(false, "second".to_string());
    assert_eq!(state.messages, vec![intro_message()]);
}

#[test]
fn new_clear_is_handled_here_and_clears_code() {
    let (tx, mut rx) = unbounded_channel::<Action>();
    let mut state = session_with_code();
    state.add_message(Message::new(Author::User, "hi"));
    let signals = state.handle_slash_commands("/new clear", &tx, "second".to_string());
    assert_eq!(signals, Ok((false, true)));
    assert_eq!(state.editor_context, None);
    assert_eq!(state.messages, vec![intro_message()]);
    assert_eq!(state.session_id, "second");
    assert_eq!(rx.try_recv(), Err(TryRecvError::Empty));
}

#[test]
fn new_alone_keeps_code() {
    let (tx, _rx) = unbounded_channel::<Action>();
    let mut state = session_with_code();
    state.add_message(Message::new(Author::User, "hi"));
    assert_eq!(state.handle_slash_commands("/new", &tx, "second".to_string()), Ok((false, true)));
    assert_eq!(state.editor_context, Some(snippet()));
    assert_eq!(state.messages, vec![editor_message(snippet().format())]);
    let mut other = session_with_code();
    assert_eq!(
        other.handle_slash_commands("/new keep clear", &tx, "third".to_string()),
        Ok((false, true))
    );
    assert_eq!(other.editor_context, Some(snippet()));
}

#[test]
fn quit_asks_to_terminate() {
    let (tx, mut rx) = unbounded_channel::<Action>();
    let mut state = plain_session();
    let before = plain_session();
    assert_eq!(state.handle_slash_commands("/quit", &tx, "second".to_string()), Ok((true, false)));
    assert_eq!(state, before);
    assert_eq!(rx.try_recv(), Err(TryRecvError::Empty));
}

#[test]
fn ordinary_input_is_for_the_backend() {
    let (tx, mut rx) = unbounded_channel::<Action>();
    let mut state = plain_session();
    let before = plain_session();
    assert_eq!(
        state.handle_slash_commands("what is a monad?", &tx, "second".to_string()),
        Ok((false, false))
    );
    assert_eq!(state.handle_slash_commands("", &tx, "second".to_string()), Ok((false, false)));
    assert_eq!(
        state.handle_slash_commands("/modellist", &tx, "second".to_string()),
        Ok((false, false))
    );
    assert_eq!(state, before);
    assert_eq!(rx.try_recv(), Err(TryRecvError::Empty));
}

#[test]
fn model_switch_forgets_the_token() {
    let (tx, mut rx) = unbounded_channel::<Action>();
    let mut state = plain_session();
    state.backend_context = "token".to_string();
    assert_eq!(
        state.handle_slash_commands("/model mistral", &tx, "second".to_string()),
        Ok((false, false))
    );
    assert_eq!(state.backend_context, "");
    assert_eq!(state.session_id, "first");
    assert_eq!(state.messages, vec![intro_message()]);
    assert_eq!(
        state.handle_slash_commands("/model llama", &tx, "second".to_string()),
        Ok((false, false))
    );
    assert_eq!(state.backend_context, "");
    assert_eq!(rx.try_recv(), Err(TryRecvError::Empty));
}

#[test]
fn unresolved_block_adds_one_warning_and_emits_nothing() {
    let (tx, mut rx) = unbounded_channel::<Action>();
    let mut state = session_with_blocks();
    let before = state.messages.len();
    assert_eq!(state.handle_slash_commands("/copy 5", &tx, "second".to_string()), Ok((false, true)));
    assert_eq!(state.messages.len(), before + 1);
    assert_eq!(
        state.messages[before],
        Message::new_with_type(
            Author::Oatmeal,
            MessageType::Error,
            "There was an error trying to parse your command:\n\nCode block index 5 is out of bounds"
        )
    );
    assert!(!state.waiting_for_backend);
    assert_eq!(rx.try_recv(), Err(TryRecvError::Empty));
    assert_eq!(state.bubble_list.heights.len(), before + 1);
    assert_eq!(state.scroll.position, state.scroll.list_length - state.scroll.viewport_length);
}

#[test]
fn unresolved_block_of_each_kind_is_reported() {
    let (tx, mut rx) = unbounded_channel::<Action>();
    let mut state = plain_session();
    assert_eq!(state.handle_slash_commands("/append", &tx, "second".to_string()), Ok((false, true)));
    assert_eq!(
        state.messages[1].text,
        "There was an error trying to parse your command:\n\nThere are no code blocks in this conversation"
    );
    assert_eq!(
        state.handle_slash_commands("/replace two", &tx, "second".to_string()),
        Ok((false, true))
    );
    assert_eq!(
        state.messages[2].text,
        "There was an error trying to parse your command:\n\nCode block index two is not a number"
    );
    assert_eq!(state.messages.len(), 3);
    assert_eq!(rx.try_recv(), Err(TryRecvError::Empty));
}

#[test]
fn copy_code_block_emits_one_model_message_and_waits() {
    let (tx, mut rx) = unbounded_channel::<Action>();
    let mut state = session_with_blocks();
    let before = state.messages.clone();
    assert_eq!(
        state.handle_slash_commands("/copy 2 1", &tx, "second".to_string()),
        Ok((false, true))
    );
    assert_eq!(
        rx.try_recv(),
        Ok(Action::CopyMessages(vec![Message::new(Author::Model, "two\n\none")]))
    );
    assert_eq!(rx.try_recv(), Err(TryRecvError::Empty));
    assert!(state.waiting_for_backend);
    assert_eq!(state.messages, before);
}

#[test]
fn copy_chat_emits_the_history_and_waits() {
    let (tx, mut rx) = unbounded_channel::<Action>();
    let mut state = session_with_blocks();
    state.set_rect(80, 2);
    state.scroll.position = 0;
    let before = state.messages.clone();
    assert_eq!(state.handle_slash_commands("/copy", &tx, "second".to_string()), Ok((false, true)));
    assert_eq!(rx.try_recv(), Ok(Action::CopyMessages(before.clone())));
    assert_eq!(rx.try_recv(), Err(TryRecvError::Empty));
    assert!(state.waiting_for_backend);
    assert_eq!(state.messages, before);
    assert_eq!(state.scroll.position, state.scroll.list_length - 2);
}

#[test]
fn append_and_replace_emit_code_for_the_editor() {
    let (tx, mut rx) = unbounded_channel::<Action>();
    let mut state = session_with_code();
    state.add_message(Message::new(Author::User, "improve it"));
    state.handle_backend_response(chunk("```rust\nfn two() {}\n```", true, Some("t")));
    let before = state.messages.clone();
    assert_eq!(state.handle_slash_commands("/append", &tx, "second".to_string()), Ok((false, true)));
    assert_eq!(
        rx.try_recv(),
        Ok(Action::AcceptCodeBlock(Some(snippet()), "fn two() {}".to_string(), AcceptType::Append))
    );
    assert_eq!(
        state.handle_slash_commands("/replace 1", &tx, "second".to_string()),
        Ok((false, true))
    );
    assert_eq!(
        rx.try_recv(),
        Ok(Action::AcceptCodeBlock(
            Some(snippet()),
            "fn one() -> u8 { 1 }".to_string(),
            AcceptType::Replace
        ))
    );
    assert_eq!(rx.try_recv(), Err(TryRecvError::Empty));
    assert!(!state.waiting_for_backend);
    assert_eq!(state.messages, before);
}

#[test]
fn closed_channel_is_an_error_and_changes_nothing() {
    let (tx, rx) = unbounded_channel::<Action>();
    drop(rx);
    let mut state = session_with_blocks();
    let before = session_with_blocks();
    assert_eq!(
        state.handle_slash_commands("/copy", &tx, "second".to_string()),
        Err(StateError::ChannelClosed)
    );
    assert_eq!(
        state.handle_slash_commands("/copy 1", &tx, "second".to_string()),
        Err(StateError::ChannelClosed)
    );
    assert_eq!(
        state.handle_slash_commands("/append 1", &tx, "second".to_string()),
        Err(StateError::ChannelClosed)
    );
    assert_eq!(state, before);
    assert!(!state.waiting_for_backend);
}

#[test]
fn closed_channel_does_not_matter_without_action() {
    let (tx, rx) = unbounded_channel::<Action>();
    drop(rx);
    let mut state = session_with_blocks();
    assert_eq!(state.handle_slash_commands("/quit", &tx, "second".to_string()), Ok((true, false)));
    assert_eq!(state.handle_slash_commands("/copy 9", &tx, "second".to_string()), Ok((false, true)));
    assert_eq!(state.handle_slash_commands("/model x", &tx, "second".to_string()), Ok((false, false)));
    assert_eq!(state.handle_slash_commands("/new", &tx, "second".to_string()), Ok((false, true)));
}

#[test]
fn plan_command_says_what_a_command_asks_for() {
    let state = session_with_blocks();
    assert_eq!(
        state.plan_command(&SlashCommand::parse("/quit").unwrap()),
        CommandPlan {
            should_terminate: true,
            should_skip_backend_send: false,
            action: None,
            change: StateChange::Nothing,
        }
    );
    assert_eq!(
        state.plan_command(&SlashCommand::parse("/new clear").unwrap()),
        CommandPlan {
            should_terminate: false,
            should_skip_backend_send: true,
            action: None,
            change: StateChange::Reset(true),
        }
    );
    assert_eq!(
        state.plan_command(&SlashCommand::parse("/copy 1").unwrap()),
        CommandPlan {
            should_terminate: false,
            should_skip_backend_send: true,
            action: Some(Action::CopyMessages(vec![Message::new(Author::Model, "one")])),
            change: StateChange::Wait,
        }
    );
}

#[test]
fn finish_command_goes_by_the_delivery() {
    let mut state = plain_session();
    let before = plain_session();
    assert_eq!(
        state.finish_command(false, true, StateChange::Wait, false, "second".to_string()),
        Err(StateError::ChannelClosed)
    );
    assert_eq!(state, before);
    assert_eq!(
        state.finish_command(false, true, StateChange::Wait, true, "second".to_string()),
        Ok((false, true))
    );
    assert!(state.waiting_for_backend);
}

#[test]
fn apply_change_carries_out_each_change() {
    let mut state = plain_session();
    state.backend_context = "token".to_string();
    state.apply_change(StateChange::Nothing, "x".to_string());
    assert_eq!(state.backend_context, "token");
    state.apply_change(StateChange::Report(Message::new(Author::Oatmeal, "note")), "x".to_string());
    assert_eq!(state.messages.len(), 2);
    state.apply_change(StateChange::ForgetContext, "x".to_string());
    assert_eq!(state.backend_context, "");
    assert_eq!(state.messages.len(), 2);
    state.apply_change(StateChange::Wait, "x".to_string());
    assert!(state.waiting_for_backend);
    state.apply_change(StateChange::Reset(false), "x".to_string());
    assert_eq!(state.messages, vec![intro_message()]);
    assert_eq!(state.session_id, "x");
    assert!(state.waiting_for_backend);
}

#[test]
fn save_then_resume_restores_token_and_history() {
    let mut state = session_with_code();
    state.add_message(Message::new(Author::User, "question with\ttab and ünïcode"));
    state.handle_backend_response(chunk("```\nanswer\n```", true, Some("token-9")));
    state.add_message(Message::new(Author::User, "next"));
    state.waiting_for_backend = true;
    state.exit_warning = true;
    state.set_rect(100, 30);

    let saved = state.save_session();
    assert_eq!(
        saved,
        Session {
            session_id: "first".to_string(),
            backend_context: "token-9".to_string(),
            editor_context: Some(snippet()),
            messages: state.messages.clone(),
        }
    );

    let mut resume = props();
    resume.session_id = Some("first".to_string());
    let resumed = AppState::from_session(&resume, saved, EditorProbe::Unhealthy("down".to_string()))
        .unwrap();
    assert_eq!(resumed.backend_context, "token-9");
    assert_eq!(resumed.messages, state.messages);
    assert_eq!(resumed.session_id, "first");
    assert!(!resumed.waiting_for_backend);
    assert!(!resumed.exit_warning);
    assert_eq!(resumed.last_known_width, 0);
    assert_eq!(resumed.last_known_height, 0);
    assert_eq!(resumed.editor_context, None);
    assert_eq!(resumed.codeblocks.codeblocks, vec![
        "fn one() -> u8 { 1 }".to_string(),
        "answer".to_string()
    ]);
    assert_eq!(resumed.bubble_list.heights.len(), 4);
    assert_eq!(resumed.scroll.list_length, resumed.bubble_list.len());
    assert_eq!(resumed.scroll.position, 0);
}

#[test]
fn resume_takes_the_code_that_the_editor_has_now() {
    let mut resume = props();
    resume.session_id = Some("kept".to_string());
    let stored = Session {
        session_id: "other".to_string(),
        backend_context: "t".to_string(),
        editor_context: Some(snippet()),
        messages: vec![intro_message()],
    };
    let live = EditorContext {
        file_path: "b.py".to_string(),
        language: "python".to_string(),
        code: "pass".to_string(),
        start_line: 1,
        end_line: None,
    };
    let resumed =
        AppState::from_session(&resume, stored, EditorProbe::Context(live.clone())).unwrap();
    assert_eq!(resumed.editor_context, Some(live));
    assert_eq!(resumed.session_id, "kept");
    assert_eq!(resumed.messages, vec![intro_message()]);
}

#[test]
fn resume_without_code_has_none() {
    for probe in [EditorProbe::NotFound, EditorProbe::NoContext] {
        let mut resume = props();
        resume.session_id = Some("kept".to_string());
        let stored = Session {
            session_id: "kept".to_string(),
            backend_context: "".to_string(),
            editor_context: Some(snippet()),
            messages: vec![intro_message()],
        };
        let resumed = AppState::from_session(&resume, stored, probe).unwrap();
        assert_eq!(resumed.editor_context, None);
    }
}

#[test]
fn resume_fails_when_a_healthy_editor_fails() {
    let mut resume = props();
    resume.session_id = Some("kept".to_string());
    let stored = Session {
        session_id: "kept".to_string(),
        backend_context: "".to_string(),
        editor_context: None,
        messages: vec![intro_message()],
    };
    assert_eq!(
        AppState::from_session(&resume, stored, EditorProbe::Failed("timeout".to_string())),
        Err(StateError::ContextUnavailable("timeout".to_string()))
    );
}
