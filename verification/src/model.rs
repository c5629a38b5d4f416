use crate::action::{AcceptType, ActionView};
use crate::bubble_list::BubbleListView;
use crate::code_blocks::{blocks_in_messages, resolve_blocks};
use crate::editor_context::EditorContextView;
use crate::error::StateErrorView;
use crate::events::{BackendProbeView, BackendResponseView, EditorProbeView};
use crate::message::{Author, MessageView};
use crate::notices::{
    backend_down_view, command_error_view, editor_down_view, editor_message_view,
    intro_message_view, missing_context_view, model_missing_view,
};
use crate::scroll::Scroll;
use crate::session::SessionView;
use crate::slash_command::SlashCommandView;
use vstd::prelude::*;

verus! {

/// The mathematical content of the settings that a session starts from.
pub struct AppStatePropsView {
    pub backend_name: Seq<char>,
    pub editor_name: Seq<char>,
    pub model_name: Seq<char>,
    pub theme_name: Seq<char>,
    pub theme_file: Seq<char>,
    pub session_id: Option<Seq<char>>,
}

/// What a command changes in the session, once its action is on its way.
pub enum StateChangeView {
    /// Nothing.
    Nothing,
    /// The message joins the history.
    Report(MessageView),
    /// The session waits for the action to be carried out.
    Wait,
    /// The backend's token is forgotten.
    ForgetContext,
    /// The conversation starts over; `true` also forgets the editor's code.
    Reset(bool),
}

/// What a command asks for: the two signals for the input loop, the action to emit, and
/// the change to the session.
pub struct CommandPlanView {
    pub should_terminate: bool,
    pub should_skip_backend_send: bool,
    pub action: Option<ActionView>,
    pub change: StateChangeView,
}

/// The session as a mathematical value. The functions below say, for each operation of the
/// session, which value follows.
pub struct AppStateView {
    pub backend_context: Seq<char>,
    pub bubble_list: BubbleListView,
    pub codeblocks: Seq<Seq<char>>,
    pub editor_context: Option<EditorContextView>,
    pub exit_warning: bool,
    pub last_known_height: usize,
    pub last_known_width: usize,
    pub messages: Seq<MessageView>,
    pub scroll: Scroll,
    pub session_id: Seq<char>,
    pub waiting_for_backend: bool,
}

impl AppStateView {
    /// A session without history, context or dimensions.
    pub open spec fn blank(session_id: Seq<char>) -> AppStateView {
        AppStateView {
            backend_context: Seq::empty(),
            bubble_list: BubbleListView::empty(),
            codeblocks: Seq::empty(),
            editor_context: None,
            exit_warning: false,
            last_known_height: 0,
            last_known_width: 0,
            messages: Seq::empty(),
            scroll: Scroll::initial(),
            session_id,
            waiting_for_backend: false,
        }
    }

    /// Whether bubbles and scroll say what history and dimensions say: the bubbles are
    /// those of the history at the known width, the scroll runs over the bubbles' rows in
    /// the known height, and while the session waits the last rows are in view.
    pub open spec fn synced(self) -> bool {
        &&& self.bubble_list == BubbleListView::layout(self.messages, self.last_known_width)
        &&& self.scroll.list_length == self.bubble_list.lines_len
        &&& self.scroll.viewport_length == self.last_known_height
        &&& self.waiting_for_backend ==> self.scroll.position == self.scroll.bottom()
    }

    /// Whether the session is fit for use: it has a history, and nothing is stale.
    pub open spec fn wf(self) -> bool {
        self.messages.len() > 0 && self.synced()
    }

    /// Bubbles and scroll brought up to date.
    pub open spec fn sync_dependants(self) -> AppStateView {
        let bubble_list = BubbleListView::layout(self.messages, self.last_known_width);
        let bounded = self.scroll.with_state(bubble_list.lines_len, self.last_known_height);
        let scroll = if self.waiting_for_backend {
            bounded.at_bottom()
        } else {
            bounded
        };
        AppStateView { bubble_list, scroll, ..self }
    }

    /// The history grown by `message`, with nothing else touched.
    pub open spec fn with_message(self, message: MessageView) -> AppStateView {
        AppStateView { messages: self.messages.push(message), ..self }
    }

    /// `message` joins the history and comes into view.
    pub open spec fn add_message(self, message: MessageView) -> AppStateView {
        let synced = self.with_message(message).sync_dependants();
        AppStateView { scroll: synced.scroll.at_bottom(), ..synced }
    }

    /// The viewport takes new dimensions.
    pub open spec fn set_rect(self, width: u16, height: u16) -> AppStateView {
        AppStateView {
            last_known_width: width as usize,
            last_known_height: height as usize,
            ..self
        }.sync_dependants()
    }

    /// The message that opens a conversation in this session: about the editor's code where
    /// there is some, and the plain greeting otherwise.
    pub open spec fn opening_message(self) -> MessageView {
        match self.editor_context {
            Some(context) => editor_message_view(context.format()),
            None => intro_message_view(),
        }
    }

    /// The conversation starts over under a new identifier. Waiting and the code blocks
    /// are not touched.
    pub open spec fn reset_state(self, clear_context: bool, session_id: Seq<char>) -> AppStateView {
        let kept = AppStateView {
            editor_context: if clear_context {
                None
            } else {
                self.editor_context
            },
            ..self
        };
        AppStateView {
            backend_context: Seq::empty(),
            exit_warning: false,
            last_known_width: 0,
            last_known_height: 0,
            messages: seq![kept.opening_message()],
            session_id,
            scroll: Scroll::initial(),
            ..kept
        }.sync_dependants()
    }

    /// The history after a piece of a reply: the piece continues the last message unless
    /// the user wrote that one, in which case it starts a message of its own.
    pub open spec fn fold_chunk(self, chunk: BackendResponseView) -> Seq<MessageView> {
        if self.messages.last().author != Author::User {
            self.messages.update(
                self.messages.len() - 1,
                self.messages.last().append(chunk.text),
            )
        } else {
            self.messages.push(MessageView::normal(chunk.author, chunk.text))
        }
    }

    /// A piece of a reply arrives. The last piece ends the waiting, brings the backend's
    /// token where it has one, earns a warning where the session is left without a token,
    /// and has the code blocks read anew.
    pub open spec fn handle_backend_response(self, chunk: BackendResponseView) -> AppStateView {
        let received = AppStateView { messages: self.fold_chunk(chunk), ..self }.sync_dependants();
        if !chunk.done {
            received
        } else {
            let settled = AppStateView {
                waiting_for_backend: false,
                backend_context: match chunk.context {
                    Some(context) => context,
                    None => self.backend_context,
                },
                ..received
            };
            let reported = if settled.backend_context.len() == 0 {
                settled.add_message(missing_context_view())
            } else {
                settled
            };
            AppStateView { codeblocks: blocks_in_messages(reported.messages), ..reported }
        }
    }

    /// What `command` asks of this session.
    pub open spec fn plan_command(self, command: SlashCommandView) -> CommandPlanView {
        let should_terminate = command.is_quit();
        if command.is_append_code_block() || command.is_replace_code_block()
            || command.is_copy_code_block() {
            match resolve_blocks(self.codeblocks, command.args) {
                Err(error) => CommandPlanView {
                    should_terminate,
                    should_skip_backend_send: true,
                    action: None,
                    change: StateChangeView::Report(command_error_view(error)),
                },
                Ok(code) => if command.is_copy_code_block() {
                    CommandPlanView {
                        should_terminate,
                        should_skip_backend_send: true,
                        action: Some(
                            ActionView::CopyMessages(
                                seq![MessageView::normal(Author::Model, code)],
                            ),
                        ),
                        change: StateChangeView::Wait,
                    }
                } else {
                    CommandPlanView {
                        should_terminate,
                        should_skip_backend_send: true,
                        action: Some(
                            ActionView::AcceptCodeBlock(
                                self.editor_context,
                                code,
                                if command.is_replace_code_block() {
                                    AcceptType::Replace
                                } else {
                                    AcceptType::Append
                                },
                            ),
                        ),
                        change: StateChangeView::Nothing,
                    }
                },
            }
        } else if command.is_copy_chat() {
            CommandPlanView {
                should_terminate,
                should_skip_backend_send: true,
                action: Some(ActionView::CopyMessages(self.messages)),
                change: StateChangeView::Wait,
            }
        } else if command.is_model_set() {
            CommandPlanView {
                should_terminate,
                should_skip_backend_send: false,
                action: None,
                change: StateChangeView::ForgetContext,
            }
        } else if command.is_new() {
            CommandPlanView {
                should_terminate,
                should_skip_backend_send: true,
                action: None,
                change: StateChangeView::Reset(
                    command.args.len() > 0 && command.args[0] == "clear"@,
                ),
            }
        } else {
            CommandPlanView {
                should_terminate,
                should_skip_backend_send: false,
                action: None,
                change: StateChangeView::Nothing,
            }
        }
    }

    /// The session after `change`. `session_id` names the conversation that a reset
    /// starts.
    pub open spec fn apply_change(
        self,
        change: StateChangeView,
        session_id: Seq<char>,
    ) -> AppStateView {
        match change {
            StateChangeView::Nothing => self,
            StateChangeView::Report(message) => self.add_message(message),
            StateChangeView::Wait => AppStateView {
                waiting_for_backend: true,
                ..self
            }.sync_dependants(),
            StateChangeView::ForgetContext => AppStateView {
                backend_context: Seq::empty(),
                ..self
            },
            StateChangeView::Reset(clear_context) => self.reset_state(clear_context, session_id),
        }
    }

    /// The session after a line of input was read as a command and what it asks for was
    /// done. A line that names no command changes nothing.
    pub open spec fn after_input(self, line: Seq<char>, session_id: Seq<char>) -> AppStateView {
        match SlashCommandView::parse(line) {
            None => self,
            Some(command) => self.apply_change(self.plan_command(command).change, session_id),
        }
    }

    /// The two signals that a line of input gives the input loop: whether to end the
    /// program, and whether the line was dealt with and is not for the backend.
    pub open spec fn input_signals(self, line: Seq<char>) -> (bool, bool) {
        match SlashCommandView::parse(line) {
            None => (false, false),
            Some(command) => (
                self.plan_command(command).should_terminate,
                self.plan_command(command).should_skip_backend_send,
            ),
        }
    }

    /// The action that a line of input emits, if any.
    pub open spec fn input_action(self, line: Seq<char>) -> Option<ActionView> {
        match SlashCommandView::parse(line) {
            None => None,
            Some(command) => self.plan_command(command).action,
        }
    }

    /// The session after the editor was asked for its code, and whether the asking
    /// succeeded. An editor that is not healthy earns a warning and counts as success; a
    /// healthy one that hands over code has it stored and presented. Every other answer
    /// is an error and changes nothing.
    pub open spec fn add_editor_context(
        self,
        editor_name: Seq<char>,
        probe: EditorProbeView,
    ) -> (AppStateView, Result<(), StateErrorView>) {
        if editor_name.len() == 0 {
            (self, Err(StateErrorView::EditorNotSet))
        } else {
            match probe {
                EditorProbeView::NotFound => (self, Err(StateErrorView::EditorNotFound)),
                EditorProbeView::Unhealthy(failure) => (
                    self.with_message(editor_down_view(editor_name, failure)).sync_dependants(),
                    Ok(()),
                ),
                EditorProbeView::Failed(failure) => (
                    self,
                    Err(StateErrorView::ContextUnavailable(failure)),
                ),
                EditorProbeView::NoContext => (self, Err(StateErrorView::NoContext)),
                EditorProbeView::Context(context) => (
                    AppStateView {
                        editor_context: Some(context),
                        ..self
                    }.with_message(editor_message_view(context.format())).sync_dependants(),
                    Ok(()),
                ),
            }
        }
    }

    /// The session after the backend was probed: a backend that does not answer earns a
    /// warning, and so does one that answers and lacks the configured model.
    pub open spec fn with_backend_probe(
        self,
        props: AppStatePropsView,
        backend: BackendProbeView,
    ) -> AppStateView {
        match backend {
            BackendProbeView::Unreachable(failure) => self.with_message(
                backend_down_view(props.backend_name, failure),
            ),
            BackendProbeView::Models(models) => if models.contains(props.model_name) {
                self
            } else {
                self.with_message(model_missing_view(props.model_name, props.backend_name))
            },
        }
    }

    /// A fresh session: the warnings that the backend earned, then the editor's code or,
    /// where asking for it was an error, the plain greeting.
    pub open spec fn init(
        props: AppStatePropsView,
        session_id: Seq<char>,
        backend: BackendProbeView,
        editor: EditorProbeView,
    ) -> AppStateView {
        let probed = AppStateView::blank(session_id).with_backend_probe(props, backend);
        let (attached, outcome) = probed.add_editor_context(props.editor_name, editor);
        if outcome is Err {
            attached.with_message(intro_message_view()).sync_dependants()
        } else {
            attached
        }
    }

    /// A session taken up again: token and history come from the store, the code blocks
    /// from the history, the editor's code from the editor as it is now, and all else
    /// starts from nothing. Only a healthy editor that fails to hand over its code is an
    /// error.
    pub open spec fn from_session(
        session_id: Seq<char>,
        session: SessionView,
        editor: EditorProbeView,
    ) -> Result<AppStateView, StateErrorView> {
        let restored = AppStateView {
            backend_context: session.backend_context,
            messages: session.messages,
            codeblocks: blocks_in_messages(session.messages),
            ..AppStateView::blank(session_id)
        };
        match editor {
            EditorProbeView::Failed(failure) => Err(StateErrorView::ContextUnavailable(failure)),
            EditorProbeView::Context(context) => Ok(
                AppStateView { editor_context: Some(context), ..restored }.sync_dependants(),
            ),
            _ => Ok(restored.sync_dependants()),
        }
    }

    /// What of the session goes to the store.
    pub open spec fn save_session(self) -> SessionView {
        SessionView {
            session_id: self.session_id,
            backend_context: self.backend_context,
            editor_context: self.editor_context,
            messages: self.messages,
        }
    }
}

} // verus!
