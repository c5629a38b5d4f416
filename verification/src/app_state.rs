use crate::action::{send_action, AcceptType, Action};
use crate::bubble_list::BubbleList;
use crate::code_blocks::CodeBlocks;
use crate::editor_context::EditorContext;
use crate::error::StateError;
use crate::events::{BackendProbe, BackendResponse, EditorProbe};
use crate::message::{Author, Message};
use crate::model::{AppStatePropsView, AppStateView, CommandPlanView, StateChangeView};
use crate::notices::{
    backend_down_message, command_error_message, editor_down_message, editor_message,
    intro_message, missing_context_message, model_missing_message,
};
use crate::scroll::Scroll;
use crate::session::Session;
use crate::slash_command::SlashCommand;
use crate::text::{holds_text, same_text};
use tokio::sync::mpsc::UnboundedSender;
use vstd::prelude::*;
use vstd::string::*;

verus! {

/// The settings that a session starts from.
#[derive(Debug, PartialEq, Eq)]
pub struct AppStateProps {
    pub backend_name: String,
    pub editor_name: String,
    pub model_name: String,
    pub theme_name: String,
    pub theme_file: String,
    pub session_id: Option<String>,
}

impl View for AppStateProps {
    type V = AppStatePropsView;

    open spec fn view(&self) -> AppStatePropsView {
        AppStatePropsView {
            backend_name: self.backend_name@,
            editor_name: self.editor_name@,
            model_name: self.model_name@,
            theme_name: self.theme_name@,
            theme_file: self.theme_file@,
            session_id: self.session_id.deep_view(),
        }
    }
}

/// What a command changes in the session, once its action is on its way.
#[derive(Debug, PartialEq, Eq)]
pub enum StateChange {
    /// Nothing.
    Nothing,
    /// The message joins the history.
    Report(Message),
    /// The session waits for the action to be carried out.
    Wait,
    /// The backend's token is forgotten.
    ForgetContext,
    /// The conversation starts over; `true` also forgets the editor's code.
    Reset(bool),
}

impl View for StateChange {
    type V = StateChangeView;

    open spec fn view(&self) -> StateChangeView {
        match self {
            StateChange::Nothing => StateChangeView::Nothing,
            StateChange::Report(message) => StateChangeView::Report(message@),
            StateChange::Wait => StateChangeView::Wait,
            StateChange::ForgetContext => StateChangeView::ForgetContext,
            StateChange::Reset(clear_context) => StateChangeView::Reset(*clear_context),
        }
    }
}

/// What a command asks for: the two signals for the input loop, the action to emit, and
/// the change to the session.
#[derive(Debug, PartialEq, Eq)]
pub struct CommandPlan {
    pub should_terminate: bool,
    pub should_skip_backend_send: bool,
    pub action: Option<Action>,
    pub change: StateChange,
}

impl View for CommandPlan {
    type V = CommandPlanView;

    open spec fn view(&self) -> CommandPlanView {
        CommandPlanView {
            should_terminate: self.should_terminate,
            should_skip_backend_send: self.should_skip_backend_send,
            action: self.action.deep_view(),
            change: self.change@,
        }
    }
}

/// The state of one chat session: the conversation, what the backend and the editor
/// contributed to it, and the bubbles and scroll that show it.
#[derive(Debug, PartialEq, Eq)]
pub struct AppState {
    pub backend_context: String,
    pub bubble_list: BubbleList,
    pub codeblocks: CodeBlocks,
    pub editor_context: Option<EditorContext>,
    pub exit_warning: bool,
    pub last_known_height: usize,
    pub last_known_width: usize,
    pub messages: Vec<Message>,
    pub scroll: Scroll,
    pub session_id: String,
    pub waiting_for_backend: bool,
}

impl View for AppState {
    type V = AppStateView;

    open spec fn view(&self) -> AppStateView {
        AppStateView {
            backend_context: self.backend_context@,
            bubble_list: self.bubble_list@,
            codeblocks: self.codeblocks@,
            editor_context: self.editor_context.deep_view(),
            exit_warning: self.exit_warning,
            last_known_height: self.last_known_height,
            last_known_width: self.last_known_width,
            messages: self.messages.deep_view(),
            scroll: self.scroll,
            session_id: self.session_id@,
            waiting_for_backend: self.waiting_for_backend,
        }
    }
}

impl AppState {
    /// A session without history, context or dimensions.
    fn blank(session_id: String) -> (state: AppState)
        ensures
            state@ == AppStateView::blank(session_id@),
    {
        let state = AppState {
            backend_context: String::new(),
            bubble_list: BubbleList::new(),
            codeblocks: CodeBlocks::default(),
            editor_context: None,
            exit_warning: false,
            last_known_height: 0,
            last_known_width: 0,
            messages: Vec::new(),
            scroll: Scroll::default(),
            session_id,
            waiting_for_backend: false,
        };
        assert(state@.messages =~= Seq::empty());
        state
    }

    /// Adds `message` to the history and touches nothing else.
    fn push_message(&mut self, message: Message)
        ensures
            final(self)@ == old(self)@.with_message(message@),
    {
        self.messages.push(message);
        assert(self@.messages =~= old(self)@.messages.push(message@));
    }

    /// Brings bubbles and scroll up to date with history, dimensions and waiting.
    pub fn sync_dependants(&mut self)
        ensures
            final(self)@ == old(self)@.sync_dependants(),
            final(self)@.synced(),
    {
        self.bubble_list.set_messages(&self.messages, self.last_known_width);
        self.scroll.set_state(self.bubble_list.len(), self.last_known_height);
        if self.waiting_for_backend {
            self.scroll.last();
        }
    }

    /// Adds `message` to the history, brings bubbles and scroll up to date, and brings the
    /// last rows into view.
    pub fn add_message(&mut self, message: Message)
        ensures
            final(self)@ == old(self)@.add_message(message@),
            final(self)@.wf(),
    {
        self.push_message(message);
        self.sync_dependants();
        self.scroll.last();
    }

    /// Takes the viewport's new dimensions and brings bubbles and scroll up to date.
    pub fn set_rect(&mut self, width: u16, height: u16)
        ensures
            final(self)@ == old(self)@.set_rect(width, height),
            final(self)@.synced(),
    {
        self.last_known_width = width as usize;
        self.last_known_height = height as usize;
        self.sync_dependants();
    }

    /// Starts the conversation over under the identifier `session_id`: token, exit warning,
    /// dimensions, scroll and history are cleared, and with `clear_context` the editor's
    /// code too. The history is then opened by one message, about the editor's code where
    /// some is left and the plain greeting otherwise, and bubbles and scroll are brought up
    /// to date.
    pub fn reset_state(&mut self, clear_context: bool, session_id: String)
        ensures
            final(self)@ == old(self)@.reset_state(clear_context, session_id@),
            final(self)@.wf(),
    {
        self.backend_context = String::new();
        self.exit_warning = false;
        self.last_known_width = 0;
        self.last_known_height = 0;
        self.messages = Vec::new();
        self.session_id = session_id;
        self.scroll = Scroll::default();
        if clear_context {
            self.editor_context = None;
        }
        let opening = match &self.editor_context {
            Some(context) => editor_message(context.format()),
            None => intro_message(),
        };
        self.messages.push(opening);
        assert(self@.messages =~= seq![opening@]);
        self.sync_dependants();
    }

    /// Takes in one piece of a reply. The piece continues the last message unless the user
    /// wrote that one, in which case it starts a message of its own. The last piece of a
    /// reply ends the waiting, brings the backend's token where it has one, earns a warning
    /// where the session is left without a token, and has the code blocks read anew.
    pub fn handle_backend_response(&mut self, msg: BackendResponse)
        requires
            old(self)@.messages.len() > 0,
        ensures
            final(self)@ == old(self)@.handle_backend_response(msg@),
            final(self)@.wf(),
    {
        let mut last = self.messages.pop().unwrap();
        if last.author != Author::User {
            last.append(msg.text.as_str());
            self.messages.push(last);
        } else {
            self.messages.push(last);
            self.messages.push(Message::new(msg.author, msg.text.as_str()));
        }
        assert(self@.messages =~= old(self)@.fold_chunk(msg@));
        self.sync_dependants();
        if msg.done {
            self.waiting_for_backend = false;
            if let Some(context) = msg.context {
                self.backend_context = context;
            }
            if self.backend_context.as_str().is_empty() {
                self.add_message(missing_context_message());
                self.sync_dependants();
            }
            self.codeblocks.replace_from_messages(&self.messages);
        }
    }

    /// What `command` asks of this session: see [`AppStateView::plan_command`]. The session
    /// is not changed.
    pub fn plan_command(&self, command: &SlashCommand) -> (plan: CommandPlan)
        ensures
            plan@ == self@.plan_command(command@),
    {
        let should_terminate = command.is_quit();
        if command.is_append_code_block() || command.is_replace_code_block()
            || command.is_copy_code_block() {
            match self.codeblocks.blocks_from_slash_commands(command) {
                Err(error) => CommandPlan {
                    should_terminate,
                    should_skip_backend_send: true,
                    action: None,
                    change: StateChange::Report(command_error_message(&error)),
                },
                Ok(code) => {
                    if command.is_copy_code_block() {
                        let mut copied: Vec<Message> = Vec::new();
                        let message = Message::new(Author::Model, code.as_str());
                        copied.push(message);
                        assert(copied.deep_view() =~= seq![message@]);
                        CommandPlan {
                            should_terminate,
                            should_skip_backend_send: true,
                            action: Some(Action::CopyMessages(copied)),
                            change: StateChange::Wait,
                        }
                    } else {
                        let accept_type = if command.is_replace_code_block() {
                            AcceptType::Replace
                        } else {
                            AcceptType::Append
                        };
                        CommandPlan {
                            should_terminate,
                            should_skip_backend_send: true,
                            action: Some(
                                Action::AcceptCodeBlock(
                                    self.editor_context.clone(),
                                    code,
                                    accept_type,
                                ),
                            ),
                            change: StateChange::Nothing,
                        }
                    }
                },
            }
        } else if command.is_copy_chat() {
            let copied = self.messages.clone();
            assert(copied@ =~= self.messages@);
            CommandPlan {
                should_terminate,
                should_skip_backend_send: true,
                action: Some(Action::CopyMessages(copied)),
                change: StateChange::Wait,
            }
        } else if command.is_model_set() {
            CommandPlan {
                should_terminate,
                should_skip_backend_send: false,
                action: None,
                change: StateChange::ForgetContext,
            }
        } else if command.is_new() {
            let clear_context = command.args.len() > 0 && same_text(
                command.args[0].as_str(),
                "clear",
            );
            CommandPlan {
                should_terminate,
                should_skip_backend_send: true,
                action: None,
                change: StateChange::Reset(clear_context),
            }
        } else {
            CommandPlan {
                should_terminate,
                should_skip_backend_send: false,
                action: None,
                change: StateChange::Nothing,
            }
        }
    }

    /// Carries out `change`; `session_id` names the conversation that a reset starts.
    pub fn apply_change(&mut self, change: StateChange, session_id: String)
        ensures
            final(self)@ == old(self)@.apply_change(change@, session_id@),
    {
        match change {
            StateChange::Nothing => {},
            StateChange::Report(message) => {
                self.add_message(message);
            },
            StateChange::Wait => {
                self.waiting_for_backend = true;
                self.sync_dependants();
            },
            StateChange::ForgetContext => {
                self.backend_context = String::new();
            },
            StateChange::Reset(clear_context) => {
                self.reset_state(clear_context, session_id);
            },
        }
    }

    /// Ends the handling of a command whose action, if it has one, was handed to the
    /// channel. `delivered` says whether the channel took it. Where it did not, the session
    /// stays as it is and the error is `ChannelClosed`; where it did, `change` is carried
    /// out and the two signals are returned.
    pub fn finish_command(
        &mut self,
        should_terminate: bool,
        should_skip_backend_send: bool,
        change: StateChange,
        delivered: bool,
        session_id: String,
    ) -> (signals: Result<(bool, bool), StateError>)
        ensures
            delivered ==> signals == Ok::<(bool, bool), StateError>(
                (should_terminate, should_skip_backend_send),
            ) && final(self)@ == old(self)@.apply_change(change@, session_id@),
            !delivered ==> signals == Err::<(bool, bool), StateError>(StateError::ChannelClosed)
                && final(self)@ == old(self)@,
    {
        if !delivered {
            return Err(StateError::ChannelClosed);
        }
        self.apply_change(change, session_id);
        Ok((should_terminate, should_skip_backend_send))
    }

    /// Reads a line of input as a command and does what it asks for. The result holds two
    /// signals: whether to end the program, and whether the line was dealt with here and
    /// is not for the backend. A line that names no command changes nothing and gives
    /// `(false, false)`.
    ///
    /// The action of the command, [`AppStateView::input_action`], is handed to `tx` before
    /// the session is changed. Whether the channel takes it is not known here: where it
    /// does not, the session stays as it is and the error is `ChannelClosed`. A command
    /// without an action always succeeds. `session_id` names the conversation that `/new`
    /// starts.
    pub fn handle_slash_commands(
        &mut self,
        input_str: &str,
        tx: &UnboundedSender<Action>,
        session_id: String,
    ) -> (signals: Result<(bool, bool), StateError>)
        ensures
            old(self)@.input_action(input_str@) is None ==> signals is Ok,
            match signals {
                Ok(pair) => pair == old(self)@.input_signals(input_str@) && final(self)@ == old(
                    self,
                )@.after_input(input_str@, session_id@),
                Err(error) => error == StateError::ChannelClosed && old(self)@.input_action(
                    input_str@,
                ) is Some && final(self)@ == old(self)@,
            },
    {
        match SlashCommand::parse(input_str) {
            None => Ok((false, false)),
            Some(command) => {
                let plan = self.plan_command(&command);
                let delivered = match plan.action {
                    Some(action) => send_action(tx, action),
                    None => true,
                };
                self.finish_command(
                    plan.should_terminate,
                    plan.should_skip_backend_send,
                    plan.change,
                    delivered,
                    session_id,
                )
            },
        }
    }

    /// Takes in what asking the editor `editor_name` for its code brought to light: see
    /// [`AppStateView::add_editor_context`]. An editor that is not healthy earns a warning
    /// in the history and is no error.
    pub fn add_editor_context(&mut self, editor_name: &str, probe: EditorProbe) -> (outcome:
        Result<(), StateError>)
        ensures
            final(self)@ == old(self)@.add_editor_context(editor_name@, probe@).0,
            match outcome {
                Ok(_) => old(self)@.add_editor_context(editor_name@, probe@).1 is Ok,
                Err(error) => old(self)@.add_editor_context(editor_name@, probe@).1 == Err::<
                    (),
                    _,
                >(error@),
            },
    {
        if editor_name.is_empty() {
            return Err(StateError::EditorNotSet);
        }
        match probe {
            EditorProbe::NotFound => Err(StateError::EditorNotFound),
            EditorProbe::Unhealthy(failure) => {
                self.push_message(editor_down_message(editor_name, failure.as_str()));
                self.sync_dependants();
                Ok(())
            },
            EditorProbe::Failed(failure) => Err(StateError::ContextUnavailable(failure)),
            EditorProbe::NoContext => Err(StateError::NoContext),
            EditorProbe::Context(context) => {
                let formatted = context.format();
                self.editor_context = Some(context);
                self.push_message(editor_message(formatted));
                self.sync_dependants();
                Ok(())
            },
        }
    }

    /// A fresh session under the identifier `session_id`, from what probing the backend
    /// and the editor brought to light: see [`AppStateView::init`]. Neither a backend that
    /// does not answer nor an editor without code keeps the session from starting.
    pub fn init(
        props: &AppStateProps,
        session_id: String,
        backend: BackendProbe,
        editor: EditorProbe,
    ) -> (state: AppState)
        ensures
            state@ == AppStateView::init(props@, session_id@, backend@, editor@),
            state@.wf(),
    {
        let mut state = AppState::blank(session_id);
        match backend {
            BackendProbe::Unreachable(failure) => {
                state.push_message(
                    backend_down_message(props.backend_name.as_str(), failure.as_str()),
                );
            },
            BackendProbe::Models(models) => {
                if !holds_text(&models, props.model_name.as_str()) {
                    state.push_message(
                        model_missing_message(
                            props.model_name.as_str(),
                            props.backend_name.as_str(),
                        ),
                    );
                }
            },
        }
        if state.add_editor_context(props.editor_name.as_str(), editor).is_err() {
            state.push_message(intro_message());
            state.sync_dependants();
        }
        state
    }

    /// The session `props.session_id` taken up again from what the store kept of it: see
    /// [`AppStateView::from_session`].
    pub fn from_session(props: &AppStateProps, session: Session, editor: EditorProbe) -> (state:
        Result<AppState, StateError>)
        requires
            props.session_id is Some,
        ensures
            match state {
                Ok(restored) => AppStateView::from_session(
                    props@.session_id->0,
                    session@,
                    editor@,
                ) == Ok::<_, crate::error::StateErrorView>(restored@),
                Err(error) => AppStateView::from_session(
                    props@.session_id->0,
                    session@,
                    editor@,
                ) == Err::<AppStateView, _>(error@),
            },
    {
        let session_id = match &props.session_id {
            Some(id) => id.clone(),
            None => String::new(),
        };
        let mut state = AppState::blank(session_id);
        state.backend_context = session.backend_context;
        state.messages = session.messages;
        state.codeblocks.replace_from_messages(&state.messages);
        match editor {
            EditorProbe::Failed(failure) => {
                return Err(StateError::ContextUnavailable(failure));
            },
            EditorProbe::Context(context) => {
                state.editor_context = Some(context);
            },
            _ => {},
        }
        state.sync_dependants();
        Ok(state)
    }

    /// What of the session goes to the store.
    pub fn save_session(&self) -> (session: Session)
        ensures
            session@ == self@.save_session(),
    {
        let messages = self.messages.clone();
        assert(messages@ =~= self.messages@);
        Session {
            session_id: self.session_id.clone(),
            backend_context: self.backend_context.clone(),
            editor_context: self.editor_context.clone(),
            messages,
        }
    }
}

} // verus!
