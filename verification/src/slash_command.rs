use crate::text::{drop_empty, keep_filled, same_text, split, split_text};
use vstd::prelude::*;
use vstd::string::*;

verus! {

/// A line of input that names a command: the command's word, and the words after it.
#[derive(Debug, PartialEq, Eq)]
pub struct SlashCommand {
    pub command: String,
    pub args: Vec<String>,
}

/// The mathematical content of a [`SlashCommand`].
pub struct SlashCommandView {
    pub command: Seq<char>,
    pub args: Seq<Seq<char>>,
}

impl View for SlashCommand {
    type V = SlashCommandView;

    open spec fn view(&self) -> SlashCommandView {
        SlashCommandView { command: self.command@, args: self.args.deep_view() }
    }
}

impl SlashCommandView {
    pub open spec fn is_quit(self) -> bool {
        self.command == "/quit"@
    }

    pub open spec fn is_append_code_block(self) -> bool {
        self.command == "/append"@
    }

    pub open spec fn is_replace_code_block(self) -> bool {
        self.command == "/replace"@
    }

    /// `/copy` followed by at least one word copies code blocks.
    pub open spec fn is_copy_code_block(self) -> bool {
        self.command == "/copy"@ && self.args.len() > 0
    }

    /// `/copy` alone copies the whole chat.
    pub open spec fn is_copy_chat(self) -> bool {
        self.command == "/copy"@ && self.args.len() == 0
    }

    pub open spec fn is_model_set(self) -> bool {
        self.command == "/model"@
    }

    pub open spec fn is_new(self) -> bool {
        self.command == "/new"@
    }

    /// Whether the command's word is one that the session knows.
    pub open spec fn is_known(self) -> bool {
        ||| self.is_quit()
        ||| self.is_append_code_block()
        ||| self.is_replace_code_block()
        ||| self.is_copy_code_block()
        ||| self.is_copy_chat()
        ||| self.is_model_set()
        ||| self.is_new()
    }

    /// The command that a line of input names, if any. The line is cut at spaces; its first
    /// word is the command's word and the other words are its arguments.
    pub open spec fn parse(line: Seq<char>) -> Option<SlashCommandView> {
        let words = drop_empty(split(line, ' '));
        if words.len() == 0 {
            None
        } else {
            let command = SlashCommandView { command: words[0], args: words.skip(1) };
            if command.is_known() {
                Some(command)
            } else {
                None
            }
        }
    }
}

impl SlashCommand {
    /// Reads a line of input as a command. `None` where the line names none.
    pub fn parse(line: &str) -> (parsed: Option<SlashCommand>)
        ensures
            match parsed {
                Some(command) => SlashCommandView::parse(line@) == Some(command@),
                None => SlashCommandView::parse(line@) is None,
            },
    {
        let mut words = keep_filled(split_text(line, ' '));
        if words.len() == 0 {
            return None;
        }
        let ghost all = words.deep_view();
        let word = words.remove(0);
        assert(words.deep_view() =~= all.skip(1));
        assert(word@ == all[0]);
        let command = SlashCommand { command: word, args: words };
        if command.is_known() {
            Some(command)
        } else {
            None
        }
    }

    pub fn is_quit(&self) -> (yes: bool)
        ensures
            yes == self@.is_quit(),
    {
        same_text(self.command.as_str(), "/quit")
    }

    pub fn is_append_code_block(&self) -> (yes: bool)
        ensures
            yes == self@.is_append_code_block(),
    {
        same_text(self.command.as_str(), "/append")
    }

    pub fn is_replace_code_block(&self) -> (yes: bool)
        ensures
            yes == self@.is_replace_code_block(),
    {
        same_text(self.command.as_str(), "/replace")
    }

    pub fn is_copy_code_block(&self) -> (yes: bool)
        ensures
            yes == self@.is_copy_code_block(),
    {
        same_text(self.command.as_str(), "/copy") && self.args.len() > 0
    }

    pub fn is_copy_chat(&self) -> (yes: bool)
        ensures
            yes == self@.is_copy_chat(),
    {
        same_text(self.command.as_str(), "/copy") && self.args.len() == 0
    }

    pub fn is_model_set(&self) -> (yes: bool)
        ensures
            yes == self@.is_model_set(),
    {
        same_text(self.command.as_str(), "/model")
    }

    pub fn is_new(&self) -> (yes: bool)
        ensures
            yes == self@.is_new(),
    {
        same_text(self.command.as_str(), "/new")
    }

    /// Whether the command's word is one that the session knows.
    pub fn is_known(&self) -> (yes: bool)
        ensures
            yes == self@.is_known(),
    {
        self.is_quit() || self.is_append_code_block() || self.is_replace_code_block()
            || self.is_copy_code_block() || self.is_copy_chat() || self.is_model_set()
            || self.is_new()
    }
}

} // verus!
