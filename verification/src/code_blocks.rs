use crate::message::{Message, MessageView};
use crate::slash_command::SlashCommand;
use crate::text::{
    join, join_text, parse_number, read_number, split, split_text, starts_with, text_starts_with,
};
use vstd::prelude::*;
use vstd::string::*;

verus! {

/// Why a command's reference to code blocks could not be resolved.
#[derive(Debug, PartialEq, Eq)]
pub enum BlockError {
    /// The command names no block and the registry holds none.
    NoCodeBlocks,
    /// The argument is not a decimal number that fits the machine word.
    NotANumber(String),
    /// The argument is a number, and the registry has no block of that number.
    OutOfBounds(String),
}

/// The mathematical content of a [`BlockError`].
pub enum BlockErrorView {
    NoCodeBlocks,
    NotANumber(Seq<char>),
    OutOfBounds(Seq<char>),
}

impl View for BlockError {
    type V = BlockErrorView;

    open spec fn view(&self) -> BlockErrorView {
        match self {
            BlockError::NoCodeBlocks => BlockErrorView::NoCodeBlocks,
            BlockError::NotANumber(argument) => BlockErrorView::NotANumber(argument@),
            BlockError::OutOfBounds(argument) => BlockErrorView::OutOfBounds(argument@),
        }
    }
}

impl BlockErrorView {
    /// The error in words.
    pub open spec fn describe(self) -> Seq<char> {
        match self {
            BlockErrorView::NoCodeBlocks => "There are no code blocks in this conversation"@,
            BlockErrorView::NotANumber(argument) => "Code block index "@ + argument
                + " is not a number"@,
            BlockErrorView::OutOfBounds(argument) => "Code block index "@ + argument
                + " is out of bounds"@,
        }
    }
}

impl BlockError {
    /// The error in words.
    pub fn describe(&self) -> (text: String)
        ensures
            text@ == self@.describe(),
    {
        match self {
            BlockError::NoCodeBlocks => String::from_str(
                "There are no code blocks in this conversation",
            ),
            BlockError::NotANumber(argument) => {
                let mut text = String::from_str("Code block index ");
                text.append(argument.as_str());
                text.append(" is not a number");
                text
            },
            BlockError::OutOfBounds(argument) => {
                let mut text = String::from_str("Code block index ");
                text.append(argument.as_str());
                text.append(" is out of bounds");
                text
            },
        }
    }
}

/// A line that opens or closes a code block: one that begins with three backticks.
pub open spec fn is_fence(line: Seq<char>) -> bool {
    starts_with(line, "```"@)
}

/// What a reader of fenced code knows after some lines: the blocks that were closed, and
/// the lines of the block that is open, if one is.
pub struct FenceScan {
    pub blocks: Seq<Seq<char>>,
    pub open: Option<Seq<Seq<char>>>,
}

/// Reads `lines` from first to last. A fence opens a block where none is open, and closes
/// the open one otherwise; a closed block is the lines between its fences, joined by line
/// breaks. Lines outside blocks are passed over.
pub open spec fn scan_lines(lines: Seq<Seq<char>>) -> FenceScan
    decreases lines.len(),
{
    if lines.len() == 0 {
        FenceScan { blocks: Seq::empty(), open: None }
    } else {
        let before = scan_lines(lines.drop_last());
        let line = lines.last();
        match before.open {
            Some(body) => if is_fence(line) {
                FenceScan { blocks: before.blocks.push(join(body, "\n"@)), open: None }
            } else {
                FenceScan { blocks: before.blocks, open: Some(body.push(line)) }
            },
            None => if is_fence(line) {
                FenceScan { blocks: before.blocks, open: Some(Seq::empty()) }
            } else {
                before
            },
        }
    }
}

/// The code blocks of one text, in order. A block that is never closed is not one.
pub open spec fn blocks_in_text(text: Seq<char>) -> Seq<Seq<char>> {
    scan_lines(split(text, '\n')).blocks
}

/// The code blocks of a conversation: those of the first message, then those of the
/// second, and so on.
pub open spec fn blocks_in_messages(messages: Seq<MessageView>) -> Seq<Seq<char>>
    decreases messages.len(),
{
    if messages.len() == 0 {
        Seq::empty()
    } else {
        blocks_in_messages(messages.drop_last()) + blocks_in_text(messages.last().text)
    }
}

/// The blocks that `arguments` name, in the order of the arguments. Each argument is the
/// number of a block, counted from 1. The first argument that names none decides the error.
pub open spec fn pick_blocks(blocks: Seq<Seq<char>>, arguments: Seq<Seq<char>>) -> Result<
    Seq<Seq<char>>,
    BlockErrorView,
>
    decreases arguments.len(),
{
    if arguments.len() == 0 {
        Ok(Seq::empty())
    } else {
        match pick_blocks(blocks, arguments.drop_last()) {
            Err(error) => Err(error),
            Ok(picked) => match parse_number(arguments.last()) {
                None => Err(BlockErrorView::NotANumber(arguments.last())),
                Some(number) => if 1 <= number <= blocks.len() {
                    Ok(picked.push(blocks[number - 1]))
                } else {
                    Err(BlockErrorView::OutOfBounds(arguments.last()))
                },
            },
        }
    }
}

/// The code that a command refers to. Without arguments that is the last block; with
/// arguments it is the blocks they name, separated by an empty line.
pub open spec fn resolve_blocks(blocks: Seq<Seq<char>>, arguments: Seq<Seq<char>>) -> Result<
    Seq<char>,
    BlockErrorView,
> {
    if arguments.len() == 0 {
        if blocks.len() == 0 {
            Err(BlockErrorView::NoCodeBlocks)
        } else {
            Ok(blocks.last())
        }
    } else {
        match pick_blocks(blocks, arguments) {
            Err(error) => Err(error),
            Ok(picked) => Ok(join(picked, "\n\n"@)),
        }
    }
}

/// The result of resolving, with texts taken by their characters.
pub open spec fn resolved_view(resolved: Result<String, BlockError>) -> Result<
    Seq<char>,
    BlockErrorView,
> {
    match resolved {
        Ok(code) => Ok(code@),
        Err(error) => Err(error@),
    }
}

/// The registry of the code blocks found in a conversation.
#[derive(Debug, PartialEq, Eq)]
pub struct CodeBlocks {
    pub codeblocks: Vec<String>,
}

impl View for CodeBlocks {
    type V = Seq<Seq<char>>;

    open spec fn view(&self) -> Seq<Seq<char>> {
        self.codeblocks.deep_view()
    }
}

impl Default for CodeBlocks {
    fn default() -> (registry: CodeBlocks)
        ensures
            registry@ == Seq::<Seq<char>>::empty(),
    {
        let registry = CodeBlocks { codeblocks: Vec::new() };
        assert(registry@ =~= Seq::<Seq<char>>::empty());
        registry
    }
}

/// Adds the code blocks of `text` to `found`.
fn collect_blocks(text: &str, found: &mut Vec<String>)
    ensures
        final(found).deep_view() == old(found).deep_view() + blocks_in_text(text@),
{
    let lines = split_text(text, '\n');
    let ghost all = lines.deep_view();
    let ghost start = found.deep_view();
    let mut body: Vec<String> = Vec::new();
    let mut inside = false;
    let mut i: usize = 0;
    assert(start + scan_lines(all.take(0)).blocks =~= start);
    while i < lines.len()
        invariant
            i <= lines.len(),
            all == lines.deep_view(),
            found.deep_view() == start + scan_lines(all.take(i as int)).blocks,
            inside == scan_lines(all.take(i as int)).open is Some,
            inside ==> scan_lines(all.take(i as int)).open == Some(body.deep_view()),
            !inside ==> body@.len() == 0,
        decreases lines.len() - i,
    {
        let ghost before = scan_lines(all.take(i as int));
        let ghost lines_before = body.deep_view();
        let ghost found_before = found.deep_view();
        proof {
            let next = all.take(i + 1);
            assert(next.drop_last() == all.take(i as int));
            assert(next.last() == lines[i as int]@);
        }
        let fence = text_starts_with(lines[i].as_str(), "```");
        if inside {
            if fence {
                let block = join_text(&body, "\n");
                found.push(block);
                body = Vec::new();
                inside = false;
                assert(found.deep_view() =~= found_before.push(block@));
                assert(found.deep_view() =~= start + before.blocks.push(block@));
            } else {
                let line = lines[i].clone();
                body.push(line);
                assert(body.deep_view() =~= lines_before.push(line@));
            }
        } else if fence {
            inside = true;
            assert(body.deep_view() =~= Seq::<Seq<char>>::empty());
        }
        i += 1;
    }
    assert(all.take(all.len() as int) == all);
}

impl CodeBlocks {
    /// Replaces what the registry holds by the code blocks of `messages`.
    pub fn replace_from_messages(&mut self, messages: &Vec<Message>)
        ensures
            final(self)@ == blocks_in_messages(messages.deep_view()),
    {
        let ghost all = messages.deep_view();
        let mut found: Vec<String> = Vec::new();
        let mut i: usize = 0;
        assert(found.deep_view() =~= blocks_in_messages(all.take(0)));
        while i < messages.len()
            invariant
                i <= messages.len(),
                all == messages.deep_view(),
                found.deep_view() == blocks_in_messages(all.take(i as int)),
            decreases messages.len() - i,
        {
            proof {
                let next = all.take(i + 1);
                assert(next.drop_last() == all.take(i as int));
                assert(next.last() == messages[i as int]@);
            }
            collect_blocks(messages[i].text.as_str(), &mut found);
            i += 1;
        }
        assert(all.take(all.len() as int) == all);
        self.codeblocks = found;
    }

    /// The code that `command` refers to: see [`resolve_blocks`].
    pub fn blocks_from_slash_commands(&self, command: &SlashCommand) -> (resolved: Result<
        String,
        BlockError,
    >)
        ensures
            resolved_view(resolved) == resolve_blocks(self@, command@.args),
    {
        let count = self.codeblocks.len();
        if command.args.len() == 0 {
            if count == 0 {
                return Err(BlockError::NoCodeBlocks);
            }
            return Ok(self.codeblocks[count - 1].clone());
        }
        let ghost arguments = command@.args;
        let mut picked: Vec<String> = Vec::new();
        let mut i: usize = 0;
        assert(picked.deep_view() =~= Seq::<Seq<char>>::empty());
        while i < command.args.len()
            invariant
                i <= command.args.len(),
                count == self.codeblocks.len(),
                arguments == command.args.deep_view(),
                pick_blocks(self@, arguments.take(i as int)) == Ok::<
                    Seq<Seq<char>>,
                    BlockErrorView,
                >(picked.deep_view()),
            decreases command.args.len() - i,
        {
            let ghost before = picked.deep_view();
            proof {
                let next = arguments.take(i + 1);
                assert(next.drop_last() == arguments.take(i as int));
                assert(next.last() == command.args[i as int]@);
            }
            match read_number(command.args[i].as_str()) {
                None => {
                    proof {
                        lemma_pick_blocks_keeps_error(self@, arguments, i + 1);
                    }
                    return Err(BlockError::NotANumber(command.args[i].clone()));
                },
                Some(number) => {
                    if number < 1 || number > count {
                        proof {
                            lemma_pick_blocks_keeps_error(self@, arguments, i + 1);
                        }
                        return Err(BlockError::OutOfBounds(command.args[i].clone()));
                    }
                    let block = self.codeblocks[number - 1].clone();
                    picked.push(block);
                    assert(picked.deep_view() =~= before.push(block@));
                },
            }
            i += 1;
        }
        assert(arguments.take(arguments.len() as int) == arguments);
        Ok(join_text(&picked, "\n\n"))
    }
}

/// Lines without a fence hold no code block, and leave a reader outside any.
pub proof fn lemma_no_fence_no_block(lines: Seq<Seq<char>>)
    requires
        forall|i: int| 0 <= i < lines.len() ==> !is_fence(#[trigger] lines[i]),
    ensures
        scan_lines(lines).blocks.len() == 0,
        scan_lines(lines).open is None,
    decreases lines.len(),
{
    if lines.len() > 0 {
        lemma_no_fence_no_block(lines.drop_last());
    }
}

/// After lines that leave the reader outside any block, a fence, lines without a fence
/// and a second fence make one more block: those lines, joined by line breaks.
pub proof fn lemma_fenced_lines_are_a_block(
    before: Seq<Seq<char>>,
    opening: Seq<char>,
    body: Seq<Seq<char>>,
    closing: Seq<char>,
)
    requires
        scan_lines(before).open is None,
        is_fence(opening),
        is_fence(closing),
        forall|i: int| 0 <= i < body.len() ==> !is_fence(#[trigger] body[i]),
    ensures
        scan_lines(before.push(opening) + body).blocks == scan_lines(before).blocks,
        scan_lines(before.push(opening) + body).open == Some(body),
        scan_lines((before.push(opening) + body).push(closing)).blocks == scan_lines(
            before,
        ).blocks.push(join(body, "\n"@)),
        scan_lines((before.push(opening) + body).push(closing)).open is None,
    decreases body.len(),
{
    let opened = before.push(opening);
    assert(opened.drop_last() == before);
    if body.len() == 0 {
        assert(opened + body == opened);
        assert(scan_lines(opened).open == Some(Seq::<Seq<char>>::empty()));
        assert(body == Seq::<Seq<char>>::empty());
    } else {
        let shorter = body.drop_last();
        lemma_fenced_lines_are_a_block(before, opening, shorter, closing);
        assert((opened + body).drop_last() == opened + shorter);
        assert((opened + body).last() == body.last());
        assert(shorter.push(body.last()) == body);
    }
    let whole = (opened + body).push(closing);
    assert(whole.drop_last() == opened + body);
}

/// An error among the first arguments is the error of them all.
pub proof fn lemma_pick_blocks_keeps_error(
    blocks: Seq<Seq<char>>,
    arguments: Seq<Seq<char>>,
    k: int,
)
    requires
        0 <= k <= arguments.len(),
        pick_blocks(blocks, arguments.take(k)) is Err,
    ensures
        pick_blocks(blocks, arguments) == pick_blocks(blocks, arguments.take(k)),
    decreases arguments.len(),
{
    if k == arguments.len() {
        assert(arguments.take(k) == arguments);
    } else {
        assert(arguments.drop_last().take(k) == arguments.take(k));
        lemma_pick_blocks_keeps_error(blocks, arguments.drop_last(), k);
    }
}

} // verus!
