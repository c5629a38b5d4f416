use crate::message::{Message, MessageView};
use crate::text::{split, split_text};
use vstd::prelude::*;
use vstd::string::*;

verus! {

/// Rows that the frame of a bubble takes: one above the text and one below.
pub const FRAME_ROWS: usize = 2;

/// Columns that the frame of a bubble takes: a bar and a space on either side.
pub const FRAME_COLUMNS: usize = 4;

/// `n`, or the largest machine word where `n` is beyond it.
pub open spec fn clip(n: nat) -> usize {
    if n <= usize::MAX {
        n as usize
    } else {
        usize::MAX
    }
}

/// Columns left for text in a bubble that is `line_width` columns wide: never fewer than
/// one.
pub open spec fn text_width(line_width: usize) -> usize {
    if line_width > FRAME_COLUMNS {
        (line_width - FRAME_COLUMNS) as usize
    } else {
        1
    }
}

/// Rows that a line of `length` characters takes when it is broken every `width`
/// characters. An empty line takes one row.
pub open spec fn line_rows(length: nat, width: usize) -> nat {
    if length == 0 {
        1
    } else {
        ((length - 1) / (width as int) + 1) as nat
    }
}

/// Rows that `lines` take together.
pub open spec fn rows(lines: Seq<Seq<char>>, width: usize) -> nat
    decreases lines.len(),
{
    if lines.len() == 0 {
        0
    } else {
        rows(lines.drop_last(), width) + line_rows(lines.last().len(), width)
    }
}

/// Rows of the bubble that shows `text` in `line_width` columns: the rows of its lines
/// and the frame.
pub open spec fn bubble_height(text: Seq<char>, line_width: usize) -> nat {
    rows(split(text, '\n'), text_width(line_width)) + FRAME_ROWS as nat
}

/// The sum of `heights`.
pub open spec fn total(heights: Seq<usize>) -> nat
    decreases heights.len(),
{
    if heights.len() == 0 {
        0
    } else {
        total(heights.drop_last()) + heights.last() as nat
    }
}

/// The height of each message's bubble, in the order of the messages.
pub open spec fn bubble_heights(messages: Seq<MessageView>, line_width: usize) -> Seq<usize> {
    Seq::new(messages.len(), |i: int| clip(bubble_height(messages[i].text, line_width)))
}

/// A line that is not empty takes just as many rows as it needs: its characters fill
/// all rows but the last, and the last holds at least one.
pub proof fn lemma_line_rows_are_tight(length: nat, width: usize)
    requires
        length > 0,
        width > 0,
    ensures
        (line_rows(length, width) - 1) * width < length <= line_rows(length, width) * width,
{
    let full = (length - 1) / (width as int);
    assert(length - 1 == full * width + (length - 1) % (width as int)) by {
        vstd::arithmetic::div_mod::lemma_fundamental_div_mod(length - 1, width as int);
        assert(full * width == width * full) by (nonlinear_arith);
    }
    assert(0 <= (length - 1) % (width as int) < width) by {
        vstd::arithmetic::div_mod::lemma_mod_bound(length - 1, width as int);
    }
    assert((full + 1) * width == full * width + width) by (nonlinear_arith);
}

/// The mathematical content of a [`BubbleList`].
pub struct BubbleListView {
    pub line_width: usize,
    pub heights: Seq<usize>,
    pub lines_len: usize,
}

impl BubbleListView {
    /// A list without bubbles.
    pub open spec fn empty() -> BubbleListView {
        BubbleListView { line_width: 0, heights: Seq::empty(), lines_len: 0 }
    }

    /// The list that shows `messages` in `line_width` columns.
    pub open spec fn layout(messages: Seq<MessageView>, line_width: usize) -> BubbleListView {
        let heights = bubble_heights(messages, line_width);
        BubbleListView { line_width, heights, lines_len: clip(total(heights)) }
    }
}

/// The conversation laid out as bubbles, one below the other.
#[derive(Debug, PartialEq, Eq)]
pub struct BubbleList {
    /// Columns that the list was laid out for.
    pub line_width: usize,
    /// Rows of each bubble.
    pub heights: Vec<usize>,
    /// Rows of all bubbles together.
    pub lines_len: usize,
}

impl View for BubbleList {
    type V = BubbleListView;

    open spec fn view(&self) -> BubbleListView {
        BubbleListView {
            line_width: self.line_width,
            heights: self.heights@,
            lines_len: self.lines_len,
        }
    }
}

/// Rows of the bubble that shows `text` in `line_width` columns.
pub fn measure_bubble(text: &str, line_width: usize) -> (height: usize)
    ensures
        height == clip(bubble_height(text@, line_width)),
{
    let width = if line_width > FRAME_COLUMNS {
        line_width - FRAME_COLUMNS
    } else {
        1
    };
    let lines = split_text(text, '\n');
    let ghost all = lines.deep_view();
    let mut height: usize = 0;
    let mut i: usize = 0;
    while i < lines.len()
        invariant
            i <= lines.len(),
            all == lines.deep_view(),
            width == text_width(line_width),
            height == clip(rows(all.take(i as int), width)),
        decreases lines.len() - i,
    {
        proof {
            let next = all.take(i + 1);
            assert(next.drop_last() == all.take(i as int));
            assert(next.last() == lines[i as int]@);
        }
        let length = lines[i].as_str().unicode_len();
        let taken = if length == 0 {
            1
        } else {
            (length - 1) / width + 1
        };
        height = height.saturating_add(taken);
        i += 1;
    }
    assert(all.take(all.len() as int) == all);
    height.saturating_add(FRAME_ROWS)
}

impl BubbleList {
    /// A list without bubbles.
    pub fn new() -> (list: BubbleList)
        ensures
            list@ == BubbleListView::empty(),
    {
        BubbleList { line_width: 0, heights: Vec::new(), lines_len: 0 }
    }

    /// Lays `messages` out in `line_width` columns.
    pub fn set_messages(&mut self, messages: &Vec<Message>, line_width: usize)
        ensures
            final(self)@ == BubbleListView::layout(messages.deep_view(), line_width),
    {
        let ghost wanted = bubble_heights(messages.deep_view(), line_width);
        let mut heights: Vec<usize> = Vec::new();
        let mut lines_len: usize = 0;
        let mut i: usize = 0;
        assert(heights@ =~= wanted.take(0));
        while i < messages.len()
            invariant
                i <= messages.len(),
                wanted == bubble_heights(messages.deep_view(), line_width),
                heights@ == wanted.take(i as int),
                lines_len == clip(total(wanted.take(i as int))),
            decreases messages.len() - i,
        {
            proof {
                let next = wanted.take(i + 1);
                assert(next.drop_last() == wanted.take(i as int));
                assert(next.last() == clip(
                    bubble_height(messages[i as int].text@, line_width),
                ));
            }
            let height = measure_bubble(messages[i].text.as_str(), line_width);
            heights.push(height);
            lines_len = lines_len.saturating_add(height);
            assert(heights@ =~= wanted.take(i + 1));
            i += 1;
        }
        assert(wanted.take(wanted.len() as int) == wanted);
        self.line_width = line_width;
        self.heights = heights;
        self.lines_len = lines_len;
    }

    /// Rows of all bubbles together.
    pub fn len(&self) -> (rows: usize)
        ensures
            rows == self@.lines_len,
    {
        self.lines_len
    }
}

} // verus!
