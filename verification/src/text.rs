use vstd::prelude::*;
use vstd::string::*;

verus! {

/// `String::push` appends the given character to the end of the string.
pub assume_specification[ String::push ](s: &mut String, c: char)
    ensures
        final(s)@ == old(s)@.push(c),
;

/// The pieces of `text` that lie between occurrences of `sep`, in order.
/// A text with `n` separators has `n + 1` pieces, some of which may be empty.
pub open spec fn split(text: Seq<char>, sep: char) -> Seq<Seq<char>>
    decreases text.len(),
{
    if text.len() == 0 {
        seq![Seq::empty()]
    } else {
        let before = split(text.drop_last(), sep);
        if text.last() == sep {
            before.push(Seq::empty())
        } else {
            before.drop_last().push(before.last().push(text.last()))
        }
    }
}

/// The pieces that are not empty, in order.
pub open spec fn drop_empty(pieces: Seq<Seq<char>>) -> Seq<Seq<char>>
    decreases pieces.len(),
{
    if pieces.len() == 0 {
        Seq::empty()
    } else if pieces.last().len() == 0 {
        drop_empty(pieces.drop_last())
    } else {
        drop_empty(pieces.drop_last()).push(pieces.last())
    }
}

/// The pieces written one after another with `sep` between neighbours.
pub open spec fn join(pieces: Seq<Seq<char>>, sep: Seq<char>) -> Seq<char>
    decreases pieces.len(),
{
    if pieces.len() == 0 {
        Seq::empty()
    } else if pieces.len() == 1 {
        pieces[0]
    } else {
        join(pieces.drop_last(), sep) + sep + pieces.last()
    }
}

/// Whether `text` begins with `prefix`.
pub open spec fn starts_with(text: Seq<char>, prefix: Seq<char>) -> bool {
    prefix.len() <= text.len() && text.take(prefix.len() as int) == prefix
}

/// Whether `c` is one of the ten decimal digits.
pub open spec fn is_digit(c: char) -> bool {
    '0' <= c <= '9'
}

/// The number that a decimal digit stands for.
pub open spec fn digit_value(c: char) -> nat {
    if is_digit(c) {
        (c as nat - '0' as nat) as nat
    } else {
        0
    }
}

/// The number that a row of decimal digits stands for, the first digit weighing most.
pub open spec fn decimal_value(digits: Seq<char>) -> nat
    decreases digits.len(),
{
    if digits.len() == 0 {
        0
    } else {
        decimal_value(digits.drop_last()) * 10 + digit_value(digits.last())
    }
}

/// Whether `text` is one or more decimal digits and nothing else.
pub open spec fn is_number(text: Seq<char>) -> bool {
    text.len() > 0 && forall|i: int| 0 <= i < text.len() ==> is_digit(#[trigger] text[i])
}

/// The number written in `text`, where `text` is a number that fits the machine word.
pub open spec fn parse_number(text: Seq<char>) -> Option<usize> {
    if is_number(text) && decimal_value(text) <= usize::MAX {
        Some(decimal_value(text) as usize)
    } else {
        None
    }
}

/// Reading more digits never gives a smaller number.
pub proof fn lemma_decimal_value_grows(digits: Seq<char>, k: int)
    requires
        0 <= k <= digits.len(),
    ensures
        decimal_value(digits.take(k)) <= decimal_value(digits),
    decreases digits.len(),
{
    if k == digits.len() {
        assert(digits.take(k) == digits);
    } else {
        lemma_decimal_value_grows(digits.drop_last(), k);
        assert(digits.drop_last().take(k) == digits.take(k));
    }
}

/// A split always yields at least one piece.
pub proof fn lemma_split_nonempty(text: Seq<char>, sep: char)
    ensures
        split(text, sep).len() >= 1,
    decreases text.len(),
{
    if text.len() > 0 {
        lemma_split_nonempty(text.drop_last(), sep);
    }
}

/// No piece of a split holds the separator.
pub proof fn lemma_split_pieces_hold_no_separator(text: Seq<char>, sep: char)
    ensures
        forall|i: int, j: int|
            0 <= i < split(text, sep).len() && 0 <= j < split(text, sep)[i].len() ==> split(
                text,
                sep,
            )[i][j] != sep,
    decreases text.len(),
{
    if text.len() > 0 {
        lemma_split_nonempty(text.drop_last(), sep);
        lemma_split_pieces_hold_no_separator(text.drop_last(), sep);
    }
}

/// What is left of the pieces is never empty, keeps its order, and is all of them that
/// are not empty.
pub proof fn lemma_drop_empty(pieces: Seq<Seq<char>>)
    ensures
        forall|i: int|
            0 <= i < drop_empty(pieces).len() ==> (#[trigger] drop_empty(pieces)[i]).len() > 0,
        forall|i: int|
            0 <= i < drop_empty(pieces).len() ==> pieces.contains(#[trigger] drop_empty(pieces)[i]),
        forall|i: int|
            0 <= i < pieces.len() && (#[trigger] pieces[i]).len() > 0 ==> drop_empty(
                pieces,
            ).contains(pieces[i]),
        drop_empty(pieces).len() <= pieces.len(),
    decreases pieces.len(),
{
    if pieces.len() > 0 {
        let shorter = pieces.drop_last();
        lemma_drop_empty(shorter);
        let kept = drop_empty(pieces);
        assert forall|i: int| 0 <= i < kept.len() implies pieces.contains(#[trigger] kept[i]) by {
            if i < drop_empty(shorter).len() {
                let at = choose|k: int|
                    0 <= k < shorter.len() && shorter[k] == drop_empty(shorter)[i];
                assert(pieces[at] == kept[i]);
            } else {
                assert(pieces[pieces.len() - 1] == kept[i]);
            }
        }
        assert forall|i: int|
            0 <= i < pieces.len() && (#[trigger] pieces[i]).len() > 0 implies kept.contains(
            pieces[i],
        ) by {
            if i < shorter.len() {
                assert(shorter[i] == pieces[i]);
                let at = choose|k: int|
                    0 <= k < drop_empty(shorter).len() && drop_empty(shorter)[k] == shorter[i];
                assert(kept[at] == pieces[i]);
            } else {
                assert(kept[kept.len() - 1] == pieces[i]);
            }
        }
    }
}

/// Joining the pieces of a split with the separator gives the text back.
pub proof fn lemma_join_split(text: Seq<char>, sep: char)
    ensures
        join(split(text, sep), seq![sep]) == text,
    decreases text.len(),
{
    if text.len() > 0 {
        let shorter = text.drop_last();
        let before = split(shorter, sep);
        lemma_split_nonempty(shorter, sep);
        lemma_join_split(shorter, sep);
        if text.last() == sep {
            let pieces = before.push(Seq::empty());
            assert(pieces.drop_last() == before);
            assert(join(pieces, seq![sep]) == shorter + seq![sep] + Seq::<char>::empty());
            assert(shorter + seq![sep] + Seq::<char>::empty() == text);
        } else {
            let grown = before.last().push(text.last());
            let pieces = before.drop_last().push(grown);
            assert(pieces.drop_last() == before.drop_last());
            if before.len() == 1 {
                assert(join(before, seq![sep]) == before[0]);
                assert(join(pieces, seq![sep]) == grown);
                assert(grown == text);
            } else {
                let start = join(before.drop_last(), seq![sep]) + seq![sep];
                assert(shorter == start + before.last());
                assert(join(pieces, seq![sep]) == start + grown);
                assert(text == shorter.push(text.last()));
                assert(start + grown =~= (start + before.last()).push(text.last()));
            }
        }
    }
}

/// Cuts `text` at every `sep`.
pub fn split_text(text: &str, sep: char) -> (pieces: Vec<String>)
    ensures
        pieces.deep_view() == split(text@, sep),
{
    let mut done: Vec<String> = Vec::new();
    let mut piece = String::new();
    assert(done.deep_view().push(piece@) =~= split(text@.take(0), sep));
    for c in it: text.chars()
        invariant
            it.seq() == text@,
            done.deep_view().push(piece@) == split(text@.take(it.index() as int), sep),
    {
        let ghost seen = text@.take(it.index() as int);
        let ghost next = text@.take(it.index() + 1);
        let ghost before = done.deep_view();
        proof {
            assert(next.drop_last() == seen);
            assert(next.last() == c);
            assert(before.push(piece@).drop_last() == before);
        }
        if c == sep {
            let mut full = String::new();
            std::mem::swap(&mut full, &mut piece);
            done.push(full);
            assert(done.deep_view() =~= before.push(full@));
        } else {
            piece.push(c);
        }
        assert(done.deep_view().push(piece@) =~= split(next, sep));
    }
    assert(text@.take(text@.len() as int) == text@);
    let ghost before = done.deep_view();
    done.push(piece);
    assert(done.deep_view() =~= before.push(piece@));
    done
}

/// Keeps the pieces that are not empty.
pub fn keep_filled(pieces: Vec<String>) -> (kept: Vec<String>)
    ensures
        kept.deep_view() == drop_empty(pieces.deep_view()),
{
    let ghost all = pieces.deep_view();
    let mut kept: Vec<String> = Vec::new();
    let mut seen: usize = 0;
    for piece in it: pieces
        invariant
            it.seq().len() == all.len(),
            forall|i: int| 0 <= i < all.len() ==> (#[trigger] it.seq()[i])@ == all[i],
            kept.deep_view() == drop_empty(all.take(it.index() as int)),
    {
        let ghost before = kept.deep_view();
        proof {
            let next = all.take(it.index() + 1);
            assert(next.drop_last() == all.take(it.index() as int));
            assert(next.last() == piece@);
        }
        if !piece.as_str().is_empty() {
            kept.push(piece);
            assert(kept.deep_view() =~= before.push(piece@));
        }
    }
    assert(all.take(all.len() as int) == all);
    kept
}

/// Writes the pieces one after another with `sep` between neighbours.
pub fn join_text(pieces: &Vec<String>, sep: &str) -> (text: String)
    ensures
        text@ == join(pieces.deep_view(), sep@),
{
    let ghost all = pieces.deep_view();
    let mut text = String::new();
    let mut i: usize = 0;
    while i < pieces.len()
        invariant
            i <= pieces.len(),
            all == pieces.deep_view(),
            text@ == join(all.take(i as int), sep@),
        decreases pieces.len() - i,
    {
        proof {
            let next = all.take(i + 1);
            assert(next.drop_last() == all.take(i as int));
            assert(next.last() == pieces[i as int]@);
            if i == 0 {
                assert(text@ + pieces[0]@ == pieces[0]@);
            }
        }
        if i > 0 {
            text.append(sep);
        }
        text.append(pieces[i].as_str());
        i += 1;
    }
    assert(all.take(all.len() as int) == all);
    text
}

/// Reads `text` as a decimal number.
pub fn read_number(text: &str) -> (number: Option<usize>)
    ensures
        number == parse_number(text@),
{
    let mut value: usize = 0;
    let mut any = false;
    for c in it: text.chars()
        invariant
            it.seq() == text@,
            any == (it.index() > 0),
            forall|i: int| 0 <= i < it.index() ==> is_digit(#[trigger] text@[i]),
            value == decimal_value(text@.take(it.index() as int)),
    {
        let ghost next = text@.take(it.index() + 1);
        proof {
            assert(next.drop_last() == text@.take(it.index() as int));
            assert(next.last() == c);
            lemma_decimal_value_grows(text@, it.index() + 1);
        }
        if c < '0' || c > '9' {
            assert(!is_digit(text@[it.index() as int]));
            return None;
        }
        let digit: usize = (c as u32 - '0' as u32) as usize;
        if value > (usize::MAX - digit) / 10 {
            return None;
        }
        value = value * 10 + digit;
        any = true;
    }
    assert(text@.take(text@.len() as int) == text@);
    if any {
        Some(value)
    } else {
        None
    }
}

/// Whether two texts hold the same characters.
pub fn same_text(a: &str, b: &str) -> (same: bool)
    ensures
        same == (a@ == b@),
{
    String::from_str(a) == String::from_str(b)
}

/// Whether one of `texts` holds the characters of `wanted`.
pub fn holds_text(texts: &Vec<String>, wanted: &str) -> (found: bool)
    ensures
        found == texts.deep_view().contains(wanted@),
{
    let mut i: usize = 0;
    while i < texts.len()
        invariant
            i <= texts.len(),
            forall|k: int| 0 <= k < i ==> texts.deep_view()[k] != wanted@,
        decreases texts.len() - i,
    {
        if same_text(texts[i].as_str(), wanted) {
            assert(texts.deep_view()[i as int] == wanted@);
            return true;
        }
        i += 1;
    }
    false
}

/// Whether `text` begins with `prefix`.
pub fn text_starts_with(text: &str, prefix: &str) -> (found: bool)
    ensures
        found == starts_with(text@, prefix@),
{
    let wanted = prefix.unicode_len();
    if text.unicode_len() < wanted {
        return false;
    }
    same_text(text.substring_char(0, wanted), prefix)
}

} // verus!
