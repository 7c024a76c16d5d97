//! Text as the composer sees it: single characters appended to and taken
//! from a buffer, and the line breaks that divide it.

use vstd::prelude::*;
use vstd::utf8::{encode_scalar, encode_utf8};

verus! {

/// `String::push` appends one character to the end of the string.
pub assume_specification[ String::push ](s: &mut String, ch: char)
    ensures
        final(s)@ == old(s)@.push(ch),
;

/// `String::pop` takes the last character off the string and returns it, or
/// returns `None` and leaves the string as it is where the string is empty.
pub assume_specification[ String::pop ](s: &mut String) -> (last: Option<char>)
    ensures
        old(s)@.len() == 0 ==> last is None && final(s)@ == old(s)@,
        old(s)@.len() > 0 ==> last == Some(old(s)@.last()) && final(s)@ == old(s)@.drop_last(),
;

/// `String::clear` removes all characters from the string.
pub assume_specification[ String::clear ](s: &mut String)
    ensures
        final(s)@ == Seq::<char>::empty(),
;

/// The character that ends a line.
pub const LINE_BREAK: char = '\n';

/// Where the first line of `text` ends: the position of its first line
/// break, or its length where it has none.
pub open spec fn line_end(text: Seq<char>) -> int
    decreases text.len(),
{
    if text.len() == 0 || text[0] == LINE_BREAK {
        0
    } else {
        1 + line_end(text.drop_first())
    }
}

/// `text` with every line break taken out and nothing put in its place.
pub open spec fn without_breaks(text: Seq<char>) -> Seq<char> {
    text.filter(|c: char| c != LINE_BREAK)
}

/// The first line of `text`, without the break that ends it.
pub open spec fn first_line(text: Seq<char>) -> Seq<char> {
    text.take(line_end(text))
}

/// The lines of `text` after the first, joined without separators.
pub open spec fn following_lines(text: Seq<char>) -> Seq<char> {
    without_breaks(text.skip(line_end(text)))
}

/// `line_end` is the one position that has no line break before it and
/// either a line break at it or the end of the text.
pub proof fn lemma_line_end(text: Seq<char>, end: int)
    requires
        0 <= end <= text.len(),
        forall|i: int| 0 <= i < end ==> text[i] != LINE_BREAK,
        end < text.len() ==> text[end] == LINE_BREAK,
    ensures
        line_end(text) == end,
    decreases text.len(),
{
    if end > 0 {
        let rest = text.drop_first();
        assert forall|i: int| 0 <= i < end - 1 implies rest[i] != LINE_BREAK by {
            assert(rest[i] == text[i + 1]);
        }
        lemma_line_end(rest, end - 1);
    }
}

/// Before the end of the first line there is no line break, and the first
/// line ends either at a line break or where the text ends.
pub proof fn lemma_line_end_is_first_break(text: Seq<char>)
    ensures
        0 <= line_end(text) <= text.len(),
        forall|i: int| 0 <= i < line_end(text) ==> text[i] != LINE_BREAK,
        line_end(text) < text.len() ==> text[line_end(text)] == LINE_BREAK,
    decreases text.len(),
{
    if !(text.len() == 0 || text[0] == LINE_BREAK) {
        let rest = text.drop_first();
        lemma_line_end_is_first_break(rest);
        assert forall|i: int| 0 <= i < line_end(text) implies text[i] != LINE_BREAK by {
            if i > 0 {
                assert(text[i] == rest[i - 1]);
            }
        }
    }
}

/// Neither the first line of a text nor its following lines, joined, hold a
/// line break. A text without a line break is its own first line.
pub proof fn lemma_lines_have_no_breaks(text: Seq<char>)
    ensures
        forall|i: int| 0 <= i < first_line(text).len() ==> first_line(text)[i] != LINE_BREAK,
        forall|i: int|
            0 <= i < following_lines(text).len() ==> following_lines(text)[i] != LINE_BREAK,
        (forall|i: int| 0 <= i < text.len() ==> text[i] != LINE_BREAK) ==> first_line(text)
            == text && following_lines(text) == Seq::<char>::empty(),
{
    lemma_line_end_is_first_break(text);
    let joined = following_lines(text);
    assert forall|i: int| 0 <= i < joined.len() implies joined[i] != LINE_BREAK by {
        text.skip(line_end(text)).lemma_filter_pred(|c: char| c != LINE_BREAK, i);
    }
    if forall|i: int| 0 <= i < text.len() ==> text[i] != LINE_BREAK {
        assert(first_line(text) =~= text);
        assert(text.skip(line_end(text)) =~= Seq::<char>::empty());
        assert(without_breaks(Seq::<char>::empty()) =~= Seq::<char>::empty()) by {
            reveal(Seq::filter);
        }
    }
}

/// Taking the line breaks out of a text that ends in `c` keeps `c` at
/// the end unless `c` is itself a line break.
pub proof fn lemma_without_breaks_push(text: Seq<char>, c: char)
    ensures
        without_breaks(text.push(c)) == if c != LINE_BREAK {
            without_breaks(text).push(c)
        } else {
            without_breaks(text)
        },
{
    reveal(Seq::filter);
    assert(text.push(c).drop_last() =~= text);
}

/// Splits `text` at its first line break: the first line, and the lines
/// after it joined without separators.
pub fn split_first_line(text: &str) -> (parts: (String, String))
    ensures
        parts.0@ == first_line(text@),
        parts.1@ == following_lines(text@),
{
    let mut first = String::new();
    let mut rest = String::new();
    let mut in_first = true;
    let ghost mut end: int = 0;
    for c in iter: text.chars()
        invariant
            iter.seq() == text@,
            in_first ==> end == iter.index() && first@ == text@.take(end) && rest@.len() == 0,
            in_first ==> forall|i: int| 0 <= i < end ==> text@[i] != LINE_BREAK,
            !in_first ==> 0 <= end < iter.index() && text@[end] == LINE_BREAK,
            !in_first ==> forall|i: int| 0 <= i < end ==> text@[i] != LINE_BREAK,
            !in_first ==> first@ == text@.take(end),
            !in_first ==> rest@ == without_breaks(text@.subrange(end, iter.index() as int)),
    {
        let ghost at = iter.index() as int;
        proof {
            let seen = text@.subrange(end, at);
            assert(text@.subrange(end, at + 1) =~= seen.push(c));
            lemma_without_breaks_push(seen, c);
            assert(text@.take(at + 1) =~= text@.take(at).push(c));
        }
        if in_first {
            if c == LINE_BREAK {
                in_first = false;
            } else {
                first.push(c);
                proof {
                    end = end + 1;
                }
            }
        } else if c != LINE_BREAK {
            rest.push(c);
        }
    }
    proof {
        lemma_line_end(text@, end);
        if in_first {
            assert(text@.skip(end) =~= Seq::<char>::empty());
            assert(without_breaks(Seq::<char>::empty()) =~= Seq::<char>::empty()) by {
                reveal(Seq::filter);
            }
        }
    }
    (first, rest)
}

/// The number of line breaks in `text`.
pub open spec fn break_count(text: Seq<char>) -> nat
    decreases text.len(),
{
    if text.len() == 0 {
        0
    } else if text.last() == LINE_BREAK {
        break_count(text.drop_last()) + 1
    } else {
        break_count(text.drop_last())
    }
}

/// The last line of `text`: what stands behind its last line break, or all
/// of it where it has none.
pub open spec fn last_line(text: Seq<char>) -> Seq<char>
    decreases text.len(),
{
    if text.len() == 0 || text.last() == LINE_BREAK {
        Seq::empty()
    } else {
        last_line(text.drop_last()).push(text.last())
    }
}

/// Where the insertion point stands behind a text: on which line, counted
/// from zero, and how many bytes of that line lie before it.
#[derive(Clone, Copy, Debug, PartialEq, Eq, Structural)]
pub struct Caret {
    pub line: usize,
    pub column: usize,
}

/// The byte that encodes a line break in UTF-8.
const LINE_BREAK_BYTE: u8 = 0x0A;

/// The number of line-break bytes among `bytes`.
spec fn break_bytes(bytes: Seq<u8>) -> nat
    decreases bytes.len(),
{
    if bytes.len() == 0 {
        0
    } else if bytes.last() == LINE_BREAK_BYTE {
        break_bytes(bytes.drop_last()) + 1
    } else {
        break_bytes(bytes.drop_last())
    }
}

/// The number of bytes behind the last line-break byte of `bytes`.
spec fn bytes_after_break(bytes: Seq<u8>) -> nat
    decreases bytes.len(),
{
    if bytes.len() == 0 || bytes.last() == LINE_BREAK_BYTE {
        0
    } else {
        bytes_after_break(bytes.drop_last()) + 1
    }
}

/// Bytes without a line break, put behind others, add no line and make the
/// last line longer by their number.
proof fn lemma_bytes_without_break(bytes: Seq<u8>, more: Seq<u8>)
    requires
        forall|i: int| 0 <= i < more.len() ==> more[i] != LINE_BREAK_BYTE,
    ensures
        break_bytes(bytes + more) == break_bytes(bytes),
        bytes_after_break(bytes + more) == bytes_after_break(bytes) + more.len(),
    decreases more.len(),
{
    if more.len() == 0 {
        assert(bytes + more =~= bytes);
    } else {
        assert((bytes + more).drop_last() =~= bytes + more.drop_last());
        lemma_bytes_without_break(bytes, more.drop_last());
    }
}

/// The line break is the one character whose UTF-8 encoding holds the
/// line-break byte, and it is encoded as that byte alone.
proof fn lemma_break_byte_encodes_break(scalar: u32)
    by (bit_vector)
    ensures
        scalar <= 0x7F ==> ((scalar & 0x7F) as u8 == 0x0Au8 <==> scalar == 0x0Au32),
        0xC0u8 | ((scalar >> 6) & 0x1F) as u8 != 0x0Au8,
        0xE0u8 | ((scalar >> 12) & 0x0F) as u8 != 0x0Au8,
        0xF0u8 | ((scalar >> 18) & 0x7) as u8 != 0x0Au8,
        0x80u8 | (scalar & 0x3F) as u8 != 0x0Au8,
        0x80u8 | ((scalar >> 6) & 0x3F) as u8 != 0x0Au8,
        0x80u8 | ((scalar >> 12) & 0x3F) as u8 != 0x0Au8,
{
}

/// The encoding of a text that ends in `c` is the encoding of the text
/// before `c`, then that of `c`.
proof fn lemma_encode_push(text: Seq<char>, c: char)
    ensures
        encode_utf8(text.push(c)) == encode_utf8(text) + encode_scalar(c as u32),
    decreases text.len(),
{
    if text.len() == 0 {
        assert(text.push(c).drop_first() =~= text);
        assert(encode_utf8(text.push(c)) =~= encode_utf8(text) + encode_scalar(c as u32));
    } else {
        assert(text.push(c).drop_first() =~= text.drop_first().push(c));
        lemma_encode_push(text.drop_first(), c);
        assert(encode_utf8(text.push(c)) =~= encode_utf8(text) + encode_scalar(c as u32));
    }
}

/// Counting line breaks and the length of the last line comes to the same
/// on a text and on its UTF-8 encoding.
proof fn lemma_lines_of_encoding(text: Seq<char>)
    ensures
        break_bytes(encode_utf8(text)) == break_count(text),
        bytes_after_break(encode_utf8(text)) == encode_utf8(last_line(text)).len(),
    decreases text.len(),
{
    if text.len() > 0 {
        let before = text.drop_last();
        let c = text.last();
        let scalar = c as u32;
        let bytes = encode_utf8(before);
        let more = encode_scalar(scalar);
        assert(text =~= before.push(c));
        lemma_lines_of_encoding(before);
        lemma_encode_push(before, c);
        lemma_break_byte_encodes_break(scalar);
        vstd::utf8::char_is_scalar(c);
        if c == LINE_BREAK {
            assert(more =~= seq![LINE_BREAK_BYTE]);
            assert((bytes + more).drop_last() =~= bytes);
        } else {
            assert(scalar != 0x0A) by {
                vstd::utf8::char_u32_cast(c, scalar);
                vstd::utf8::char_u32_cast(LINE_BREAK, 0x0A);
            }
            lemma_bytes_without_break(bytes, more);
            lemma_encode_push(last_line(before), c);
        }
    }
}

/// The place behind the last character of `text`: the line is the number
/// of line breaks before it, and the column is the number of bytes that
/// the last line takes in UTF-8, which is not always the number of cells it
/// takes on a screen.
pub fn caret_after(text: &str) -> (caret: Caret)
    ensures
        caret.line == break_count(text@),
        caret.column == encode_utf8(last_line(text@)).len(),
{
    let bytes = text.as_bytes();
    let mut line: usize = 0;
    let mut column: usize = 0;
    let mut i: usize = 0;
    while i < bytes.len()
        invariant
            i <= bytes.len(),
            line <= i,
            column <= i,
            line == break_bytes(bytes@.take(i as int)),
            column == bytes_after_break(bytes@.take(i as int)),
        decreases bytes.len() - i,
    {
        assert(bytes@.take(i + 1).drop_last() =~= bytes@.take(i as int));
        if bytes[i] == LINE_BREAK_BYTE {
            line = line + 1;
            column = 0;
        } else {
            column = column + 1;
        }
        i = i + 1;
    }
    proof {
        assert(bytes@.take(i as int) =~= bytes@);
        lemma_lines_of_encoding(text@);
    }
    Caret { line, column }
}

} // verus!
