//! Byte offsets into a command line, read as character positions.
//!
//! A client hands the cursor over as a byte offset into the UTF-8 line;
//! the line editor counts characters. For an ASCII line the two agree.
//! Lines are compared through their UTF-8 bytes.

use vstd::prelude::*;
use vstd::string::StringSliceAdditionalSpecFns;
use vstd::utf8::*;

verus! {

broadcast use group_utf8_lib;

/// The byte length of the UTF-8 encoding of `line`.
pub open spec fn byte_len(line: Seq<char>) -> int {
    encode_utf8(line).len() as int
}

/// The byte offset `cursor`, clamped to the end of the line.
pub open spec fn clamped_cursor(line: Seq<char>, cursor: usize) -> int {
    if cursor < byte_len(line) {
        cursor as int
    } else {
        byte_len(line)
    }
}

/// The clamped byte offset does not split a character's encoding.
pub open spec fn cursor_on_char_boundary(line: Seq<char>, cursor: usize) -> bool {
    is_char_boundary(encode_utf8(line), clamped_cursor(line, cursor))
}

/// The characters that lie before the (clamped) byte offset `cursor`.
pub open spec fn chars_before(line: Seq<char>, cursor: usize) -> Seq<char> {
    decode_utf8(encode_utf8(line).subrange(0, clamped_cursor(line, cursor)))
}

/// The character position of the byte offset `cursor`.
pub open spec fn char_cursor(line: Seq<char>, cursor: usize) -> nat {
    chars_before(line, cursor).len()
}

/// The character position of the byte offset `cursor` in `line`: the
/// number of characters whose encoding lies before it. An offset past the
/// end counts as the end. An offset inside a character's encoding is
/// left out: slicing there is refused by `str`.
pub fn char_cursor_of(line: &str, cursor: usize) -> (r: usize)
    requires
        cursor_on_char_boundary(line@, cursor),
    ensures
        r == char_cursor(line@, cursor),
        r <= line@.len(),
        line@.take(r as int) == chars_before(line@, cursor),
{
    let n = line.as_bytes().len();
    let c = if cursor < n {
        cursor
    } else {
        n
    };
    let (before, _) = line.split_at(c);
    proof {
        let bytes = encode_utf8(line@);
        assert(before.spec_bytes() == encode_utf8(before@));
        assert(decode_utf8(encode_utf8(before@)) == before@);
        assert(before@ == chars_before(line@, cursor));
        assert(decode_utf8(bytes) == line@);
        assert(decode_utf8(bytes) =~= decode_utf8(bytes.subrange(0, c as int)) + decode_utf8(
            bytes.subrange(c as int, bytes.len() as int),
        ));
        assert(line@.take(before@.len() as int) =~= before@);
    }
    before.unicode_len()
}

/// For a line of ASCII characters, the character position of a byte
/// offset is the offset itself (clamped to the line's end).
pub proof fn lemma_ascii_cursor_is_byte_cursor(line: Seq<char>, cursor: usize)
    requires
        is_ascii_chars(line),
    ensures
        cursor_on_char_boundary(line, cursor),
        char_cursor(line, cursor) == clamped_cursor(line, cursor),
        clamped_cursor(line, cursor) == (if cursor < line.len() {
            cursor as int
        } else {
            line.len() as int
        }),
{
    let c = clamped_cursor(line, cursor);
    let bytes = encode_utf8(line);
    assert(line.len() == bytes.len());
    let pre = line.take(c);
    assert(line =~= pre + line.skip(c));
    assert(is_ascii_chars(pre));
    assert(pre.len() == encode_utf8(pre).len());
    assert(encode_utf8(pre) =~= bytes.subrange(0, c));
    assert(decode_utf8(encode_utf8(pre)) == pre);
    if c < bytes.len() {
        assert('\0' <= line[c] <= '\u{7f}');
        assert((line[c] as nat) < 128);
        assert(line[c] as u8 == bytes[c]);
        assert(!is_continuation_byte(bytes[c]));
    }
}

/// Whether two strings hold the same characters.
pub fn same_text(a: &str, b: &str) -> (r: bool)
    ensures
        r == (a@ == b@),
{
    let x = a.as_bytes();
    let y = b.as_bytes();
    proof {
        assert(decode_utf8(encode_utf8(a@)) == a@);
        assert(decode_utf8(encode_utf8(b@)) == b@);
    }
    if x.len() != y.len() {
        return false;
    }
    let mut i: usize = 0;
    while i < x.len()
        invariant
            x@ == encode_utf8(a@),
            y@ == encode_utf8(b@),
            x@.len() == y@.len(),
            i <= x@.len(),
            forall|j: int| 0 <= j < i ==> x@[j] == y@[j],
        decreases x@.len() - i,
    {
        if x[i] != y[i] {
            return false;
        }
        i = i + 1;
    }
    assert(x@ =~= y@);
    true
}

/// A byte that separates words: ASCII space, tab, line feed, form feed
/// or carriage return. None of them occurs inside the encoding of another
/// character.
pub open spec fn is_separator_byte(b: u8) -> bool {
    b == 32 || b == 9 || b == 10 || b == 12 || b == 13
}

/// Where the word ending at byte `i` of `bytes` starts: just past the
/// nearest separator before `i`, or 0.
pub open spec fn word_start_in(bytes: Seq<u8>, i: int) -> int
    decreases i,
{
    if i <= 0 {
        0
    } else if is_separator_byte(bytes[i - 1]) {
        i
    } else {
        word_start_in(bytes, i - 1)
    }
}

/// The byte offset where the whitespace-delimited word under the cursor
/// starts: the replacement region of a completion.
pub open spec fn word_start(line: Seq<char>, cursor: usize) -> int {
    word_start_in(encode_utf8(line), clamped_cursor(line, cursor))
}

/// The start of the word ending at `i` lies at or before `i`, and no
/// separator lies between them.
pub proof fn lemma_word_start_bounds(bytes: Seq<u8>, i: int)
    requires
        0 <= i <= bytes.len(),
    ensures
        0 <= word_start_in(bytes, i) <= i,
        forall|j: int| word_start_in(bytes, i) <= j < i ==> !is_separator_byte(#[trigger] bytes[j]),
        word_start_in(bytes, i) > 0 ==> is_separator_byte(bytes[word_start_in(bytes, i) - 1]),
    decreases i,
{
    if i > 0 && !is_separator_byte(bytes[i - 1]) {
        lemma_word_start_bounds(bytes, i - 1);
    }
}

fn is_separator(b: u8) -> (r: bool)
    ensures
        r == is_separator_byte(b),
{
    b == 32 || b == 9 || b == 10 || b == 12 || b == 13
}

/// The byte offset where the whitespace-delimited word under the byte
/// offset `cursor` starts (a cursor past the end counts as the end): just
/// past the last separator before the cursor, or 0. It never lies past
/// the cursor.
pub fn word_start_of(line: &str, cursor: usize) -> (r: usize)
    ensures
        r == word_start(line@, cursor),
        r <= cursor,
        r <= clamped_cursor(line@, cursor),
{
    let bytes = line.as_bytes();
    let n = bytes.len();
    let c = if cursor < n {
        cursor
    } else {
        n
    };
    let mut i: usize = c;
    while i > 0 && !is_separator(bytes[i - 1])
        invariant
            bytes@ == encode_utf8(line@),
            c == clamped_cursor(line@, cursor),
            i <= c,
            c <= bytes@.len(),
            word_start_in(bytes@, c as int) == word_start_in(bytes@, i as int),
        decreases i,
    {
        i = i - 1;
    }
    proof {
        lemma_word_start_bounds(bytes@, c as int);
    }
    i
}

} // verus!
