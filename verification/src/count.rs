//! The counter: one pass over the decoded text yields the line, word,
//! byte and character counts.

use vstd::prelude::*;
use vstd::utf8::{decode_utf8, valid_utf8};

verus! {

/// The four statistics of one input, produced once per run.
pub struct Counts {
    pub lines: usize,
    pub words: usize,
    pub bytes: usize,
    pub chars: usize,
}

/// The Unicode White_Space property, the separator set that whitespace
/// splitting goes by.
pub open spec fn is_space(c: char) -> bool {
    let u = c as u32;
    ||| u == 0x20
    ||| (0x09 <= u && u <= 0x0D)
    ||| u == 0x85
    ||| u == 0xA0
    ||| u == 0x1680
    ||| (0x2000 <= u && u <= 0x200A)
    ||| u == 0x2028
    ||| u == 0x2029
    ||| u == 0x202F
    ||| u == 0x205F
    ||| u == 0x3000
}

/// Whether `c` separates words.
pub fn is_space_char(c: char) -> (r: bool)
    ensures
        r == is_space(c),
{
    let u = c as u32;
    u == 0x20 || (0x09 <= u && u <= 0x0D) || u == 0x85 || u == 0xA0 || u == 0x1680 || (0x2000 <= u
        && u <= 0x200A) || u == 0x2028 || u == 0x2029 || u == 0x202F || u == 0x205F || u == 0x3000
}

/// The number of line-feed characters in `s`.
pub open spec fn newline_count(s: Seq<char>) -> nat
    decreases s.len(),
{
    if s.len() == 0 {
        0
    } else {
        newline_count(s.drop_last()) + if s.last() == '\n' {
            1nat
        } else {
            0nat
        }
    }
}

/// The number of lines of `s`: every line feed ends one line, and a
/// non-empty tail without a terminator still counts as one more line.
pub open spec fn line_count(s: Seq<char>) -> nat {
    newline_count(s) + if s.len() > 0 && s.last() != '\n' {
        1nat
    } else {
        0nat
    }
}

/// Whether a maximal whitespace-delimited token of `s` begins at index `i`.
pub open spec fn word_starts_at(s: Seq<char>, i: int) -> bool {
    &&& 0 <= i < s.len()
    &&& !is_space(s[i])
    &&& (i == 0 || is_space(s[i - 1]))
}

/// The number of maximal whitespace-delimited tokens of `s`.
pub open spec fn word_count(s: Seq<char>) -> nat
    decreases s.len(),
{
    if s.len() == 0 {
        0
    } else {
        word_count(s.drop_last()) + if word_starts_at(s, s.len() - 1) {
            1nat
        } else {
            0nat
        }
    }
}

proof fn lemma_newline_count_le(s: Seq<char>)
    ensures
        newline_count(s) <= s.len(),
    decreases s.len(),
{
    if s.len() > 0 {
        lemma_newline_count_le(s.drop_last());
    }
}

/// Counts a text already decoded to characters, together with the byte
/// length of the raw input it came from.
pub fn count_decoded(n_bytes: usize, text: &[char]) -> (c: Counts)
    ensures
        c.bytes == n_bytes,
        c.chars == text@.len(),
        c.lines == line_count(text@),
        c.words == word_count(text@),
{
    let n = text.len();
    let mut newlines: usize = 0;
    let mut words: usize = 0;
    let mut prev_space: bool = true;
    let mut i: usize = 0;
    while i < n
        invariant
            n == text@.len(),
            i <= n,
            newlines == newline_count(text@.take(i as int)),
            words == word_count(text@.take(i as int)),
            newlines <= i,
            words <= i,
            prev_space == (i == 0 || is_space(text@[i as int - 1])),
        decreases n - i,
    {
        let c = text[i];
        proof {
            assert(text@.take(i as int + 1).drop_last() =~= text@.take(i as int));
            assert(text@.take(i as int + 1).last() == text@[i as int]);
        }
        if c == '\n' {
            newlines = newlines + 1;
        }
        let sp = is_space_char(c);
        if !sp && prev_space {
            words = words + 1;
        }
        prev_space = sp;
        i = i + 1;
    }
    proof {
        assert(text@.take(n as int) =~= text@);
    }
    let mut lines: usize = newlines;
    if n > 0 && text[n - 1] != '\n' {
        proof {
            lemma_newline_count_le(text@.drop_last());
        }
        lines = lines + 1;
    }
    Counts { lines, words, bytes: n_bytes, chars: n }
}

/// What lossy UTF-8 decoding yields on the given bytes; on valid UTF-8 it
/// equals `decode_utf8`, elsewhere it is pinned down only by the bytes.
pub uninterp spec fn lossy_chars(bytes: Seq<u8>) -> Seq<char>;

/// Relies on String::from_utf8_lossy of std: the characters of the input
/// with every invalid sequence replaced by U+FFFD, a function of the bytes
/// alone, and exactly the decoded text when the bytes are valid UTF-8.
#[verifier::external_body]
fn decode_lossy(bytes: &[u8]) -> (r: Vec<char>)
    ensures
        r@ == lossy_chars(bytes@),
        valid_utf8(bytes@) ==> r@ == decode_utf8(bytes@),
{
    String::from_utf8_lossy(bytes).chars().collect()
}

/// Counts the full content of the input source: the byte count is the raw
/// buffer length, the other three counts are taken on the lossily decoded
/// text.
pub fn count_content(content: &[u8]) -> (c: Counts)
    ensures
        c.bytes == content@.len(),
        c.chars == lossy_chars(content@).len(),
        c.lines == line_count(lossy_chars(content@)),
        c.words == word_count(lossy_chars(content@)),
        valid_utf8(content@) ==> {
            &&& c.chars == decode_utf8(content@).len()
            &&& c.lines == line_count(decode_utf8(content@))
            &&& c.words == word_count(decode_utf8(content@))
        },
{
    let text = decode_lossy(content);
    count_decoded(content.len(), text.as_slice())
}

} // verus!

