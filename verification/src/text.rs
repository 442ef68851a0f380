//! Text handling for what programs print: decoding their bytes, taking the
//! first line, and stripping surrounding white space.

use vstd::prelude::*;
use vstd::utf8::{decode_utf8, encode_utf8, valid_utf8};

verus! {

/// The text that lossy UTF-8 decoding makes of `bytes`: valid sequences are
/// kept, every invalid one becomes U+FFFD.
pub uninterp spec fn lossy_text(bytes: Seq<u8>) -> Seq<char>;

/// Decodes `bytes` with `String::from_utf8_lossy`.
///
/// Trusted: the result is a function of the bytes alone, named
/// [`lossy_text`], and bytes that already are valid UTF-8 decode to the very
/// characters they encode.
#[verifier::external_body]
pub(crate) fn decode_lossy(bytes: &[u8]) -> (text: String)
    ensures
        text@ == lossy_text(bytes@),
        valid_utf8(bytes@) ==> text@ == decode_utf8(bytes@),
{
    String::from_utf8_lossy(bytes).into_owned()
}

/// Whether `c` carries the Unicode property `White_Space`.
pub open spec fn is_white_space(c: char) -> bool {
    let u = c as u32;
    ||| 0x09 <= u <= 0x0d
    ||| u == 0x20
    ||| u == 0x85
    ||| u == 0xa0
    ||| u == 0x1680
    ||| 0x2000 <= u <= 0x200a
    ||| u == 0x2028
    ||| u == 0x2029
    ||| u == 0x202f
    ||| u == 0x205f
    ||| u == 0x3000
}

/// Whether `c` is white space, as `char::is_whitespace` tells it.
pub fn is_whitespace(c: char) -> (b: bool)
    ensures
        b == is_white_space(c),
{
    let u: u32 = c as u32;
    (0x09 <= u && u <= 0x0d) || u == 0x20 || u == 0x85 || u == 0xa0 || u == 0x1680 || (0x2000 <= u
        && u <= 0x200a) || u == 0x2028 || u == 0x2029 || u == 0x202f || u == 0x205f || u == 0x3000
}

/// `n` is where the first line of `text` stops: no line feed comes before
/// position `n`, and position `n` holds one unless the text ends there.
pub open spec fn ends_first_line(text: Seq<char>, n: int) -> bool {
    &&& 0 <= n <= text.len()
    &&& forall|i: int| 0 <= i < n ==> text[i] != '\n'
    &&& n < text.len() ==> text[n] == '\n'
}

/// The number of characters before the first line feed of `text`; its
/// length where it holds none.
pub open spec fn line_end(text: Seq<char>) -> int {
    choose|n: int| ends_first_line(text, n)
}

/// The first line of `text` without its terminator, which is a line feed or
/// a carriage return followed by one. A text without characters has no
/// line; a carriage return that no line feed follows belongs to the line.
pub open spec fn leading_line(text: Seq<char>) -> Option<Seq<char>> {
    let n = line_end(text);
    if text.len() == 0 {
        None
    } else if 0 < n < text.len() && text[n - 1] == '\r' {
        Some(text.take(n - 1))
    } else {
        Some(text.take(n))
    }
}

/// Only one position stops the first line.
pub proof fn lemma_line_end_unique(text: Seq<char>, n: int)
    requires
        ends_first_line(text, n),
    ensures
        line_end(text) == n,
{
    let m = line_end(text);
    assert(ends_first_line(text, m));
    if m < n {
        assert(text[m] == '\n');
    } else if n < m {
        assert(text[n] == '\n');
    }
}

/// A text holds no more characters than its UTF-8 encoding holds bytes.
pub proof fn lemma_characters_within_bytes(text: Seq<char>)
    ensures
        text.len() <= encode_utf8(text).len(),
    decreases text.len(),
{
    if text.len() > 0 {
        lemma_characters_within_bytes(text.drop_first());
    }
}

/// The length of `text` in bytes, which bounds its length in characters.
fn byte_length(text: &str) -> (length: usize)
    ensures
        text@.len() <= length,
{
    proof {
        lemma_characters_within_bytes(text@);
    }
    text.as_bytes().len()
}

/// The first line of `text`, as `str::lines` would give it first.
pub fn first_line<'a>(text: &'a str) -> (line: Option<&'a str>)
    ensures
        match leading_line(text@) {
            Some(l) => line matches Some(s) && s@ == l,
            None => line is None,
        },
{
    if text.is_empty() {
        return None;
    }
    let limit: usize = byte_length(text);
    let mut end: usize = 0;
    let mut found = false;
    let mut after_return = false;
    for c in it: text.chars()
        invariant_except_break
            !found,
            end == it.index(),
        invariant
            it.seq() == text@,
            text@.len() <= limit,
            forall|i: int| 0 <= i < end ==> text@[i] != '\n',
            after_return == (end > 0 && text@[end - 1] == '\r'),
        ensures
            end <= text@.len(),
            found ==> end < text@.len() && text@[end as int] == '\n',
            !found ==> end == text@.len(),
    {
        if c == '\n' {
            found = true;
            break;
        }
        after_return = c == '\r';
        end += 1;
    }
    proof {
        assert(ends_first_line(text@, end as int));
        lemma_line_end_unique(text@, end as int);
    }
    let stop = if found && after_return {
        end - 1
    } else {
        end
    };
    Some(text.substring_char(0, stop))
}

/// `i` is where the text left after trimming starts: only white space comes
/// before position `i`, and position `i` holds something else unless the
/// text ends there.
pub open spec fn starts_content(text: Seq<char>, i: int) -> bool {
    &&& 0 <= i <= text.len()
    &&& forall|k: int| 0 <= k < i ==> is_white_space(text[k])
    &&& i < text.len() ==> !is_white_space(text[i])
}

/// `j` is where the text left after trimming stops: only white space comes
/// from position `j` on, and position `j - 1` holds something else unless
/// `j` is zero.
pub open spec fn stops_content(text: Seq<char>, j: int) -> bool {
    &&& 0 <= j <= text.len()
    &&& forall|k: int| j <= k < text.len() ==> is_white_space(text[k])
    &&& 0 < j ==> !is_white_space(text[j - 1])
}

/// The position of the first character of `text` that is no white space;
/// its length where it holds nothing else.
pub open spec fn content_start(text: Seq<char>) -> int {
    choose|i: int| starts_content(text, i)
}

/// The position behind the last character of `text` that is no white
/// space; zero where it holds nothing else.
pub open spec fn content_stop(text: Seq<char>) -> int {
    choose|j: int| stops_content(text, j)
}

/// `text` without the white space at its start and at its end.
pub open spec fn trimmed(text: Seq<char>) -> Seq<char> {
    let i = content_start(text);
    let j = content_stop(text);
    if i < j {
        text.subrange(i, j)
    } else {
        Seq::empty()
    }
}

/// Only one position starts the content, and only one stops it.
pub proof fn lemma_content_bounds_unique(text: Seq<char>, i: int, j: int)
    requires
        starts_content(text, i),
        stops_content(text, j),
    ensures
        content_start(text) == i,
        content_stop(text) == j,
        i < j || (i == text.len() && j == 0),
{
    let a = content_start(text);
    let b = content_stop(text);
    assert(starts_content(text, a));
    assert(stops_content(text, b));
    if a < i {
        assert(is_white_space(text[a]));
    } else if i < a {
        assert(is_white_space(text[i]));
    }
    if b < j {
        assert(is_white_space(text[j - 1]));
    } else if j < b {
        assert(is_white_space(text[b - 1]));
    }
    if i >= j {
        if i < text.len() {
            assert(is_white_space(text[i]));
        }
        if j > 0 {
            assert(is_white_space(text[j - 1]));
        }
    }
}

/// `text` without its leading and trailing white space, as `str::trim`
/// gives it.
pub fn trim<'a>(text: &'a str) -> (inner: &'a str)
    ensures
        inner@ == trimmed(text@),
{
    let limit: usize = byte_length(text);
    let mut start: usize = 0;
    let mut stop: usize = 0;
    let mut count: usize = 0;
    for c in it: text.chars()
        invariant
            it.seq() == text@,
            text@.len() <= limit,
            count == it.index(),
            start <= count,
            stop <= count,
            forall|k: int| 0 <= k < start ==> is_white_space(text@[k]),
            forall|k: int| stop <= k < count ==> is_white_space(text@[k]),
            stop > 0 ==> !is_white_space(text@[stop - 1]) && start < stop && !is_white_space(
                text@[start as int],
            ),
            stop == 0 ==> start == count,
    {
        if is_whitespace(c) {
            if stop == 0 {
                start = count + 1;
            }
        } else {
            stop = count + 1;
        }
        count += 1;
    }
    proof {
        assert(starts_content(text@, start as int));
        assert(stops_content(text@, stop as int));
        lemma_content_bounds_unique(text@, start as int, stop as int);
    }
    if start < stop {
        text.substring_char(start, stop)
    } else {
        let none = text.substring_char(0, 0);
        assert(none@ =~= Seq::<char>::empty());
        none
    }
}

} // verus!
