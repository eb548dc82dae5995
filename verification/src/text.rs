//! Text handling shared by the resolver and the probe: decoding captured
//! output, Unicode whitespace, trimming, and taking the first line.
//!
//! Everything is specified over `Seq<char>`, the view of `str` and `String`.

use vstd::prelude::*;
use vstd::string::*;
use vstd::utf8::*;

verus! {

/// Whether `c` carries the Unicode `White_Space` property.
pub open spec fn is_space(c: char) -> bool {
    let n = c as u32;
    ||| 0x09 <= n <= 0x0D
    ||| n == 0x20
    ||| n == 0x85
    ||| n == 0xA0
    ||| n == 0x1680
    ||| 0x2000 <= n <= 0x200A
    ||| n == 0x2028
    ||| n == 0x2029
    ||| n == 0x202F
    ||| n == 0x205F
    ||| n == 0x3000
}

/// The number of leading whitespace characters of `s`.
pub open spec fn leading_spaces(s: Seq<char>) -> nat
    decreases s.len(),
{
    if s.len() > 0 && is_space(s[0]) {
        1 + leading_spaces(s.skip(1))
    } else {
        0
    }
}

/// The number of trailing whitespace characters of `s`.
pub open spec fn trailing_spaces(s: Seq<char>) -> nat
    decreases s.len(),
{
    if s.len() > 0 && is_space(s.last()) {
        1 + trailing_spaces(s.drop_last())
    } else {
        0
    }
}

/// `s` without its leading and trailing whitespace.
pub open spec fn trim(s: Seq<char>) -> Seq<char> {
    let rest = s.skip(leading_spaces(s) as int);
    rest.take(rest.len() - trailing_spaces(rest))
}

/// The position of the first line feed in `s`, or `s.len()` where there is none.
pub open spec fn line_end(s: Seq<char>) -> nat
    decreases s.len(),
{
    if s.len() > 0 && s[0] != '\n' {
        1 + line_end(s.skip(1))
    } else {
        0
    }
}

/// The first line of `s`, without its terminator: the text before the first
/// line feed, less one carriage return where it stands directly before that
/// line feed. A text without a line feed is its own first line.
pub open spec fn first_line(s: Seq<char>) -> Seq<char> {
    let end = line_end(s) as int;
    if end < s.len() && end > 0 && s[end - 1] == '\r' {
        s.take(end - 1)
    } else {
        s.take(end)
    }
}

/// The text that `String::from_utf8_lossy` makes of a byte sequence: the
/// decoded characters, with U+FFFD in place of each ill-formed part.
pub uninterp spec fn utf8_lossy(bytes: Seq<u8>) -> Seq<char>;

/// Decodes captured output with `String::from_utf8_lossy`.
///
/// Trusted: the result is `utf8_lossy` of the bytes, and well-formed UTF-8
/// decodes to exactly the characters it encodes. Nothing is claimed of how
/// ill-formed input is replaced.
#[verifier::external_body]
pub(crate) fn decode_lossy(bytes: &[u8]) -> (text: String)
    ensures
        text@ == utf8_lossy(bytes@),
        valid_utf8(bytes@) ==> text@ == decode_utf8(bytes@),
{
    String::from_utf8_lossy(bytes).into_owned()
}

/// Tests a character for the Unicode `White_Space` property.
pub fn char_is_space(c: char) -> (b: bool)
    ensures
        b == is_space(c),
{
    let n: u32 = c as u32;
    (0x09 <= n && n <= 0x0D) || n == 0x20 || n == 0x85 || n == 0xA0 || n == 0x1680 || (0x2000 <= n
        && n <= 0x200A) || n == 0x2028 || n == 0x2029 || n == 0x202F || n == 0x205F || n == 0x3000
}

/// The characters of `s`, in order.
pub fn chars_of(s: &str) -> (chars: Vec<char>)
    ensures
        chars@ == s@,
{
    let mut chars: Vec<char> = Vec::new();
    for c in it: s.chars()
        invariant
            chars@ == it.seq().take(it.index() as int),
            it.seq() == s@,
    {
        chars.push(c);
    }
    chars
}

/// `s` without its leading and trailing whitespace, as a new string.
pub fn trimmed(s: &str) -> (out: String)
    ensures
        out@ == trim(s@),
{
    let chars = chars_of(s);
    let n = chars.len();
    let mut start: usize = 0;
    assert(s@.skip(0) =~= s@);
    while start < n && char_is_space(chars[start])
        invariant
            chars@ == s@,
            n == chars.len(),
            start <= n,
            leading_spaces(s@) == start + leading_spaces(s@.skip(start as int)),
        decreases n - start,
    {
        assert(s@.skip(start as int).skip(1) =~= s@.skip(start + 1));
        start += 1;
    }
    let ghost rest = s@.skip(start as int);
    assert(leading_spaces(s@) == start);
    let mut end: usize = n;
    while end > start && char_is_space(chars[end - 1])
        invariant
            chars@ == s@,
            n == chars.len(),
            start <= end <= n,
            rest == s@.skip(start as int),
            trailing_spaces(rest) == (n - end) + trailing_spaces(
                s@.subrange(start as int, end as int),
            ),
        decreases end - start,
    {
        assert(s@.subrange(start as int, end as int).drop_last() =~= s@.subrange(
            start as int,
            end - 1,
        ));
        end -= 1;
    }
    assert(rest.take(rest.len() - trailing_spaces(rest)) =~= s@.subrange(start as int, end as int))
        by {
        assert(rest =~= s@.subrange(start as int, n as int));
    }
    String::from_str(s.substring_char(start, end))
}

/// The first line of `s` without its terminator, as a new string.
pub fn first_line_of(s: &str) -> (out: String)
    ensures
        out@ == first_line(s@),
{
    let chars = chars_of(s);
    let n = chars.len();
    let mut end: usize = 0;
    assert(s@.skip(0) =~= s@);
    while end < n && chars[end] != '\n'
        invariant
            chars@ == s@,
            n == chars.len(),
            end <= n,
            line_end(s@) == end + line_end(s@.skip(end as int)),
        decreases n - end,
    {
        assert(s@.skip(end as int).skip(1) =~= s@.skip(end + 1));
        end += 1;
    }
    assert(line_end(s@) == end);
    let stop = if end < n && end > 0 && chars[end - 1] == '\r' {
        end - 1
    } else {
        end
    };
    assert(s@.take(stop as int) =~= s@.subrange(0, stop as int));
    String::from_str(s.substring_char(0, stop))
}

/// The leading whitespace of `s` is a run of whitespace that ends at the
/// first other character.
pub proof fn lemma_leading_spaces(s: Seq<char>)
    ensures
        leading_spaces(s) <= s.len(),
        forall|i: int| 0 <= i < leading_spaces(s) ==> is_space(#[trigger] s[i]),
        leading_spaces(s) < s.len() ==> !is_space(s[leading_spaces(s) as int]),
    decreases s.len(),
{
    if s.len() > 0 && is_space(s[0]) {
        let rest = s.skip(1);
        lemma_leading_spaces(rest);
        assert forall|i: int| 0 <= i < leading_spaces(s) implies is_space(#[trigger] s[i]) by {
            if i > 0 {
                assert(s[i] == rest[i - 1]);
            }
        }
        if leading_spaces(s) < s.len() {
            assert(s[leading_spaces(s) as int] == rest[leading_spaces(rest) as int]);
        }
    }
}

/// The trailing whitespace of `s` is a run of whitespace that begins
/// behind the last other character.
pub proof fn lemma_trailing_spaces(s: Seq<char>)
    ensures
        trailing_spaces(s) <= s.len(),
        forall|i: int| s.len() - trailing_spaces(s) <= i < s.len() ==> is_space(#[trigger] s[i]),
        trailing_spaces(s) < s.len() ==> !is_space(s[s.len() - trailing_spaces(s) - 1]),
    decreases s.len(),
{
    if s.len() > 0 && is_space(s.last()) {
        let rest = s.drop_last();
        lemma_trailing_spaces(rest);
        assert forall|i: int| s.len() - trailing_spaces(s) <= i < s.len() implies is_space(
            #[trigger] s[i],
        ) by {
            if i < s.len() - 1 {
                assert(s[i] == rest[i]);
            }
        }
        if trailing_spaces(s) < s.len() {
            assert(s[s.len() - trailing_spaces(s) - 1] == rest[rest.len() - trailing_spaces(rest)
                - 1]);
        }
    }
}

/// Trimming cuts a stretch out of the text, cuts away nothing but
/// whitespace, and leaves none at either end.
pub proof fn lemma_trim_cuts_outer_space(s: Seq<char>)
    ensures
        ({
            let from = leading_spaces(s) as int;
            let to = from + trim(s).len();
            &&& 0 <= from <= to <= s.len()
            &&& trim(s) == s.subrange(from, to)
            &&& forall|i: int| 0 <= i < from ==> is_space(#[trigger] s[i])
            &&& forall|i: int| to <= i < s.len() ==> is_space(#[trigger] s[i])
            &&& trim(s).len() > 0 ==> !is_space(trim(s).first()) && !is_space(trim(s).last())
        }),
{
    let from = leading_spaces(s) as int;
    lemma_leading_spaces(s);
    let rest = s.skip(from);
    lemma_trailing_spaces(rest);
    let to = from + trim(s).len();
    assert(trim(s) =~= s.subrange(from, to));
    assert forall|i: int| to <= i < s.len() implies is_space(#[trigger] s[i]) by {
        assert(s[i] == rest[i - from]);
    }
    if trim(s).len() > 0 {
        assert(trim(s).first() == s[from]);
        assert(trim(s).last() == rest[rest.len() - trailing_spaces(rest) - 1]);
    }
}

/// The first line holds no line feed, and the text goes on with one
/// wherever the line stops short of its end.
pub proof fn lemma_line_end(s: Seq<char>)
    ensures
        line_end(s) <= s.len(),
        forall|i: int| 0 <= i < line_end(s) ==> #[trigger] s[i] != '\n',
        line_end(s) < s.len() ==> s[line_end(s) as int] == '\n',
    decreases s.len(),
{
    if s.len() > 0 && s[0] != '\n' {
        let rest = s.skip(1);
        lemma_line_end(rest);
        assert forall|i: int| 0 <= i < line_end(s) implies #[trigger] s[i] != '\n' by {
            if i > 0 {
                assert(s[i] == rest[i - 1]);
            }
        }
        if line_end(s) < s.len() {
            assert(s[line_end(s) as int] == rest[line_end(rest) as int]);
        }
    }
}

/// The first line is the beginning of the text and holds no line feed.
pub proof fn lemma_first_line_is_one_line(s: Seq<char>)
    ensures
        first_line(s).len() <= s.len(),
        first_line(s) == s.take(first_line(s).len() as int),
        forall|i: int| 0 <= i < first_line(s).len() ==> #[trigger] first_line(s)[i] != '\n',
{
    lemma_line_end(s);
    assert forall|i: int| 0 <= i < first_line(s).len() implies #[trigger] first_line(s)[i]
        != '\n' by {
        assert(first_line(s)[i] == s[i]);
    }
}

} // verus!
