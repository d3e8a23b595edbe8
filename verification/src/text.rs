//! Text as sequences of characters: decoding captured bytes, trimming white
//! space, and the bytes a text is stored as.

use vstd::prelude::*;
use vstd::utf8::{decode_utf8, encode_utf8, valid_utf8};

verus! {

/// The error of `String::from_utf8`; only carried, never inspected.
#[verifier::external_type_specification]
#[verifier::external_body]
pub struct ExFromUtf8Error(std::string::FromUtf8Error);

/// `String::from_utf8` accepts exactly the byte vectors that are well-formed
/// UTF-8, and the string it returns is stored as the very bytes it was given.
pub assume_specification[ String::from_utf8 ](bytes: Vec<u8>) -> (res: Result<
    String,
    std::string::FromUtf8Error,
>)
    ensures
        res is Ok <==> valid_utf8(bytes@),
        res matches Ok(text) ==> encode_utf8(text@) == bytes@,
;

/// The text that `bytes` encode, if they are well-formed UTF-8.
pub open spec fn text_of(bytes: Seq<u8>) -> Option<Seq<char>> {
    if valid_utf8(bytes) {
        Some(decode_utf8(bytes))
    } else {
        None
    }
}

/// The mathematical value of bytes that may be missing.
pub open spec fn bytes_model(bytes: Option<Vec<u8>>) -> Option<Seq<u8>> {
    match bytes {
        Some(present) => Some(present@),
        None => None,
    }
}

/// Decodes captured bytes as UTF-8 text.
pub fn decode_text(bytes: Vec<u8>) -> (text: Option<String>)
    ensures
        text.deep_view() == text_of(bytes@),
{
    match String::from_utf8(bytes) {
        Ok(decoded) => {
            proof {
                vstd::utf8::encode_utf8_decode_utf8(decoded@);
            }
            Some(decoded)
        },
        Err(_) => None,
    }
}

/// The bytes that `text` is stored as.
pub fn text_bytes(text: &str) -> (bytes: Vec<u8>)
    ensures
        bytes@ == encode_utf8(text@),
{
    text.as_bytes_vec()
}

/// The bytes of a text that is two texts joined are the bytes of the one
/// followed by the bytes of the other.
pub proof fn bytes_of_joined_text(first: Seq<char>, second: Seq<char>)
    ensures
        encode_utf8(first + second) == encode_utf8(first) + encode_utf8(second),
    decreases first.len(),
{
    if first.len() > 0 {
        bytes_of_joined_text(first.drop_first(), second);
        assert((first + second).drop_first() =~= first.drop_first() + second);
    }
}

/// Whether `c` has the Unicode property `White_Space`.
pub open spec fn is_white_space(c: char) -> bool {
    ||| '\u{9}' <= c <= '\u{D}'
    ||| c == ' '
    ||| c == '\u{85}'
    ||| c == '\u{A0}'
    ||| c == '\u{1680}'
    ||| '\u{2000}' <= c <= '\u{200A}'
    ||| c == '\u{2028}'
    ||| c == '\u{2029}'
    ||| c == '\u{202F}'
    ||| c == '\u{205F}'
    ||| c == '\u{3000}'
}

/// Whether every character of `s` is white space.
pub open spec fn all_white_space(s: Seq<char>) -> bool {
    forall|i: int| 0 <= i < s.len() ==> is_white_space(#[trigger] s[i])
}

/// `s` without its leading white space.
pub open spec fn without_leading_white_space(s: Seq<char>) -> Seq<char>
    decreases s.len(),
{
    if s.len() > 0 && is_white_space(s.first()) {
        without_leading_white_space(s.drop_first())
    } else {
        s
    }
}

/// `s` without its trailing white space.
pub open spec fn without_trailing_white_space(s: Seq<char>) -> Seq<char>
    decreases s.len(),
{
    if s.len() > 0 && is_white_space(s.last()) {
        without_trailing_white_space(s.drop_last())
    } else {
        s
    }
}

/// `s` without the white space that surrounds it.
pub open spec fn trimmed(s: Seq<char>) -> Seq<char> {
    without_trailing_white_space(without_leading_white_space(s))
}

/// Tests a character for the Unicode property `White_Space`.
pub fn is_white_space_char(c: char) -> (yes: bool)
    ensures
        yes == is_white_space(c),
{
    ('\u{9}' <= c && c <= '\u{D}') || c == ' ' || c == '\u{85}' || c == '\u{A0}' || c
        == '\u{1680}' || ('\u{2000}' <= c && c <= '\u{200A}') || c == '\u{2028}' || c
        == '\u{2029}' || c == '\u{202F}' || c == '\u{205F}' || c == '\u{3000}'
}

/// Removes the white space that surrounds `text`.
pub fn trim(text: &str) -> (out: String)
    ensures
        out@ == trimmed(text@),
{
    let n: usize = text.unicode_len();
    let mut start: usize = 0;
    proof {
        assert(text@.skip(0) =~= text@);
    }
    while start < n && is_white_space_char(text.get_char(start))
        invariant
            n == text@.len(),
            start <= n,
            without_leading_white_space(text@) == without_leading_white_space(
                text@.skip(start as int),
            ),
        decreases n - start,
    {
        proof {
            assert(text@.skip(start as int).drop_first() =~= text@.skip(start + 1));
        }
        start += 1;
    }
    let ghost body = text@.skip(start as int);
    let mut end: usize = n;
    while end > start && is_white_space_char(text.get_char(end - 1))
        invariant
            n == text@.len(),
            start <= end <= n,
            body == without_leading_white_space(text@),
            without_trailing_white_space(body) == without_trailing_white_space(
                text@.subrange(start as int, end as int),
            ),
        decreases end,
    {
        proof {
            assert(text@.subrange(start as int, end as int).drop_last() =~= text@.subrange(
                start as int,
                end - 1,
            ));
        }
        end -= 1;
    }
    String::from_str(text.substring_char(start, end))
}

/// What trimming leaves: a stretch of `s` that neither begins nor ends with
/// white space, with nothing but white space to either side of it.
pub proof fn trimmed_is_the_core(s: Seq<char>)
    ensures
        exists|i: int, j: int|
            0 <= i <= j <= s.len() && #[trigger] s.subrange(i, j) == trimmed(s)
                && all_white_space(s.take(i)) && all_white_space(s.skip(j)),
        trimmed(s).len() > 0 ==> !is_white_space(trimmed(s).first()) && !is_white_space(
            trimmed(s).last(),
        ),
{
    let i = leading_split(s);
    let body = without_leading_white_space(s);
    let k = trailing_split(body);
    assert(body.take(k) =~= s.subrange(i, i + k));
    assert(all_white_space(s.skip(i + k))) by {
        assert forall|x: int| 0 <= x < s.skip(i + k).len() implies is_white_space(
            #[trigger] s.skip(i + k)[x],
        ) by {
            assert(s.skip(i + k)[x] == body.skip(k)[x]);
        }
    }
}

/// Where the leading white space of `s` ends.
proof fn leading_split(s: Seq<char>) -> (i: int)
    ensures
        0 <= i <= s.len(),
        all_white_space(s.take(i)),
        without_leading_white_space(s) == s.skip(i),
        i < s.len() ==> !is_white_space(s[i]),
    decreases s.len(),
{
    if s.len() > 0 && is_white_space(s.first()) {
        let rest = leading_split(s.drop_first());
        assert forall|x: int| 0 <= x < rest + 1 implies is_white_space(
            #[trigger] s.take(rest + 1)[x],
        ) by {
            if x > 0 {
                assert(s.take(rest + 1)[x] == s.drop_first().take(rest)[x - 1]);
            }
        }
        rest + 1
    } else {
        0
    }
}

/// Where the trailing white space of `s` begins.
proof fn trailing_split(s: Seq<char>) -> (j: int)
    ensures
        0 <= j <= s.len(),
        all_white_space(s.skip(j)),
        without_trailing_white_space(s) == s.take(j),
        j > 0 ==> !is_white_space(s[j - 1]),
    decreases s.len(),
{
    if s.len() > 0 && is_white_space(s.last()) {
        let j = trailing_split(s.drop_last());
        assert forall|x: int| 0 <= x < s.skip(j).len() implies is_white_space(
            #[trigger] s.skip(j)[x],
        ) by {
            if x < s.len() - 1 - j {
                assert(s.skip(j)[x] == s.drop_last().skip(j)[x]);
            }
        }
        j
    } else {
        s.len() as int
    }
}

} // verus!
