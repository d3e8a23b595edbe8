//! Content digests: the SHA-256 of a payload, written as 64 lower-case
//! hexadecimal digits. A digest names a staged artifact, so equal payloads
//! must get equal names.

use sha2::{Digest, Sha256};
use vstd::prelude::*;

verus! {

/// The SHA-256 hash of `message`, as the `sha2` crate computes it.
pub uninterp spec fn sha256(message: Seq<u8>) -> Seq<u8>;

/// Feeds `bytes` to a fresh `sha2::Sha256` hasher and finalizes it. The
/// result is the hash of `bytes`, and it is 32 bytes long.
#[verifier::external_body]
fn sha256_raw(bytes: &Vec<u8>) -> (hash: Vec<u8>)
    ensures
        hash@ == sha256(bytes@),
        hash@.len() == 32,
{
    let mut hasher = Sha256::new();
    hasher.update(bytes);
    hasher.finalize().to_vec()
}

/// The lower-case hexadecimal digit for `value`, which is below 16.
pub open spec fn hex_digit(value: int) -> char {
    if value == 0 {
        '0'
    } else if value == 1 {
        '1'
    } else if value == 2 {
        '2'
    } else if value == 3 {
        '3'
    } else if value == 4 {
        '4'
    } else if value == 5 {
        '5'
    } else if value == 6 {
        '6'
    } else if value == 7 {
        '7'
    } else if value == 8 {
        '8'
    } else if value == 9 {
        '9'
    } else if value == 10 {
        'a'
    } else if value == 11 {
        'b'
    } else if value == 12 {
        'c'
    } else if value == 13 {
        'd'
    } else if value == 14 {
        'e'
    } else {
        'f'
    }
}

/// Whether `c` is one of `0` to `9` or `a` to `f`.
pub open spec fn is_lower_hex(c: char) -> bool {
    ('0' <= c <= '9') || ('a' <= c <= 'f')
}

/// `bytes` in lower-case hexadecimal: two digits for each byte, the high
/// half first.
pub open spec fn hex_lower(bytes: Seq<u8>) -> Seq<char> {
    Seq::new(
        2 * bytes.len(),
        |i: int|
            if i % 2 == 0 {
                hex_digit(bytes[i / 2] as int / 16)
            } else {
                hex_digit(bytes[i / 2] as int % 16)
            },
    )
}

/// The content digest of `payload`.
pub open spec fn digest_of(payload: Seq<u8>) -> Seq<char> {
    hex_lower(sha256(payload))
}

/// The shape of every content digest: 64 lower-case hexadecimal digits.
pub open spec fn is_digest(text: Seq<char>) -> bool {
    text.len() == 64 && forall|i: int| 0 <= i < text.len() ==> is_lower_hex(#[trigger] text[i])
}

/// One hexadecimal digit as text.
fn hex_digit_text(value: u8) -> (digit: &'static str)
    requires
        value < 16,
    ensures
        digit@ == seq![hex_digit(value as int)],
{
    proof {
        reveal_strlit("0");
        reveal_strlit("1");
        reveal_strlit("2");
        reveal_strlit("3");
        reveal_strlit("4");
        reveal_strlit("5");
        reveal_strlit("6");
        reveal_strlit("7");
        reveal_strlit("8");
        reveal_strlit("9");
        reveal_strlit("a");
        reveal_strlit("b");
        reveal_strlit("c");
        reveal_strlit("d");
        reveal_strlit("e");
        reveal_strlit("f");
    }
    let digit = match value {
        0 => "0",
        1 => "1",
        2 => "2",
        3 => "3",
        4 => "4",
        5 => "5",
        6 => "6",
        7 => "7",
        8 => "8",
        9 => "9",
        10 => "a",
        11 => "b",
        12 => "c",
        13 => "d",
        14 => "e",
        _ => "f",
    };
    digit
}

/// Writes `bytes` in lower-case hexadecimal.
pub fn hex_lower_text(bytes: &Vec<u8>) -> (text: String)
    ensures
        text@ == hex_lower(bytes@),
{
    let mut text = String::new();
    let mut i: usize = 0;
    while i < bytes.len()
        invariant
            i <= bytes.len(),
            text@.len() == 2 * i,
            forall|j: int| 0 <= j < 2 * i ==> text@[j] == hex_lower(bytes@)[j],
        decreases bytes.len() - i,
    {
        let byte: u8 = bytes[i];
        text.append(hex_digit_text(byte / 16));
        text.append(hex_digit_text(byte % 16));
        i += 1;
    }
    text
}

/// Digests a payload into the hexadecimal text of its SHA-256 hash. The
/// digest is a function of the payload alone: the same bytes give the same
/// digest on every call.
pub fn sha256_digest_bytes(bytes: &Vec<u8>) -> (digest: String)
    ensures
        digest@ == digest_of(bytes@),
        is_digest(digest@),
{
    let hash = sha256_raw(bytes);
    proof {
        digest_of_is_digest(bytes@);
    }
    hex_lower_text(&hash)
}

/// Hexadecimal text is twice as long as the bytes it writes, and made of
/// hexadecimal digits only.
pub proof fn hex_lower_is_hexadecimal(bytes: Seq<u8>)
    ensures
        hex_lower(bytes).len() == 2 * bytes.len(),
        forall|i: int| 0 <= i < hex_lower(bytes).len() ==> is_lower_hex(#[trigger] hex_lower(bytes)[i]),
{
}

/// Different values below 16 have different digits.
proof fn hex_digit_is_injective(x: int, y: int)
    requires
        0 <= x < 16,
        0 <= y < 16,
        hex_digit(x) == hex_digit(y),
    ensures
        x == y,
{
}

/// Different bytes never share their hexadecimal text.
pub proof fn hex_lower_is_injective(a: Seq<u8>, b: Seq<u8>)
    requires
        hex_lower(a) == hex_lower(b),
    ensures
        a == b,
{
    assert(hex_lower(b).len() == 2 * b.len());
    assert forall|k: int| 0 <= k < a.len() implies a[k] == b[k] by {
        let x = a[k] as int;
        let y = b[k] as int;
        assert(hex_lower(b)[2 * k] == hex_digit(y / 16));
        assert(hex_lower(b)[2 * k + 1] == hex_digit(y % 16));
        hex_digit_is_injective(x / 16, y / 16);
        hex_digit_is_injective(x % 16, y % 16);
    }
}

/// Every content digest has the shape of one.
pub proof fn digest_of_is_digest(payload: Seq<u8>)
    requires
        sha256(payload).len() == 32,
    ensures
        is_digest(digest_of(payload)),
{
    hex_lower_is_hexadecimal(sha256(payload));
}

/// Equal payloads have equal digests, and two payloads share a digest only
/// if they share their SHA-256 hash.
pub proof fn digests_follow_the_hash(first: Seq<u8>, second: Seq<u8>)
    ensures
        first == second ==> digest_of(first) == digest_of(second),
        digest_of(first) == digest_of(second) <==> sha256(first) == sha256(second),
{
    if digest_of(first) == digest_of(second) {
        hex_lower_is_injective(sha256(first), sha256(second));
    }
}

} // verus!
