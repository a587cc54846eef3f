//! Credential hashing and token generation.
//!
//! A token is 32 bytes of operating-system randomness in lowercase
//! hexadecimal. Only the SHA-256 of a token, again in hexadecimal, is ever
//! kept.

use rand::RngCore;
use sha2::{Digest, Sha256};
use vstd::prelude::*;
use vstd::string::StringExecFns;
use vstd::utf8::encode_utf8;

verus! {

/// Bytes of randomness in a token.
pub const TOKEN_BYTES: usize = 32;

/// The SHA-256 digest of `data`, as the `sha2` crate computes it.
pub uninterp spec fn sha256_digest(data: Seq<u8>) -> Seq<u8>;

/// `Digest::digest` of `sha2::Sha256`: the digest of the whole input. The
/// contract gives that digest its name and claims nothing else of it.
#[verifier::external_body]
fn sha256(data: &[u8]) -> (digest: Vec<u8>)
    ensures
        digest@ == sha256_digest(data@),
{
    Sha256::digest(data).to_vec()
}

/// The lowercase hexadecimal digit of a value below sixteen.
pub open spec fn hex_digit(nibble: int) -> char {
    seq!['0', '1', '2', '3', '4', '5', '6', '7', '8', '9', 'a', 'b', 'c', 'd', 'e', 'f'][nibble]
}

/// Two lowercase hexadecimal digits for each byte, the high half first.
pub open spec fn hex_lower(data: Seq<u8>) -> Seq<char> {
    Seq::new(
        2 * data.len(),
        |i: int|
            if i % 2 == 0 {
                hex_digit(data[i / 2] as int / 16)
            } else {
                hex_digit(data[i / 2] as int % 16)
            },
    )
}

fn hex_digit_text(nibble: u8) -> (text: &'static str)
    requires
        nibble < 16,
    ensures
        text@ == seq![hex_digit(nibble as int)],
{
    proof {
        reveal_strlit("0");
        reveal_strlit("1");
        reveal_strlit("2");
        reveal_strlit("3");
        reveal_strlit("4");
        reveal_strlit("5");
        reveal_strlit("6");
        reveal_strlit("7");
        reveal_strlit("8");
        reveal_strlit("9");
        reveal_strlit("a");
        reveal_strlit("b");
        reveal_strlit("c");
        reveal_strlit("d");
        reveal_strlit("e");
        reveal_strlit("f");
    }
    let text = if nibble == 0 {
        "0"
    } else if nibble == 1 {
        "1"
    } else if nibble == 2 {
        "2"
    } else if nibble == 3 {
        "3"
    } else if nibble == 4 {
        "4"
    } else if nibble == 5 {
        "5"
    } else if nibble == 6 {
        "6"
    } else if nibble == 7 {
        "7"
    } else if nibble == 8 {
        "8"
    } else if nibble == 9 {
        "9"
    } else if nibble == 10 {
        "a"
    } else if nibble == 11 {
        "b"
    } else if nibble == 12 {
        "c"
    } else if nibble == 13 {
        "d"
    } else if nibble == 14 {
        "e"
    } else {
        "f"
    };
    assert(text@ =~= seq![hex_digit(nibble as int)]);
    text
}

/// The bytes in lowercase hexadecimal.
pub fn hex_encode(data: &[u8]) -> (text: String)
    ensures
        text@ == hex_lower(data@),
{
    let mut text = String::new();
    let mut i: usize = 0;
    while i < data.len()
        invariant
            i <= data.len(),
            text@.len() == 2 * i,
            forall|j: int| 0 <= j < 2 * i ==> #[trigger] text@[j] == hex_lower(data@)[j],
        decreases data.len() - i,
    {
        let byte: u8 = data[i];
        let ghost before = text@;
        text.append(hex_digit_text(byte / 16));
        text.append(hex_digit_text(byte % 16));
        assert forall|j: int| 0 <= j < 2 * (i + 1) implies #[trigger] text@[j] == hex_lower(
            data@,
        )[j] by {
            if j < 2 * i {
                assert(text@[j] == before[j]);
            }
        }
        i = i + 1;
    }
    assert(text@ =~= hex_lower(data@));
    text
}

/// What is kept of a token: the hexadecimal SHA-256 of its UTF-8 bytes.
pub open spec fn credential_hash(token: Seq<char>) -> Seq<char> {
    hex_lower(sha256_digest(encode_utf8(token)))
}

/// The hexadecimal SHA-256 of the UTF-8 bytes of `s`.
pub fn sha256_hex(s: &str) -> (hash: String)
    ensures
        hash@ == credential_hash(s@),
{
    let digest = sha256(s.as_bytes());
    hex_encode(digest.as_slice())
}

/// A digit out of `0123456789abcdef`.
pub open spec fn is_lower_hex(c: char) -> bool {
    ('0' <= c && c <= '9') || ('a' <= c && c <= 'f')
}

/// The shape of a token: 64 lowercase hexadecimal digits.
pub open spec fn is_token(text: Seq<char>) -> bool {
    &&& text.len() == 2 * TOKEN_BYTES
    &&& forall|i: int| 0 <= i < text.len() ==> is_lower_hex(#[trigger] text[i])
}

/// Every character of a hexadecimal encoding is a lowercase digit.
pub proof fn lemma_hex_lower_digits(data: Seq<u8>)
    ensures
        hex_lower(data).len() == 2 * data.len(),
        forall|i: int| 0 <= i < 2 * data.len() ==> is_lower_hex(#[trigger] hex_lower(data)[i]),
{
}

/// `rand::Error`, carried through as an opaque value.
#[verifier::external_type_specification]
#[verifier::external_body]
pub struct ExRandError(rand::Error);

/// `RngCore::try_fill_bytes` of `rand::rngs::OsRng`: overwrites the buffer
/// with randomness of the operating system, or reports that none could be
/// had. Nothing is claimed of the bytes.
#[verifier::external_body]
fn os_random(buffer: &mut [u8; 32]) -> (outcome: Result<(), rand::Error>) {
    rand::rngs::OsRng.try_fill_bytes(buffer)
}

/// The operating system could not supply randomness.
#[derive(Debug, Clone, Copy, PartialEq, Eq)]
pub struct EntropyError;

/// The token that stands for 32 given bytes.
pub fn token_from_bytes(bytes: &[u8; 32]) -> (token: String)
    ensures
        token@ == hex_lower(bytes@),
        is_token(token@),
{
    proof {
        lemma_hex_lower_digits(bytes@);
    }
    hex_encode(bytes.as_slice())
}

/// A new token from the randomness of the operating system.
pub fn generate_token() -> (outcome: Result<String, EntropyError>)
    ensures
        outcome matches Ok(token) ==> is_token(token@),
{
    let mut bytes: [u8; 32] = [0u8; 32];
    match os_random(&mut bytes) {
        Ok(_) => Ok(token_from_bytes(&bytes)),
        Err(_) => Err(EntropyError),
    }
}

} // verus!
