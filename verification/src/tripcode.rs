//! Tripcodes: short pseudonyms that tie a poster to a board for one day.
//!
//! A tripcode is the lowercase hex text of the first eight bytes of the
//! SHA-256 digest of the poster's address text, the daily salt and the board's
//! salt, fed to the hash in that order.

use crate::schema::TRIPCODE_COLUMN_CHARS;
use sha2::Digest;
use vstd::prelude::*;

verus! {

/// Digest bytes that make up a tripcode.
pub const TRIPCODE_DIGEST_BYTES: usize = 8;

/// Characters in a tripcode (two hex digits per digest byte).
pub const TRIPCODE_LEN: usize = 16;

/// The SHA-256 digest of `data`, as the sha2 crate computes it.
pub uninterp spec fn sha256(data: Seq<u8>) -> Seq<u8>;

/// The lowercase hex digit for a value below sixteen.
pub open spec fn hex_digit(n: int) -> char {
    if n < 10 {
        (('0' as int) + n) as char
    } else {
        (('a' as int) + n - 10) as char
    }
}

/// Lowercase hex text of `bytes`: the high nibble of each byte, then its low
/// nibble.
pub open spec fn hex_lower(bytes: Seq<u8>) -> Seq<char>
    decreases bytes.len(),
{
    if bytes.len() == 0 {
        Seq::empty()
    } else {
        seq![hex_digit(bytes[0] as int / 16), hex_digit(bytes[0] as int % 16)] + hex_lower(bytes.drop_first())
    }
}

/// Whether `c` is one of `0`-`9` or `a`-`f`.
pub open spec fn is_lower_hex_char(c: char) -> bool {
    ('0' <= c && c <= '9') || ('a' <= c && c <= 'f')
}

/// The bytes hashed for a tripcode.
pub open spec fn tripcode_input(ip_text: Seq<char>, daily_salt: Seq<u8>, board_salt: Seq<u8>) -> Seq<u8> {
    vstd::utf8::encode_utf8(ip_text) + daily_salt + board_salt
}

/// The tripcode of a poster with address text `ip_text` on a board with salt
/// `board_salt`, on the day whose salt is `daily_salt`.
pub open spec fn tripcode_of(ip_text: Seq<char>, daily_salt: Seq<u8>, board_salt: Seq<u8>) -> Seq<char> {
    hex_lower(sha256(tripcode_input(ip_text, daily_salt, board_salt)).take(TRIPCODE_DIGEST_BYTES as int))
}

/// `sha2::Sha256::digest`: the contract names the digest `sha256(data)` and
/// states the documented output size of 32 bytes.
#[verifier::external_body]
fn sha256_digest(data: &[u8]) -> (digest: Vec<u8>)
    ensures
        digest@ == sha256(data@),
        digest@.len() == 32,
{
    sha2::Sha256::digest(data).to_vec()
}

/// `hex::encode`: the contract states its lowercase encoding, two digits per
/// byte, high nibble first (as `BytesToHexChars` in the hex crate does).
#[verifier::external_body]
fn hex_encode(data: &[u8]) -> (text: String)
    ensures
        text@ == hex_lower(data@),
{
    hex::encode(data)
}

/// Hex text is twice as long as its bytes and made of lowercase hex digits.
pub proof fn lemma_hex_lower_shape(bytes: Seq<u8>)
    ensures
        hex_lower(bytes).len() == 2 * bytes.len(),
        forall|i: int| 0 <= i < hex_lower(bytes).len() ==> is_lower_hex_char(#[trigger] hex_lower(bytes)[i]),
    decreases bytes.len(),
{
    if bytes.len() > 0 {
        lemma_hex_lower_shape(bytes.drop_first());
        let tail = hex_lower(bytes.drop_first());
        assert forall|i: int| 0 <= i < hex_lower(bytes).len() implies is_lower_hex_char(#[trigger] hex_lower(bytes)[i]) by {
            if i >= 2 {
                assert(hex_lower(bytes)[i] == tail[i - 2]);
            }
        }
    }
}

/// Derives the tripcode of a poster from the text of their address, the
/// daily salt and the board's salt.
pub fn derive_tripcode(ip_text: &str, daily_salt: &[u8], board_salt: &[u8]) -> (code: String)
    ensures
        code@ == tripcode_of(ip_text@, daily_salt@, board_salt@),
        code@.len() == TRIPCODE_LEN,
        code@.len() <= TRIPCODE_COLUMN_CHARS,
        forall|i: int| 0 <= i < code@.len() ==> is_lower_hex_char(#[trigger] code@[i]),
{
    let mut input: Vec<u8> = Vec::new();
    input.extend_from_slice(ip_text.as_bytes());
    input.extend_from_slice(daily_salt);
    input.extend_from_slice(board_salt);
    assert(input@ =~= tripcode_input(ip_text@, daily_salt@, board_salt@));
    let mut digest = sha256_digest(input.as_slice());
    digest.truncate(TRIPCODE_DIGEST_BYTES);
    let code = hex_encode(digest.as_slice());
    proof {
        assert(digest@ =~= sha256(tripcode_input(ip_text@, daily_salt@, board_salt@)).take(8));
        lemma_hex_lower_shape(digest@);
    }
    code
}

} // verus!
