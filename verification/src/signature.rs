//! Request signatures: HMAC-SHA256 over the canonical parameters, written in
//! lower-case hexadecimal.
//!
//! The signed message is the canonical parameters, a dollar sign and the
//! secret; the secret is also the HMAC key. The secret thus enters twice.
//! Tokens are only valid under exactly this scheme.

use vstd::prelude::*;
use vstd::slice::*;
use vstd::string::*;
use vstd::utf8::*;
use crate::text::same_text;

verus! {

/// The SHA-256 digest of a byte string, as the `sha2` crate computes it.
pub uninterp spec fn sha256_digest(data: Seq<u8>) -> Seq<u8>;

/// Calls `sha2::Sha256::digest`. Not proved: that the result is the SHA-256
/// digest of `data`, which depends on `data` alone and is 32 bytes long.
#[verifier::external_body]
fn sha256(data: &[u8]) -> (digest: Vec<u8>)
    ensures
        digest@ == sha256_digest(data@),
        digest@.len() == 32,
{
    <sha2::Sha256 as sha2::Digest>::digest(data).to_vec()
}

/// The lower-case hexadecimal digit for a value below sixteen.
pub open spec fn hex_digit(v: int) -> char {
    if v < 10 {
        (0x30 + v) as u8 as char
    } else {
        (0x61 + v - 10) as u8 as char
    }
}

/// The lower-case hexadecimal text of a byte string: two digits for each
/// byte, the high half first.
pub open spec fn hex_text(data: Seq<u8>) -> Seq<char> {
    Seq::new(
        2 * data.len(),
        |i: int|
            if i % 2 == 0 {
                hex_digit(data[i / 2] as int / 16)
            } else {
                hex_digit(data[i / 2] as int % 16)
            },
    )
}

/// Calls `hex::encode`. Not proved: that the result is the lower-case
/// hexadecimal text of `data`, two digits for each byte.
#[verifier::external_body]
fn hex_encode(data: &[u8]) -> (text: String)
    ensures
        text@ == hex_text(data@),
{
    hex::encode(data)
}

/// The block length of SHA-256 in bytes.
pub const BLOCK_LEN: usize = 64;

/// The key as HMAC uses it: a key longer than one block is replaced by its
/// digest, and the result is filled with zero bytes up to one block.
pub open spec fn block_key(key: Seq<u8>) -> Seq<u8> {
    let k = if key.len() > BLOCK_LEN { sha256_digest(key) } else { key };
    if k.len() >= BLOCK_LEN {
        k
    } else {
        k + Seq::new((BLOCK_LEN - k.len()) as nat, |i: int| 0u8)
    }
}

/// Each byte of a block combined with `pad` by exclusive or.
pub open spec fn masked(block: Seq<u8>, pad: u8) -> Seq<u8> {
    Seq::new(block.len(), |i: int| block[i] ^ pad)
}

/// HMAC-SHA256 of `message` under `key`: the digest of the key masked with
/// `0x5c` followed by the digest of the key masked with `0x36` followed by
/// the message.
pub open spec fn hmac(key: Seq<u8>, message: Seq<u8>) -> Seq<u8> {
    sha256_digest(
        masked(block_key(key), 0x5c) + sha256_digest(masked(block_key(key), 0x36) + message),
    )
}

/// The bytes that are signed: the canonical parameters, `$`, the secret.
pub open spec fn signed_message(params: Seq<char>, secret: Seq<char>) -> Seq<u8> {
    encode_utf8(params) + seq![0x24u8] + encode_utf8(secret)
}

/// The token that signs `params` under `secret`.
pub open spec fn signature(params: Seq<char>, secret: Seq<char>) -> Seq<char> {
    hex_text(hmac(encode_utf8(secret), signed_message(params, secret)))
}

/// Appends the bytes of `tail` to `buf`.
fn append_bytes(buf: &mut Vec<u8>, tail: &[u8])
    ensures
        final(buf)@ == old(buf)@ + tail@,
{
    let n: usize = tail.len();
    let mut i: usize = 0;
    while i < n
        invariant
            i <= n,
            n == tail@.len(),
            buf@ == old(buf)@ + tail@.take(i as int),
        decreases n - i,
    {
        buf.push(tail[i]);
        assert(tail@.take(i + 1) =~= tail@.take(i as int).push(tail@[i as int]));
        assert(buf@ =~= old(buf)@ + tail@.take(i + 1));
        i = i + 1;
    }
    assert(tail@.take(n as int) =~= tail@);
}

/// The key of one block's length that HMAC derives from `key`.
fn derive_block_key(key: &[u8]) -> (block: Vec<u8>)
    ensures
        block@ == block_key(key@),
        block@.len() == BLOCK_LEN,
{
    let mut block: Vec<u8> = if key.len() > BLOCK_LEN {
        sha256(key)
    } else {
        slice_to_vec(key)
    };
    let ghost k = block@;
    while block.len() < BLOCK_LEN
        invariant
            k.len() <= BLOCK_LEN,
            k.len() <= block@.len() <= BLOCK_LEN,
            block@ =~= k + Seq::new((block@.len() - k.len()) as nat, |i: int| 0u8),
        decreases BLOCK_LEN - block@.len(),
    {
        block.push(0);
    }
    assert(block@ =~= block_key(key@));
    block
}

/// A copy of `block` with each byte combined with `pad` by exclusive or.
fn mask_block(block: &Vec<u8>, pad: u8) -> (out: Vec<u8>)
    ensures
        out@ == masked(block@, pad),
{
    let n: usize = block.len();
    let mut out: Vec<u8> = Vec::with_capacity(n);
    let mut i: usize = 0;
    while i < n
        invariant
            i <= n,
            n == block@.len(),
            out@ =~= masked(block@, pad).take(i as int),
        decreases n - i,
    {
        out.push(block[i] ^ pad);
        i = i + 1;
    }
    assert(out@ =~= masked(block@, pad));
    out
}

/// Computes HMAC-SHA256 of `message` under `key`.
pub fn hmac_sha256(key: &[u8], message: &[u8]) -> (mac: Vec<u8>)
    ensures
        mac@ == hmac(key@, message@),
        mac@.len() == 32,
{
    let block = derive_block_key(key);
    let mut inner = mask_block(&block, 0x36);
    append_bytes(&mut inner, message);
    let inner_digest = sha256(inner.as_slice());
    let mut outer = mask_block(&block, 0x5c);
    append_bytes(&mut outer, inner_digest.as_slice());
    sha256(outer.as_slice())
}

/// Signs the canonical parameters under a secret.
pub fn sign(params: &str, secret: &str) -> (token: String)
    ensures
        token@ == signature(params@, secret@),
        token@.len() == 64,
{
    let mut message: Vec<u8> = Vec::new();
    append_bytes(&mut message, params.as_bytes());
    message.push(0x24);
    append_bytes(&mut message, secret.as_bytes());
    assert(message@ =~= signed_message(params@, secret@));
    let mac = hmac_sha256(secret.as_bytes(), message.as_slice());
    hex_encode(mac.as_slice())
}

/// Whether a token verifies: it is the signature, character for character.
pub open spec fn verifies(params: Seq<char>, token: Seq<char>, secret: Seq<char>) -> bool {
    token == signature(params, secret)
}

/// Whether `token` is the signature of `params` under `secret`. The token is
/// compared as a whole with the expected text, so one that verifies has 64
/// characters.
pub fn verify(params: &str, token: &str, secret: &str) -> (ok: bool)
    ensures
        ok == verifies(params@, token@, secret@),
        ok ==> token@.len() == 64,
{
    let expected = sign(params, secret);
    same_text(expected.as_str(), token)
}

/// The token that signing gives verifies under the same secret.
pub proof fn signature_round_trip(params: Seq<char>, secret: Seq<char>)
    ensures
        verifies(params, signature(params, secret), secret),
{
}

/// A token that differs from the signature anywhere does not verify: not
/// one with a character changed, nor one that is shorter or longer.
pub proof fn altered_token_fails(params: Seq<char>, token: Seq<char>, secret: Seq<char>)
    requires
        token.len() != signature(params, secret).len() || exists|i: int|
            0 <= i < token.len() && #[trigger] token[i] != signature(params, secret)[i],
    ensures
        !verifies(params, token, secret),
{
}

} // verus!
