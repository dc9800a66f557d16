//! Integrity hashing: a streaming SHA-256 digest over the artifact
//! payload, fed in fixed-size chunks, and its lowercase hexadecimal
//! rendering. The digest itself comes from the `ring` crate and the hex
//! rendering from `data_encoding`; the chunking loop around them is
//! verified here.

use vstd::prelude::*;
use vstd::slice::slice_subrange;

verus! {

/// The SHA-256 digest of `data`: 32 bytes, determined by `data` alone.
pub uninterp spec fn spec_sha256(data: Seq<u8>) -> Seq<u8>;

/// The input bytes fed so far into a streaming digest context.
pub uninterp spec fn spec_ctx_input(ctx: ring::digest::Context) -> Seq<u8>;

#[verifier::external_type_specification]
#[verifier::external_body]
pub struct ExDigestContext(ring::digest::Context);

/// Relies on `ring::digest::Context::new` with the SHA-256 algorithm: a
/// freshly constructed context has been fed no input yet.
#[verifier::external_body]
fn sha256_context_new() -> (ctx: ring::digest::Context)
    ensures
        spec_ctx_input(ctx) == Seq::<u8>::empty(),
{
    ring::digest::Context::new(&ring::digest::SHA256)
}

/// Relies on `ring::digest::Context::update`: it appends `data` to the
/// input the digest is computed over, and never panics.
#[verifier::external_body]
fn sha256_context_update(ctx: &mut ring::digest::Context, data: &[u8])
    ensures
        spec_ctx_input(*final(ctx)) == spec_ctx_input(*old(ctx)) + data@,
{
    ctx.update(data);
}

/// Relies on `ring::digest::Context::finish`: it returns the SHA-256
/// digest, 32 bytes, of all input fed so far. `finish` can fail only
/// when the input exceeds the SHA-256 limit of `2^64 - 1` bits; the
/// precondition keeps the input below `2^61` bytes, under that limit.
#[verifier::external_body]
fn sha256_context_finish(ctx: ring::digest::Context) -> (digest: Vec<u8>)
    requires
        spec_ctx_input(ctx).len() < 0x2000000000000000,
    ensures
        digest@ == spec_sha256(spec_ctx_input(ctx)),
        digest@.len() == 32,
{
    ctx.finish().as_ref().to_vec()
}

/// The lowercase hexadecimal digit for a value below 16.
pub open spec fn spec_hex_digit(nibble: u8) -> char
    recommends
        nibble < 16,
{
    seq!['0', '1', '2', '3', '4', '5', '6', '7', '8', '9', 'a', 'b', 'c', 'd', 'e', 'f'][nibble as int]
}

/// The lowercase hexadecimal rendering of a byte sequence: two digits
/// per byte, high nibble first.
pub open spec fn spec_hex_lower(data: Seq<u8>) -> Seq<char> {
    Seq::new(
        2 * data.len(),
        |i: int|
            {
                if i % 2 == 0 {
                    spec_hex_digit(data[i / 2] >> 4)
                } else {
                    spec_hex_digit(data[i / 2] & 0x0f)
                }
            },
    )
}

/// Relies on `data_encoding::HEXLOWER.encode`: each input byte becomes
/// two lowercase hexadecimal digits, high nibble first. `encode` may
/// panic only when the input is longer than `usize::MAX / 512`, which
/// the precondition rules out.
#[verifier::external_body]
fn hex_lower_encode(data: &[u8]) -> (r: String)
    requires
        data@.len() <= usize::MAX / 512,
    ensures
        r@ == spec_hex_lower(data@),
{
    data_encoding::HEXLOWER.encode(data)
}

/// Computes the SHA-256 digest of `data` by feeding a streaming digest
/// context from a fixed-size window of at most 1024 bytes at a time,
/// exactly as a reader loop over an in-memory buffer would. The input
/// must stay below the SHA-256 limit of `2^61` bytes.
pub fn sha256_digest(data: &[u8]) -> (digest: Vec<u8>)
    requires
        data@.len() < 0x2000000000000000,
    ensures
        digest@ == spec_sha256(data@),
        digest@.len() == 32,
{
    let mut ctx = sha256_context_new();
    let mut fed: usize = 0;
    while fed < data.len()
        invariant
            fed <= data@.len(),
            data@.len() < 0x2000000000000000,
            spec_ctx_input(ctx) == data@.take(fed as int),
        decreases data@.len() - fed,
    {
        let end = if data.len() - fed < 1024 {
            data.len()
        } else {
            fed + 1024
        };
        let chunk = slice_subrange(data, fed, end);
        sha256_context_update(&mut ctx, chunk);
        proof {
            assert(data@.take(fed as int) + data@.subrange(fed as int, end as int)
                =~= data@.take(end as int));
        }
        fed = end;
    }
    proof {
        assert(data@.take(data@.len() as int) =~= data@);
    }
    sha256_context_finish(ctx)
}

/// The value of the integrity header for a payload: the literal
/// `sha256-` followed by the lowercase hexadecimal SHA-256 digest of
/// the payload.
pub open spec fn spec_content_hash(payload: Seq<u8>) -> Seq<char> {
    "sha256-"@ + spec_hex_lower(spec_sha256(payload))
}

/// Renders the integrity header value `sha256-<hex digest>` for a
/// payload below the SHA-256 input limit.
pub fn content_hash_value(payload: &[u8]) -> (r: String)
    requires
        payload@.len() < 0x2000000000000000,
    ensures
        r@ == spec_content_hash(payload@),
{
    let digest = sha256_digest(payload);
    let hex = hex_lower_encode(digest.as_slice());
    let mut value = String::from_str("sha256-");
    value.append(hex.as_str());
    value
}

} // verus!
