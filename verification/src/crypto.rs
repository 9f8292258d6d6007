//! Certificate identifiers: the SHA-256 digest, computed by the Soroban host,
//! of the event id and the issue time in big-endian bytes.
use soroban_sdk::Env;
use vstd::prelude::*;

verus! {

/// The Soroban environment, carried through to the host's hash function.
#[verifier::external_type_specification]
#[verifier::external_body]
pub struct ExEnv(soroban_sdk::Env);

/// The SHA-256 digest of a byte string.
pub uninterp spec fn sha256_digest(data: Seq<u8>) -> Seq<u8>;

/// The eight bytes of `x`, most significant first.
pub open spec fn be_bytes(x: u64) -> Seq<u8> {
    seq![
        ((x >> 56u64) & 0xffu64) as u8,
        ((x >> 48u64) & 0xffu64) as u8,
        ((x >> 40u64) & 0xffu64) as u8,
        ((x >> 32u64) & 0xffu64) as u8,
        ((x >> 24u64) & 0xffu64) as u8,
        ((x >> 16u64) & 0xffu64) as u8,
        ((x >> 8u64) & 0xffu64) as u8,
        (x & 0xffu64) as u8,
    ]
}

/// The bytes whose digest identifies a certificate: the event id, then the
/// issue time, each as eight big-endian bytes.
pub open spec fn certificate_seed(event_id: u64, issued_at: u64) -> Seq<u8> {
    be_bytes(event_id) + be_bytes(issued_at)
}

/// The identifier of the certificate issued for `event_id` at `issued_at`.
pub open spec fn spec_certificate_id(event_id: u64, issued_at: u64) -> Seq<u8> {
    sha256_digest(certificate_seed(event_id, issued_at))
}

/// Calls `soroban_sdk::crypto::Crypto::sha256` on `data` (copied into host
/// `Bytes` by `soroban_sdk::Bytes::from_slice`) and returns the 32 bytes of the
/// digest. The contract claims only that the digest is `sha256_digest` of the
/// input bytes, which is what the host function computes. Host byte strings
/// hold at most `u32::MAX` bytes. The host meters the call against its
/// budget; whether the budget suffices is not stated.
#[verifier::external_body]
fn host_sha256(env: &Env, data: &Vec<u8>) -> (digest: [u8; 32])
    requires
        data@.len() <= u32::MAX,
    ensures
        digest@ == sha256_digest(data@),
{
    env.crypto().sha256(&soroban_sdk::Bytes::from_slice(env, data.as_slice())).to_array()
}

/// Appends the eight big-endian bytes of `x` to `out`.
fn push_be_bytes(out: &mut Vec<u8>, x: u64)
    ensures
        final(out)@ == old(out)@ + be_bytes(x),
{
    out.push(((x >> 56u64) & 0xffu64) as u8);
    out.push(((x >> 48u64) & 0xffu64) as u8);
    out.push(((x >> 40u64) & 0xffu64) as u8);
    out.push(((x >> 32u64) & 0xffu64) as u8);
    out.push(((x >> 24u64) & 0xffu64) as u8);
    out.push(((x >> 16u64) & 0xffu64) as u8);
    out.push(((x >> 8u64) & 0xffu64) as u8);
    out.push((x & 0xffu64) as u8);
    assert(final(out)@ =~= old(out)@ + be_bytes(x));
}

/// The bytes hashed into a certificate identifier.
pub fn certificate_seed_bytes(event_id: u64, issued_at: u64) -> (seed: Vec<u8>)
    ensures
        seed@ == certificate_seed(event_id, issued_at),
{
    let mut seed: Vec<u8> = Vec::new();
    push_be_bytes(&mut seed, event_id);
    push_be_bytes(&mut seed, issued_at);
    assert(seed@ =~= certificate_seed(event_id, issued_at));
    seed
}

/// The identifier of the certificate issued for `event_id` at `issued_at`:
/// the SHA-256 digest of `certificate_seed(event_id, issued_at)`.
pub fn certificate_id(env: &Env, event_id: u64, issued_at: u64) -> (id: [u8; 32])
    ensures
        id@ == spec_certificate_id(event_id, issued_at),
{
    let seed = certificate_seed_bytes(event_id, issued_at);
    host_sha256(env, &seed)
}

} // verus!
