use vstd::prelude::*;
use parity_scale_codec::{DecodeLimit, Encode};
use staging_xcm::v3::Xcm;
use staging_xcm::VersionedXcm;

verus! {

#[verifier::external_type_specification]
#[verifier::external_body]
#[verifier::reject_recursive_types(C)]
pub struct ExVersionedXcm<C>(VersionedXcm<C>);

#[verifier::external_type_specification]
#[verifier::external_body]
#[verifier::reject_recursive_types(C)]
pub struct ExXcm<C>(Xcm<C>);

/// The BLAKE2b-256 digest of a byte string.
pub uninterp spec fn blake2_256_of(data: Seq<u8>) -> Seq<u8>;

/// The versioned message that SCALE-decodes, within the nesting depth limit of messages, from
/// the front of `bytes`, with the number of
/// bytes left after it; none where decoding fails.
pub uninterp spec fn decode_prefix(bytes: Seq<u8>) -> Option<(VersionedXcm<()>, nat)>;

/// The message of the executor's version that a versioned message converts to; none where
/// it cannot be converted.
pub uninterp spec fn latest_of(x: VersionedXcm<()>) -> Option<Xcm<()>>;

/// The SCALE encoding of a versioned message.
pub uninterp spec fn encoding_of(x: VersionedXcm<()>) -> Seq<u8>;

/// Relies on sp_crypto_hashing::blake2_256: a 32-byte digest that depends on the bytes alone.
#[verifier::external_body]
pub(crate) fn blake2_256(data: &[u8]) -> (r: [u8; 32])
    ensures
        r@ == blake2_256_of(data@),
{
    sp_crypto_hashing::blake2_256(data)
}

/// Relies on `DecodeLimit::decode_with_depth_limit` of staging_xcm::VersionedXcm, bounded by
/// staging_xcm::MAX_XCM_DECODE_DEPTH so that deeply nested input fails rather than exhausting
/// the stack: it reads from the front of the input, at least the one byte of the version tag,
/// and leaves the rest.
#[verifier::external_body]
pub(crate) fn decode_versioned(bytes: &[u8]) -> (r: Option<(VersionedXcm<()>, usize)>)
    ensures
        r is None <==> decode_prefix(bytes@) is None,
        r matches Some((x, n)) ==> decode_prefix(bytes@) == Some((x, n as nat)) && n < bytes@.len(),
{
    let mut input = bytes;
    match VersionedXcm::<()>::decode_with_depth_limit(staging_xcm::MAX_XCM_DECODE_DEPTH, &mut input) {
        Ok(x) => Some((x, input.len())),
        Err(_) => None,
    }
}

/// Relies on `TryFrom<VersionedXcm>` of staging_xcm::v3::Xcm: the result depends on the
/// message alone.
#[verifier::external_body]
pub(crate) fn into_latest(x: VersionedXcm<()>) -> (r: Option<Xcm<()>>)
    ensures
        r == latest_of(x),
{
    Xcm::<()>::try_from(x).ok()
}

/// Relies on `Encode::encode` of staging_xcm::VersionedXcm: the bytes depend on the message
/// alone.
#[verifier::external_body]
pub(crate) fn encode_versioned(x: &VersionedXcm<()>) -> (r: Vec<u8>)
    ensures
        r@ == encoding_of(*x),
{
    x.encode()
}

} // verus!
