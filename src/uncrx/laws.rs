use vstd::prelude::*;

use super::helpers::{
    crx_decode, crx_version, has_crx_magic, header_size, payload_offset, public_key_length,
    signature_end, signature_length,
};
use super::types::{CrxError, CrxExtensionView};

verus! {

/// A buffer of at least four bytes that does not open with the magic marker
/// is rejected with `InvalidFormat`.
pub proof fn bad_magic_is_invalid_format(b: Seq<u8>)
    requires
        b.len() >= 4,
        !has_crx_magic(b),
    ensures
        crx_decode(b) == Err::<CrxExtensionView, CrxError>(CrxError::InvalidFormat),
{
}

/// A buffer shorter than the sixteen header bytes is rejected with
/// `TooShort`, when the decoder gets past the magic marker or cannot read it.
pub proof fn short_buffer_is_too_short(b: Seq<u8>)
    requires
        b.len() < 16,
        b.len() < 4 || has_crx_magic(b),
    ensures
        crx_decode(b) == Err::<CrxExtensionView, CrxError>(CrxError::TooShort),
{
}

/// For format version 3 no signature is read: its length counts as zero, it
/// is absent, the header takes twelve bytes and the payload starts at
/// `12 + public_key_length`.
pub proof fn version_three_layout(b: Seq<u8>)
    requires
        crx_version(b) == 3,
    ensures
        signature_length(b) == 0,
        header_size(b) == 12,
        payload_offset(b) == 12 + public_key_length(b),
        crx_decode(b) is Ok ==> crx_decode(b)->Ok_0.signature is None,
        crx_decode(b) is Ok ==> crx_decode(b)->Ok_0.zip == b.subrange(
            12 + public_key_length(b),
            b.len() as int,
        ),
{
}

/// A successful decode returns as payload exactly the suffix of the input
/// that starts at the payload offset; key and signature are the input's
/// bytes from offset 16.
pub proof fn payload_is_input_suffix(b: Seq<u8>)
    requires
        crx_decode(b) is Ok,
    ensures
        0 <= payload_offset(b) <= b.len(),
        crx_decode(b)->Ok_0.zip == b.subrange(payload_offset(b), b.len() as int),
        crx_decode(b)->Ok_0.zip.len() == b.len() - payload_offset(b),
        forall|i: int|
            0 <= i < crx_decode(b)->Ok_0.zip.len() ==> #[trigger] crx_decode(b)->Ok_0.zip[i]
                == b[payload_offset(b) + i],
        crx_decode(b)->Ok_0.public_key == b.subrange(16, 16 + public_key_length(b)),
{
}

/// Decoding depends on the bytes alone: equal buffers decode to equal
/// results.
pub proof fn decode_is_deterministic(a: Seq<u8>, b: Seq<u8>)
    requires
        a == b,
    ensures
        crx_decode(a) == crx_decode(b),
{
}

/// A buffer of version at most 2 that ends exactly where the payload starts
/// decodes successfully, with an empty payload.
pub proof fn exact_length_gives_empty_payload(b: Seq<u8>)
    requires
        has_crx_magic(b),
        crx_version(b) <= 2,
        b.len() == payload_offset(b),
    ensures
        crx_decode(b) is Ok,
        crx_decode(b)->Ok_0.zip.len() == 0,
        signature_end(b) <= b.len(),
{
}

} // verus!
