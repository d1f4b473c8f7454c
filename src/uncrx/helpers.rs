use std::ops::Range;
use vstd::prelude::*;
use vstd::slice::{slice_subrange, slice_to_vec};

use super::constants::{
    CRX_MAGIC_VALUE, CRX_VERSION_RANGE, KEY_START, MAGIC_VALUE_RANGE, PUBLIC_KEY_LENGTH_RANGE,
    SIGNATURE_LENGTH_RANGE,
};
use super::types::{CrxError, CrxExtension, CrxExtensionView};

verus! {

// ---------------------------------------------------------------------------
// The container layout, stated over the input bytes.
// ---------------------------------------------------------------------------

/// The little-endian 32-bit integer stored in `b[at..at + 4]`.
pub open spec fn le_u32(b: Seq<u8>, at: int) -> u32 {
    (b[at] as int + 256 * b[at + 1] as int + 65536 * b[at + 2] as int + 16777216 * b[at
        + 3] as int) as u32
}

/// `m` is exactly the CRX magic marker.
pub open spec fn is_crx_magic(m: Seq<u8>) -> bool {
    &&& m.len() == 4
    &&& m[0] == 0x43u8
    &&& m[1] == 0x72u8
    &&& m[2] == 0x32u8
    &&& m[3] == 0x34u8
}

/// The buffer opens with the CRX magic marker.
pub open spec fn has_crx_magic(b: Seq<u8>) -> bool {
    b.len() >= 4 && is_crx_magic(b.subrange(0, 4))
}

/// The format version field, bytes `[4, 8)`.
pub open spec fn crx_version(b: Seq<u8>) -> u32 {
    le_u32(b, 4)
}

/// The public-key length field, bytes `[8, 12)`.
pub open spec fn public_key_length(b: Seq<u8>) -> u32 {
    le_u32(b, 8)
}

/// The signature length: bytes `[12, 16)` for versions up to 2, else zero.
pub open spec fn signature_length(b: Seq<u8>) -> u32 {
    if crx_version(b) <= 2 {
        le_u32(b, 12)
    } else {
        0
    }
}

/// Number of leading bytes taken by fixed-width fields.
pub open spec fn header_size(b: Seq<u8>) -> int {
    if crx_version(b) <= 2 {
        16
    } else {
        12
    }
}

/// End of the public key, which always starts at offset 16.
pub open spec fn public_key_end(b: Seq<u8>) -> int {
    16 + public_key_length(b)
}

/// End of the signature, which always starts at offset 16.
pub open spec fn signature_end(b: Seq<u8>) -> int {
    16 + signature_length(b)
}

/// Where the inner archive starts.
pub open spec fn payload_offset(b: Seq<u8>) -> int {
    header_size(b) + signature_length(b) + public_key_length(b)
}

/// Every range that the decoder reads lies inside the buffer.
pub open spec fn fits_layout(b: Seq<u8>) -> bool {
    &&& b.len() >= 16
    &&& public_key_end(b) <= b.len()
    &&& signature_end(b) <= b.len()
    &&& payload_offset(b) <= b.len()
}

/// What decoding `b` yields: the container's parts, or the error.
pub open spec fn crx_decode(b: Seq<u8>) -> Result<CrxExtensionView, CrxError> {
    if b.len() < 4 {
        Err(CrxError::TooShort)
    } else if !has_crx_magic(b) {
        Err(CrxError::InvalidFormat)
    } else if !fits_layout(b) {
        Err(CrxError::TooShort)
    } else {
        Ok(
            CrxExtensionView {
                version: crx_version(b),
                public_key: b.subrange(16, public_key_end(b)),
                signature: if signature_length(b) == 0 {
                    None
                } else {
                    Some(b.subrange(16, signature_end(b)))
                },
                zip: b.subrange(payload_offset(b), b.len() as int),
            },
        )
    }
}

// ---------------------------------------------------------------------------
// Field readers.
// ---------------------------------------------------------------------------

/// The bytes of `data` in `range`, or `TooShort` when the range ends past
/// the buffer.
pub fn get_slice_from_range(data: &Vec<u8>, range: Range<usize>) -> (r: Result<&[u8], CrxError>)
    requires
        range.start <= range.end,
    ensures
        match r {
            Ok(s) => range.end <= data@.len() && s@ == data@.subrange(
                range.start as int,
                range.end as int,
            ),
            Err(e) => range.end > data@.len() && e == CrxError::TooShort,
        },
{
    if data.len() < range.end {
        return Err(CrxError::TooShort);
    }
    Ok(slice_subrange(data.as_slice(), range.start, range.end))
}

/// The little-endian integer held by a four-byte slice.
fn u32_from_le(s: &[u8]) -> (v: u32)
    requires
        s@.len() == 4,
    ensures
        v == le_u32(s@, 0),
{
    (s[0] as u32) + (s[1] as u32) * 256 + (s[2] as u32) * 65536 + (s[3] as u32) * 16777216
}

/// The magic marker, bytes `[0, 4)`.
pub fn get_crx_header(data: &Vec<u8>) -> (r: Result<[u8; 4], CrxError>)
    ensures
        match r {
            Ok(magic) => data@.len() >= 4 && magic@ == data@.subrange(0, 4),
            Err(e) => data@.len() < 4 && e == CrxError::TooShort,
        },
{
    let slice = match get_slice_from_range(data, MAGIC_VALUE_RANGE) {
        Ok(s) => s,
        Err(e) => return Err(e),
    };
    let magic = [slice[0], slice[1], slice[2], slice[3]];
    assert(magic@ =~= data@.subrange(0, 4));
    Ok(magic)
}

/// The format version, bytes `[4, 8)`.
pub fn get_crx_version(data: &Vec<u8>) -> (r: Result<u32, CrxError>)
    ensures
        match r {
            Ok(v) => data@.len() >= 8 && v == crx_version(data@),
            Err(e) => data@.len() < 8 && e == CrxError::TooShort,
        },
{
    let slice = match get_slice_from_range(data, CRX_VERSION_RANGE) {
        Ok(s) => s,
        Err(e) => return Err(e),
    };
    Ok(u32_from_le(slice))
}

/// Whether `magic` is the CRX magic marker; never fails.
pub fn is_valid_crx(magic: &[u8; 4]) -> (r: Result<bool, CrxError>)
    ensures
        r == Ok::<bool, CrxError>(is_crx_magic(magic@)),
{
    Ok(
        magic[0] == CRX_MAGIC_VALUE[0] && magic[1] == CRX_MAGIC_VALUE[1] && magic[2]
            == CRX_MAGIC_VALUE[2] && magic[3] == CRX_MAGIC_VALUE[3],
    )
}

/// The public-key length, bytes `[8, 12)`.
pub fn get_public_key_length(data: &Vec<u8>) -> (r: Result<u32, CrxError>)
    ensures
        match r {
            Ok(v) => data@.len() >= 12 && v == public_key_length(data@),
            Err(e) => data@.len() < 12 && e == CrxError::TooShort,
        },
{
    let slice = match get_slice_from_range(data, PUBLIC_KEY_LENGTH_RANGE) {
        Ok(s) => s,
        Err(e) => return Err(e),
    };
    Ok(u32_from_le(slice))
}

/// The raw signature-length field, bytes `[12, 16)`, whatever the version.
pub fn get_signature_key_length(data: &Vec<u8>) -> (r: Result<u32, CrxError>)
    ensures
        match r {
            Ok(v) => data@.len() >= 16 && v == le_u32(data@, 12),
            Err(e) => data@.len() < 16 && e == CrxError::TooShort,
        },
{
    let slice = match get_slice_from_range(data, SIGNATURE_LENGTH_RANGE) {
        Ok(s) => s,
        Err(e) => return Err(e),
    };
    Ok(u32_from_le(slice))
}

/// The end of a range of `length` bytes that starts at `start`, when the
/// range lies inside `data`.
fn range_end(data: &Vec<u8>, start: usize, length: u32) -> (r: Result<usize, CrxError>)
    ensures
        match r {
            Ok(end) => end == start + length && end <= data@.len(),
            Err(e) => start + length > data@.len() && e == CrxError::TooShort,
        },
{
    if start > data.len() || length as usize > data.len() - start {
        return Err(CrxError::TooShort);
    }
    Ok(start + length as usize)
}

/// Decodes a CRX container: checks the magic marker, reads the version and
/// the length fields, and copies out the public key, the signature (absent
/// when its length is zero) and the payload that follows the header.
///
/// Fails with `InvalidFormat` when the buffer has four bytes that are not the
/// magic marker, and with `TooShort` whenever a range to be read ends past the
/// buffer; nothing is returned in part.
pub fn parse_crx(data: &Vec<u8>) -> (r: Result<CrxExtension, CrxError>)
    ensures
        match r {
            Ok(ext) => crx_decode(data@) == Ok::<CrxExtensionView, CrxError>(ext@),
            Err(e) => crx_decode(data@) == Err::<CrxExtensionView, CrxError>(e),
        },
{
    let header = match get_crx_header(data) {
        Ok(h) => h,
        Err(e) => return Err(e),
    };
    let is_valid = match is_valid_crx(&header) {
        Ok(v) => v,
        Err(e) => return Err(e),
    };
    if !is_valid {
        return Err(CrxError::InvalidFormat);
    }
    let version = match get_crx_version(data) {
        Ok(v) => v,
        Err(e) => return Err(e),
    };
    let public_key_len = match get_public_key_length(data) {
        Ok(v) => v,
        Err(e) => return Err(e),
    };
    let key_end = match range_end(data, KEY_START, public_key_len) {
        Ok(end) => end,
        Err(e) => return Err(e),
    };
    let public_key = match get_slice_from_range(data, KEY_START..key_end) {
        Ok(s) => slice_to_vec(s),
        Err(e) => return Err(e),
    };
    let signature_len: u32 = if version <= 2 {
        match get_signature_key_length(data) {
            Ok(v) => v,
            Err(e) => return Err(e),
        }
    } else {
        0
    };
    let signature = if signature_len == 0 {
        None
    } else {
        let signature_end = match range_end(data, KEY_START, signature_len) {
            Ok(end) => end,
            Err(e) => return Err(e),
        };
        match get_slice_from_range(data, KEY_START..signature_end) {
            Ok(s) => Some(slice_to_vec(s)),
            Err(e) => return Err(e),
        }
    };
    let header_len: u64 = if version <= 2 {
        16
    } else {
        12
    };
    let payload_start: u64 = header_len + signature_len as u64 + public_key_len as u64;
    if payload_start > data.len() as u64 {
        return Err(CrxError::TooShort);
    }
    let zip = match get_slice_from_range(data, (payload_start as usize)..data.len()) {
        Ok(s) => slice_to_vec(s),
        Err(e) => return Err(e),
    };
    let extension = CrxExtension { version, public_key, signature, zip };
    Ok(extension)
}

} // verus!
