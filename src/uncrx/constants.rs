use std::ops::Range;
use vstd::prelude::*;

verus! {

/// The four bytes that open every CRX container ("Cr24").
pub const CRX_MAGIC_VALUE: [u8; 4] = [0x43, 0x72, 0x32, 0x34];

/// Where the magic marker lies.
pub const MAGIC_VALUE_RANGE: Range<usize> = 0..4;

/// Where the little-endian format version lies.
pub const CRX_VERSION_RANGE: Range<usize> = 4..8;

/// Where the little-endian public-key length lies.
pub const PUBLIC_KEY_LENGTH_RANGE: Range<usize> = 8..12;

/// Where the little-endian signature length lies (read for versions up to 2).
pub const SIGNATURE_LENGTH_RANGE: Range<usize> = 12..16;

/// Offset at which the public key and the signature both start.
pub const KEY_START: usize = 16;

} // verus!
