use uncrx_rs::uncrx::helpers::parse_crx;
use uncrx_rs::uncrx::types::{CrxError, CrxExtension};

const MAGIC: [u8; 4] = [0x43, 0x72, 0x32, 0x34];

fn header(version: u32, public_key_len: u32, signature_len: u32) -> Vec<u8> {
    let mut data = MAGIC.to_vec();
    data.extend_from_slice(&version.to_le_bytes());
    data.extend_from_slice(&public_key_len.to_le_bytes());
    data.extend_from_slice(&signature_len.to_le_bytes());
    data
}

fn decoded(data: &Vec<u8>) -> CrxExtension {
    match parse_crx(data) {
        Ok(ext) => ext,
        Err(e) => panic!("decode failed: {:?}", e),
    }
}

#[test]
fn version_two_with_key_and_signature() {
    let mut data = header(2, 5, 3);
    data.extend_from_slice(&[10, 11, 12, 13, 14, 15, 16, 17]);
    let payload = [0x50u8, 0x4b, 0x03, 0x04, 0xaa, 0xbb];
    data.extend_from_slice(&payload);

    let ext = decoded(&data);
    assert_eq!(ext.version, 2);
    assert_eq!(ext.public_key, vec![10, 11, 12, 13, 14]);
    assert_eq!(ext.public_key.len(), 5);
    assert_eq!(ext.signature, Some(vec![10, 11, 12]));
    assert_eq!(ext.zip, payload.to_vec());
    assert_eq!(ext.zip, data[24..].to_vec());
}

#[test]
fn version_three_has_no_signature_and_twelve_byte_header() {
    // The signature-length field is ignored, so bytes 12..16 may hold anything.
    let mut data = header(3, 5, 0xdead_beef);
    data.extend_from_slice(&[20, 21, 22, 23, 24, 25, 26, 27, 28]);

    let ext = decoded(&data);
    assert_eq!(ext.version, 3);
    assert_eq!(ext.signature, None);
    // The key is still read from offset 16, while the payload starts at 12 + 5.
    assert_eq!(ext.public_key, vec![20, 21, 22, 23, 24]);
    assert_eq!(ext.zip, data[17..].to_vec());
    assert_eq!(ext.zip.len(), data.len() - 17);
}

#[test]
fn later_versions_also_skip_the_signature() {
    let mut data = header(4, 0, 7);
    data.extend_from_slice(&[1, 2, 3]);
    let ext = decoded(&data);
    assert_eq!(ext.version, 4);
    assert_eq!(ext.signature, None);
    assert!(ext.public_key.is_empty());
    assert_eq!(ext.zip, data[12..].to_vec());
}

#[test]
fn zero_signature_length_means_absent() {
    let mut data = header(2, 2, 0);
    data.extend_from_slice(&[9, 8, 7, 6]);
    let ext = decoded(&data);
    assert_eq!(ext.signature, None);
    assert_eq!(ext.public_key, vec![9, 8]);
    assert_eq!(ext.zip, vec![7, 6]);
}

#[test]
fn bad_magic_is_invalid_format() {
    let mut data = vec![0x50, 0x4b, 0x03, 0x04];
    data.extend_from_slice(&[0u8; 40]);
    assert_eq!(parse_crx(&data).unwrap_err(), CrxError::InvalidFormat);

    let zeros = vec![0u8; 8];
    assert_eq!(parse_crx(&zeros).unwrap_err(), CrxError::InvalidFormat);

    let mut almost = header(2, 0, 0);
    almost[3] = 0x35;
    assert_eq!(parse_crx(&almost).unwrap_err(), CrxError::InvalidFormat);
}

#[test]
fn short_buffers_are_too_short() {
    assert_eq!(parse_crx(&Vec::new()).unwrap_err(), CrxError::TooShort);
    assert_eq!(parse_crx(&vec![0x43, 0x72, 0x32]).unwrap_err(), CrxError::TooShort);
    assert_eq!(parse_crx(&vec![1, 2]).unwrap_err(), CrxError::TooShort);
    let full = header(2, 0, 0);
    for len in 4..16 {
        let data = full[..len].to_vec();
        assert_eq!(parse_crx(&data).unwrap_err(), CrxError::TooShort, "length {}", len);
    }
}

#[test]
fn key_past_the_end_is_too_short() {
    let mut data = header(2, 10, 0);
    data.extend_from_slice(&[1, 2, 3]);
    assert_eq!(parse_crx(&data).unwrap_err(), CrxError::TooShort);

    let mut v3 = header(3, 4, 0);
    v3.extend_from_slice(&[1, 2, 3]);
    assert_eq!(parse_crx(&v3).unwrap_err(), CrxError::TooShort);
}

#[test]
fn signature_past_the_end_is_too_short() {
    let mut data = header(2, 1, 9);
    data.extend_from_slice(&[1, 2, 3, 4]);
    assert_eq!(parse_crx(&data).unwrap_err(), CrxError::TooShort);
}

#[test]
fn payload_offset_past_the_end_is_too_short() {
    // Key and signature both fit, but 16 + 4 + 4 = 24 > 20.
    let mut data = header(2, 4, 4);
    data.extend_from_slice(&[1, 2, 3, 4]);
    assert_eq!(parse_crx(&data).unwrap_err(), CrxError::TooShort);
}

#[test]
fn largest_lengths_do_not_overflow() {
    let mut data = header(2, u32::MAX, u32::MAX);
    data.extend_from_slice(&[0u8; 32]);
    assert_eq!(parse_crx(&data).unwrap_err(), CrxError::TooShort);

    let mut v3 = header(u32::MAX, u32::MAX, 0);
    v3.extend_from_slice(&[0u8; 32]);
    assert_eq!(parse_crx(&v3).unwrap_err(), CrxError::TooShort);
}

#[test]
fn payload_is_the_input_suffix() {
    let mut data = header(2, 3, 2);
    data.extend_from_slice(&[5, 6, 7]);
    let payload: Vec<u8> = (0..=255u8).collect();
    data.extend_from_slice(&payload);
    let ext = decoded(&data);
    let offset = 16 + 2 + 3;
    assert_eq!(ext.zip, data[offset..].to_vec());
    assert_eq!(ext.zip.len(), data.len() - offset);
    assert_eq!(ext.signature, Some(vec![5, 6]));
}

#[test]
fn decoding_twice_gives_equal_results() {
    let mut data = header(2, 2, 1);
    data.extend_from_slice(&[3, 4, 5, 6, 7]);
    let first = decoded(&data);
    let second = decoded(&data);
    assert_eq!(first.version, second.version);
    assert_eq!(first.public_key, second.public_key);
    assert_eq!(first.signature, second.signature);
    assert_eq!(first.zip, second.zip);

    let bad = vec![0u8; 20];
    assert_eq!(parse_crx(&bad).unwrap_err(), parse_crx(&bad).unwrap_err());
}

#[test]
fn exact_length_gives_empty_payload() {
    let mut data = header(2, 3, 2);
    data.extend_from_slice(&[1, 2, 3, 4, 5]);
    assert_eq!(data.len(), 21);
    let ext = decoded(&data);
    assert!(ext.zip.is_empty());
    assert_eq!(ext.public_key, vec![1, 2, 3]);
    assert_eq!(ext.signature, Some(vec![1, 2]));

    let bare = header(1, 0, 0);
    let ext = decoded(&bare);
    assert_eq!(ext.version, 1);
    assert!(ext.public_key.is_empty());
    assert_eq!(ext.signature, None);
    assert!(ext.zip.is_empty());
}

#[test]
fn version_three_exact_key_length_leaves_four_payload_bytes() {
    // The key is read from offset 16 but the payload starts at 12 + key length,
    // so a version-3 buffer that just holds the key still yields four bytes.
    let mut data = header(3, 2, 0);
    data.extend_from_slice(&[0xee, 0xff]);
    let ext = decoded(&data);
    assert_eq!(ext.public_key, vec![0xee, 0xff]);
    assert_eq!(ext.zip, data[14..].to_vec());
    assert_eq!(ext.zip.len(), 4);
}
