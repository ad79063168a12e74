use dtn_tcpcl::{
    BuildError, ContactHeader, ContactHeaderFlag, ContactHeaderFlags, DecodeError, DecodeResult,
    IncompleteHint,
};

/// Test simple creation of a default header
#[test]
fn test_init_contact_header() {
    let contact_header = ContactHeader::new();
    assert_eq!(contact_header.get_eid(), None);
    assert_eq!(contact_header.get_version(), 4);
    assert_eq!(contact_header.get_flags(), ContactHeaderFlags::empty());
    assert_eq!(contact_header.get_transfer_mru(), 0);
    assert_eq!(contact_header.get_segment_mru(), 0);
}

/// Test setting and unsetting a flag
#[test]
fn test_set_unset_flag() {
    let mut contact_header = ContactHeader::new();
    assert_eq!(contact_header.get_flags(), ContactHeaderFlags::empty());
    contact_header.set_flag(ContactHeaderFlag::CanTls);
    assert_eq!(contact_header.get_flags().bits(), 0x01);
    assert_eq!(
        contact_header.get_flags(),
        ContactHeaderFlags::single(ContactHeaderFlag::CanTls)
    );
    contact_header.unset_flag(ContactHeaderFlag::CanTls);
    assert_eq!(contact_header.get_flags().bits(), 0x00);
    assert_eq!(contact_header.get_flags(), ContactHeaderFlags::empty());
}

/// Test clearing the bitfield
#[test]
fn test_set_clear_flag() {
    let mut contact_header = ContactHeader::new();
    assert_eq!(contact_header.get_flags(), ContactHeaderFlags::empty());
    contact_header.set_flag(ContactHeaderFlag::CanTls);
    assert_eq!(
        contact_header.get_flags(),
        ContactHeaderFlags::single(ContactHeaderFlag::CanTls)
    );
    contact_header.clear_flags();
    assert_eq!(contact_header.get_flags().bits(), 0x00);
    assert_eq!(contact_header.get_flags(), ContactHeaderFlags::empty());
}

/// Test setting the same flags twice
///
/// This should behave the same way as setting it only once.
#[test]
fn test_duplicate_set() {
    let mut contact_header = ContactHeader::new();
    assert_eq!(contact_header.get_flags(), ContactHeaderFlags::empty());
    contact_header.set_flag(ContactHeaderFlag::CanTls);
    assert_eq!(
        contact_header.get_flags(),
        ContactHeaderFlags::single(ContactHeaderFlag::CanTls)
    );
    contact_header.set_flag(ContactHeaderFlag::CanTls);
    assert_eq!(
        contact_header.get_flags(),
        ContactHeaderFlags::single(ContactHeaderFlag::CanTls)
    );
    contact_header.unset_flag(ContactHeaderFlag::CanTls);
    assert_eq!(contact_header.get_flags(), ContactHeaderFlags::empty());
}

fn reference_header() -> ContactHeader {
    let mut header = ContactHeader::new();
    header.set_flag(ContactHeaderFlag::CanTls);
    header.keepalive(300);
    header.segment_mru(4096);
    header.transfer_mru(1048576);
    header.eid("localhost").unwrap();
    header
}

const REFERENCE_BYTES: [u8; 35] = [
    0x64, 0x74, 0x6e, 0x21, // magic "dtn!"
    0x04, // version
    0x01, // flags: supports TLS
    0x01, 0x2c, // keepalive 300
    0x00, 0x00, 0x00, 0x00, 0x00, 0x00, 0x10, 0x00, // segment mru 4096
    0x00, 0x00, 0x00, 0x00, 0x00, 0x10, 0x00, 0x00, // transfer mru 1048576
    0x00, 0x09, // eid length 9
    0x6c, 0x6f, 0x63, 0x61, 0x6c, 0x68, 0x6f, 0x73, 0x74, // "localhost"
];

/// Encoding a fully populated header yields the exact reference bytes.
#[test]
fn test_serialize_reference_vector() {
    let buffer = reference_header().serialize();
    assert_eq!(buffer.len(), 35);
    assert_eq!(buffer.as_slice(), &REFERENCE_BYTES[..]);
}

/// Decoding the reference bytes reproduces the identical header and reports
/// all 35 bytes consumed.
#[test]
fn test_deserialize_reference_vector() {
    match ContactHeader::deserialize(&REFERENCE_BYTES) {
        DecodeResult::Complete(header, consumed) => {
            assert_eq!(consumed, 35);
            assert_eq!(header.get_version(), 4);
            assert_eq!(header.get_flags().bits(), 0x01);
            assert!(header.get_flags().contains(ContactHeaderFlag::CanTls));
            assert_eq!(header.get_keepalive(), 300);
            assert_eq!(header.get_segment_mru(), 4096);
            assert_eq!(header.get_transfer_mru(), 1048576);
            assert_eq!(header.get_eid(), Some("localhost"));
        }
        _ => panic!("expected a complete parse"),
    }
}

/// Serializing a default header gives the 26-byte fixed part with a zero
/// endpoint-id length.
#[test]
fn test_serialize_default_header() {
    let buffer = ContactHeader::new().serialize();
    assert_eq!(buffer.len(), 26);
    assert_eq!(&buffer[0..4], &[0x64, 0x74, 0x6e, 0x21]);
    assert_eq!(buffer[4], 0x04);
    assert_eq!(&buffer[5..26], &[0u8; 21][..]);
}

/// A three-byte buffer is an incomplete magic, not an error.
#[test]
fn test_decode_three_bytes() {
    match ContactHeader::deserialize(&[0x64, 0x74, 0x6e]) {
        DecodeResult::Incomplete(hint) => assert_eq!(hint, IncompleteHint::Unknown),
        _ => panic!("expected an incomplete parse"),
    }
}

/// Correct magic followed by version 5 fails fast, even though the rest of
/// the header is missing.
#[test]
fn test_decode_version_five() {
    match ContactHeader::deserialize(&[0x64, 0x74, 0x6e, 0x21, 0x05]) {
        DecodeResult::Invalid(e) => assert_eq!(e, DecodeError::UnsupportedVersion),
        _ => panic!("expected a permanent decode error"),
    }
}

/// Four bytes that differ from the magic are permanently invalid, whatever
/// follows them.
#[test]
fn test_decode_bad_magic() {
    match ContactHeader::deserialize(&[0x64, 0x74, 0x6e, 0x20, 0x04, 0x00]) {
        DecodeResult::Invalid(e) => assert_eq!(e, DecodeError::BadMagic),
        _ => panic!("expected a permanent decode error"),
    }
}

/// A flags byte with a bit beyond bit 0 set is rejected.
#[test]
fn test_decode_unknown_flag_bits() {
    match ContactHeader::deserialize(&[0x64, 0x74, 0x6e, 0x21, 0x04, 0x02]) {
        DecodeResult::Invalid(e) => assert_eq!(e, DecodeError::UnknownFlagBits),
        _ => panic!("expected a permanent decode error"),
    }
}

/// An endpoint id that is not valid UTF-8 is a returned error, never a
/// crash.
#[test]
fn test_decode_invalid_utf8_eid() {
    let mut buffer = vec![0x64, 0x74, 0x6e, 0x21, 0x04, 0x00];
    buffer.extend_from_slice(&[0x00; 18]); // keepalive and both MRUs
    buffer.extend_from_slice(&[0x00, 0x02]); // eid length 2
    buffer.extend_from_slice(&[0xff, 0xfe]); // not valid UTF-8
    match ContactHeader::deserialize(&buffer) {
        DecodeResult::Invalid(e) => assert_eq!(e, DecodeError::EndpointIdNotUtf8),
        _ => panic!("expected a permanent decode error"),
    }
}

/// Every strict prefix of a valid message decodes to Incomplete, and the
/// full message to Complete; Invalid never appears along the way.
#[test]
fn test_decode_prefixes_incremental() {
    let buffer = reference_header().serialize();
    for n in 0..buffer.len() {
        match ContactHeader::deserialize(&buffer[..n]) {
            DecodeResult::Incomplete(_) => {}
            _ => panic!("prefix of length {} must be incomplete", n),
        }
    }
    match ContactHeader::deserialize(&buffer) {
        DecodeResult::Complete(_, consumed) => assert_eq!(consumed, buffer.len()),
        _ => panic!("full message must parse"),
    }
}

/// Once the endpoint-id length is known, the shortfall hint is exact.
#[test]
fn test_decode_exact_need_hint() {
    let buffer = reference_header().serialize();
    match ContactHeader::deserialize(&buffer[..30]) {
        DecodeResult::Incomplete(hint) => assert_eq!(hint, IncompleteHint::Need(5)),
        _ => panic!("expected an incomplete parse"),
    }
}

/// Bytes after a complete message are left untouched: consumed reports
/// where the next message starts.
#[test]
fn test_decode_trailing_bytes() {
    let mut buffer = reference_header().serialize();
    buffer.extend_from_slice(&[0xde, 0xad, 0xbe, 0xef]);
    match ContactHeader::deserialize(&buffer) {
        DecodeResult::Complete(header, consumed) => {
            assert_eq!(consumed, 35);
            assert_eq!(header.get_eid(), Some("localhost"));
        }
        _ => panic!("expected a complete parse"),
    }
}

/// An endpoint id of 65535 bytes is accepted; one byte more is rejected
/// without changing the header.
#[test]
fn test_eid_length_limit() {
    let mut header = ContactHeader::new();
    let longest = "a".repeat(65535);
    assert!(header.eid(&longest).is_ok());
    assert_eq!(header.get_eid(), Some(longest.as_str()));
    let too_long = "a".repeat(65536);
    assert_eq!(header.eid(&too_long), Err(BuildError::EndpointIdTooLong));
    assert_eq!(header.get_eid(), Some(longest.as_str()));
}

/// The byte-length check counts UTF-8 bytes, not characters.
#[test]
fn test_eid_length_limit_multibyte() {
    let mut header = ContactHeader::new();
    // 32768 two-byte characters: 65536 bytes, one too many.
    let too_long = "\u{00e9}".repeat(32768);
    assert_eq!(header.eid(&too_long), Err(BuildError::EndpointIdTooLong));
}

/// An empty endpoint id is indistinguishable from an absent one and is
/// normalized to absent.
#[test]
fn test_empty_eid_normalized() {
    let mut header = ContactHeader::new();
    header.eid("dtn://node").unwrap();
    header.eid("").unwrap();
    assert_eq!(header.get_eid(), None);
    let buffer = header.serialize();
    assert_eq!(buffer.len(), 26);
    assert_eq!(&buffer[24..26], &[0x00, 0x00]);
}

/// A multi-byte UTF-8 endpoint id survives the round trip intact.
#[test]
fn test_round_trip_multibyte_eid() {
    let mut header = ContactHeader::new();
    header.keepalive(7);
    header.eid("n\u{00f8}de-\u{2603}").unwrap();
    let buffer = header.serialize();
    assert_eq!(buffer.len() as usize, 26 + "n\u{00f8}de-\u{2603}".len());
    match ContactHeader::deserialize(&buffer) {
        DecodeResult::Complete(decoded, consumed) => {
            assert_eq!(consumed, buffer.len());
            assert_eq!(decoded.get_eid(), Some("n\u{00f8}de-\u{2603}"));
            assert_eq!(decoded.get_keepalive(), 7);
        }
        _ => panic!("expected a complete parse"),
    }
}

/// Strict flag parsing accepts exactly the known bits.
#[test]
fn test_from_bits_strict() {
    assert_eq!(
        ContactHeaderFlags::from_bits_strict(0x00),
        Ok(ContactHeaderFlags::empty())
    );
    assert_eq!(
        ContactHeaderFlags::from_bits_strict(0x01),
        Ok(ContactHeaderFlags::single(ContactHeaderFlag::CanTls))
    );
    assert_eq!(
        ContactHeaderFlags::from_bits_strict(0x80),
        Err(DecodeError::UnknownFlagBits)
    );
    assert_eq!(
        ContactHeaderFlags::from_bits_strict(0x03),
        Err(DecodeError::UnknownFlagBits)
    );
}

/// Replacing the whole flag set and querying single bits.
#[test]
fn test_flags_setter_and_contains() {
    let mut header = ContactHeader::new();
    header.flags(ContactHeaderFlags::single(ContactHeaderFlag::CanTls));
    assert!(header.get_flags().contains(ContactHeaderFlag::CanTls));
    header.flags(ContactHeaderFlags::empty());
    assert!(!header.get_flags().contains(ContactHeaderFlag::CanTls));
}

/// Keepalive and both receive limits are carried verbatim through the wire.
#[test]
fn test_round_trip_extreme_values() {
    let mut header = ContactHeader::new();
    header.keepalive(u16::MAX);
    header.segment_mru(u64::MAX);
    header.transfer_mru(1);
    let buffer = header.serialize();
    match ContactHeader::deserialize(&buffer) {
        DecodeResult::Complete(decoded, consumed) => {
            assert_eq!(consumed, 26);
            assert_eq!(decoded.get_keepalive(), u16::MAX);
            assert_eq!(decoded.get_segment_mru(), u64::MAX);
            assert_eq!(decoded.get_transfer_mru(), 1);
            assert_eq!(decoded.get_eid(), None);
        }
        _ => panic!("expected a complete parse"),
    }
}
