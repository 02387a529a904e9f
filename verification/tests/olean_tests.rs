use rslean::olean_error::OleanError;
use rslean::olean_header::{OleanHeader, HEADER_SIZE};
use rslean::region::{CompactedRegion, ObjRef};

fn header_bytes() -> Vec<u8> {
    let mut data = vec![0u8; HEADER_SIZE];
    data[0..5].copy_from_slice(b"olean");
    data[5] = 2;
    data
}

#[test]
fn test_parse_magic() {
    let mut data = vec![0u8; HEADER_SIZE];
    data[0..5].copy_from_slice(b"olean");
    data[5] = 2;
    data[6] = 1;
    data[7..11].copy_from_slice(b"4.21");
    let header = OleanHeader::parse(&data).unwrap();
    assert_eq!(header.version, 2);
    assert!(header.uses_gmp());
    assert!(header.lean_version.starts_with("4.21"));
}

#[test]
fn test_bad_magic() {
    let data = vec![0u8; HEADER_SIZE];
    assert!(OleanHeader::parse(&data).is_err());
}

#[test]
fn test_wrong_version() {
    let mut data = vec![0u8; HEADER_SIZE];
    data[0..5].copy_from_slice(b"olean");
    data[5] = 3;
    assert!(matches!(
        OleanHeader::parse(&data),
        Err(OleanError::UnsupportedVersion(3))
    ));
}

#[test]
fn header_fields_are_trimmed_and_base_addr_is_little_endian() {
    let mut data = header_bytes();
    data[7..11].copy_from_slice(b"4.21");
    data[40..44].copy_from_slice(b"abcd");
    data[80] = 0x01;
    data[81] = 0x02;
    let header = OleanHeader::parse(&data).unwrap();
    assert_eq!(header.lean_version, "4.21");
    assert_eq!(header.githash, "abcd");
    assert_eq!(header.base_addr, 0x0201);
    assert_eq!(header.flags, 0);
    assert!(!header.uses_gmp());
}

#[test]
fn short_file_and_bad_magic_messages() {
    let data = vec![0u8; 10];
    match OleanHeader::parse(&data) {
        Err(OleanError::InvalidHeader(m)) => {
            assert_eq!(m, "file too small: 10 bytes (need at least 88)")
        }
        _ => panic!("expected an invalid header"),
    }
    let data = vec![0u8; HEADER_SIZE];
    match OleanHeader::parse(&data) {
        Err(e) => assert_eq!(e.message(), "invalid .olean header: bad magic bytes"),
        _ => panic!("expected an invalid header"),
    }
}

#[test]
fn error_messages_match_display_text() {
    assert_eq!(
        OleanError::UnsupportedVersion(3).message(),
        "unsupported .olean version: 3 (expected 2)"
    );
    assert_eq!(
        OleanError::InvalidTag { tag: 7, pos: 12 }.message(),
        "invalid object tag 7 at position 12"
    );
    assert_eq!(
        OleanError::OutOfBounds { pos: 5, size: 4 }.message(),
        "out of bounds read at position 5, region size 4"
    );
    assert_eq!(OleanError::MpzNotSupported.message(), "MPZ values not yet supported");
}

#[test]
fn test_resolve_scalar() {
    let region = CompactedRegion::new(vec![0; 64], 0, false);
    assert_eq!(region.resolve(85), ObjRef::Scalar(42));
}

#[test]
fn test_resolve_null() {
    let region = CompactedRegion::new(vec![0; 64], 0, false);
    assert_eq!(region.resolve(0), ObjRef::Null);
}

#[test]
fn test_resolve_ptr() {
    let region = CompactedRegion::new(vec![0; 64], 1000, false);
    assert_eq!(region.resolve(1104), ObjRef::Ptr(16));
}

#[test]
fn resolve_out_of_region_is_null() {
    let region = CompactedRegion::new(vec![0; 64], 1000, false);
    assert_eq!(region.resolve(1088 + 64), ObjRef::Null);
    assert_eq!(region.resolve(1000), ObjRef::Null);
}

#[test]
fn reads_little_endian_words_and_object_headers() {
    let mut data = vec![0u8; 64];
    for (i, b) in data.iter_mut().enumerate() {
        *b = i as u8;
    }
    let region = CompactedRegion::new(data, 0, false);
    assert_eq!(region.read_u8(3), 3);
    assert_eq!(region.read_u16(1), 0x0201);
    assert_eq!(region.read_u32(4), 0x07060504);
    assert_eq!(region.read_u64(8), 0x0f0e0d0c0b0a0908);
    assert_eq!(region.obj_tag(8), 15);
    assert_eq!(region.obj_num_objs(8), 14);
    assert_eq!(region.obj_cs_sz(8), 0x0d0c);
    assert_eq!(region.ctor_scalar_u8(0, 1, 2), 18);
    assert_eq!(region.data_len(), 64);
}

#[test]
fn root_and_fields_resolve() {
    let mut data = vec![0u8; 64];
    data[0] = 85;
    data[16] = 88 + 32;
    let region = CompactedRegion::new(data, 0, false);
    assert_eq!(region.root(), ObjRef::Scalar(42));
    assert_eq!(region.ctor_obj_field(0, 1), ObjRef::Ptr(32));
    let small = CompactedRegion::new(vec![1, 0, 0], 0, false);
    assert_eq!(small.root(), ObjRef::Null);
}

#[test]
fn string_value_reads_utf8_and_checks_bounds() {
    let mut data = vec![0u8; 64];
    data[8] = 4;
    data[32..35].copy_from_slice(b"abc");
    let region = CompactedRegion::new(data.clone(), 0, false);
    assert_eq!(region.string_byte_size(0), 4);
    assert_eq!(region.string_value(0).unwrap(), "abc");
    let mut empty = data.clone();
    empty[8] = 0;
    let region = CompactedRegion::new(empty, 0, false);
    assert_eq!(region.string_value(0).unwrap(), "");
    let mut big = data.clone();
    big[8] = 40;
    let region = CompactedRegion::new(big, 0, false);
    assert!(matches!(
        region.string_value(0),
        Err(OleanError::OutOfBounds { pos: 32, size: 64 })
    ));
    let mut bad = data;
    bad[32] = 0xff;
    let region = CompactedRegion::new(bad, 0, false);
    assert!(matches!(region.string_value(0), Err(OleanError::Deserialize(_))));
}

#[test]
fn mpz_native_and_gmp_reads() {
    let mut data = vec![0u8; 64];
    data[16] = 1;
    data[32] = 9;
    let region = CompactedRegion::new(data.clone(), 0, false);
    assert_eq!(region.mpz_to_u64(0).unwrap(), 9);
    let mut neg = data.clone();
    neg[24] = 1;
    let region = CompactedRegion::new(neg, 0, false);
    match region.mpz_to_u64_native(0) {
        Err(OleanError::Deserialize(m)) => assert_eq!(m, "negative MPZ not supported as u64"),
        _ => panic!("expected an error"),
    }
    let mut two = data.clone();
    two[16] = 2;
    let region = CompactedRegion::new(two, 0, false);
    match region.mpz_to_u64_native(0) {
        Err(OleanError::Deserialize(m)) => assert_eq!(m, "MPZ with 2 digits too large for u64"),
        _ => panic!("expected an error"),
    }
    let mut gmp = vec![0u8; 64];
    gmp[12] = 1;
    gmp[16] = 88 + 40;
    gmp[40] = 77;
    let region = CompactedRegion::new(gmp.clone(), 0, true);
    assert_eq!(region.mpz_to_u64(0).unwrap(), 77);
    let mut zero = gmp.clone();
    zero[12] = 0;
    let region = CompactedRegion::new(zero, 0, true);
    assert_eq!(region.mpz_to_u64_gmp(0).unwrap(), 0);
    let mut three = gmp;
    three[12] = 3;
    let region = CompactedRegion::new(three, 0, true);
    match region.mpz_to_u64_gmp(0) {
        Err(OleanError::Deserialize(m)) => assert_eq!(m, "MPZ with 3 limbs too large for u64"),
        _ => panic!("expected an error"),
    }
}
