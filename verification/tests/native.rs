use zcad::native::{
    decode_file, default_space_type, default_unit, encode_file, frame, unframe, FileHeader,
    NativeError, SerializableSpaceType, FORMAT_VERSION,
};

#[test]
fn test_invalid_magic() {
    let mut bytes = b"XXXX".to_vec();
    bytes.extend_from_slice(&[0u8; 12]);
    let result = decode_file(&bytes);
    assert!(result.is_err());
    assert_eq!(result, Err(NativeError::InvalidMagic));
}

#[test]
fn header_roundtrip() {
    let h = FileHeader::new(0x0102_0304);
    let mut out = Vec::new();
    h.write(&mut out);
    assert_eq!(out.len(), 16);
    assert_eq!(&out[0..4], b"ZCAD");
    assert_eq!(&out[4..8], &[2, 0, 0, 0]);
    assert_eq!(&out[12..16], &[4, 3, 2, 1]);
    let back = FileHeader::read(&out).unwrap();
    assert_eq!(back, h);
    assert_eq!(back.version, FORMAT_VERSION);
}

#[test]
fn header_errors() {
    assert_eq!(FileHeader::read(b"ZC"), Err(NativeError::Truncated));
    assert_eq!(FileHeader::read(b"ZCAD\x03\x00"), Err(NativeError::Truncated));
    assert_eq!(FileHeader::read(b"ZCAX000000000000"), Err(NativeError::InvalidMagic));
}

#[test]
fn file_roundtrip() {
    let payload: Vec<u8> = (0..200u32).map(|i| (i % 7) as u8).collect();
    let file = encode_file(&payload).unwrap();
    assert_eq!(&file[0..4], b"ZCAD");
    assert_eq!(decode_file(&file).unwrap(), payload);
    // bytes after the announced data are ignored
    let mut longer = file.clone();
    longer.extend_from_slice(b"trailing");
    assert_eq!(decode_file(&longer).unwrap(), payload);
    // a cut file is refused
    assert_eq!(decode_file(&file[..file.len() - 1]), Err(NativeError::Truncated));
}

#[test]
fn frame_and_version() {
    let f = frame(b"abc");
    assert_eq!(f.len(), 19);
    assert_eq!(unframe(&f).unwrap(), b"abc".to_vec());
    let mut newer = f.clone();
    newer[4] = 4;
    assert_eq!(unframe(&newer), Err(NativeError::UnsupportedVersion(4)));
    assert!(matches!(decode_file(&f), Err(NativeError::Compression(_))));
}

#[test]
fn defaults() {
    assert_eq!(default_space_type(), SerializableSpaceType::Model);
    assert_eq!(default_unit(), "Millimeter");
}

#[test]
fn header_bytes_as_documented() {
    let h = FileHeader::new(7);
    let mut w: Vec<u8> = Vec::new();
    h.write(&mut w);
    assert_eq!(w, vec![b'Z', b'C', b'A', b'D', 2, 0, 0, 0, 0, 0, 0, 0, 7, 0, 0, 0]);
    assert_eq!(FORMAT_VERSION, 2);
}
