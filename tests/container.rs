use nw_tex::container::CgfxContainer;
use nw_tex::error::CgfxError;

fn push_u32(out: &mut Vec<u8>, v: u32) {
    out.extend_from_slice(&v.to_le_bytes());
}

/// A container with every slot empty, padded so that the image section's tag
/// stands eight bytes before a multiple of 128.
fn empty_container() -> Vec<u8> {
    let mut out = Vec::new();
    out.extend_from_slice(b"CGFX");
    out.extend_from_slice(&0xFEFFu16.to_le_bytes());
    out.extend_from_slice(&20u16.to_le_bytes());
    push_u32(&mut out, 0x0500_0000);
    push_u32(&mut out, 256);
    push_u32(&mut out, 1);
    out.extend_from_slice(b"DATA");
    push_u32(&mut out, 228);
    out.extend_from_slice(&[0u8; 128]);
    out.extend_from_slice(&[0u8; 92]);
    out.extend_from_slice(b"IMAG");
    push_u32(&mut out, 8);
    out
}

#[test]
fn empty_container_round_trip() {
    let bytes = empty_container();
    assert_eq!(bytes.len(), 256);
    let container = CgfxContainer::new(&bytes).unwrap();
    assert!(container.models.is_none());
    assert!(container.textures.is_none());
    assert!(container.luts.is_none());
    assert!(container.emitters.is_none());
    assert_eq!(container.header.file_length, 256);
    let written = container.to_buffer().unwrap();
    assert_eq!(written, bytes);
    let checked = container.to_buffer_debug(Some(&bytes)).unwrap();
    assert_eq!(checked, bytes);
}

#[test]
fn corrupted_magic_is_malformed_header() {
    let mut bytes = empty_container();
    bytes[0..4].copy_from_slice(b"XXXX");
    assert_eq!(CgfxContainer::new(&bytes).unwrap_err(), CgfxError::MalformedHeader);
}

#[test]
fn wrong_data_magic_is_malformed_header() {
    let mut bytes = empty_container();
    bytes[20..24].copy_from_slice(b"DATX");
    assert_eq!(CgfxContainer::new(&bytes).unwrap_err(), CgfxError::MalformedHeader);
}

#[test]
fn truncated_header() {
    let bytes = empty_container();
    assert_eq!(CgfxContainer::new(&bytes[..20]).unwrap_err(), CgfxError::TruncatedInput);
}

#[test]
fn null_slot_with_count_is_count_mismatch() {
    let mut bytes = empty_container();
    bytes[28 + 8 * 3] = 2;
    assert_eq!(CgfxContainer::new(&bytes).unwrap_err(), CgfxError::CountMismatch);
}

#[test]
fn debug_serialization_reports_first_difference() {
    let bytes = empty_container();
    let container = CgfxContainer::new(&bytes).unwrap();
    let mut reference = bytes.clone();
    reference[200] = 1;
    assert_eq!(
        container.to_buffer_debug(Some(&reference)).unwrap_err(),
        CgfxError::PrefixMismatch { offset: 200 }
    );
}

#[test]
fn wrong_file_length_fails_to_serialize() {
    let bytes = empty_container();
    let mut container = CgfxContainer::new(&bytes).unwrap();
    container.header.file_length = 300;
    assert_eq!(container.to_buffer().unwrap_err(), CgfxError::MalformedHeader);
}
