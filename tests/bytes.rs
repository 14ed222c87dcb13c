use nw_tex::bytes::{get_4_byte_string, read_relative_pointer, read_string, read_u16, read_u32, write_at_pointer};
use nw_tex::dict::CgfxDict;
use nw_tex::error::CgfxError;
use nw_tex::lists::read_pointer_list;
use nw_tex::mesh::FaceDescriptor;
use nw_tex::pointer::Pointer;

#[test]
fn little_endian_reads() {
    let bytes = [0x78, 0x56, 0x34, 0x12, 0xff];
    let mut pos = 0usize;
    assert_eq!(read_u32(&bytes, &mut pos).unwrap(), 0x1234_5678);
    assert_eq!(pos, 4);
    assert_eq!(read_u32(&bytes, &mut pos).unwrap_err(), CgfxError::TruncatedInput);
    assert_eq!(pos, 4);
    let mut pos = 1usize;
    assert_eq!(read_u16(&bytes, &mut pos).unwrap(), 0x3456);
}

#[test]
fn relative_pointers() {
    let mut bytes = vec![0u8; 12];
    bytes[4..8].copy_from_slice(&8u32.to_le_bytes());
    let mut pos = 0usize;
    assert_eq!(read_relative_pointer(&bytes, &mut pos).unwrap(), None);
    assert_eq!(read_relative_pointer(&bytes, &mut pos).unwrap(), Some(Pointer(12)));
    bytes[8..12].copy_from_slice(&(-8i32 as u32).to_le_bytes());
    assert_eq!(read_relative_pointer(&bytes, &mut pos).unwrap(), Some(Pointer(0)));
    assert_eq!(Pointer(12).relative_to(4), 8);
    assert_eq!(Pointer(0).relative_to(8), -8i32 as u32);
}

#[test]
fn null_terminated_strings() {
    let bytes = b"ab\0cd";
    assert_eq!(read_string(bytes, 0).unwrap(), "ab");
    assert_eq!(read_string(bytes, 3).unwrap_err(), CgfxError::TruncatedInput);
    let bad = [0xffu8, 0];
    assert_eq!(read_string(&bad, 0).unwrap_err(), CgfxError::InvalidValue);
}

#[test]
fn four_byte_magic() {
    let mut pos = 0usize;
    assert_eq!(get_4_byte_string(b"DICTxx", &mut pos).unwrap(), "DICT");
    assert_eq!(pos, 4);
}

#[test]
fn patching_a_placeholder() {
    let mut out = vec![0u8; 8];
    write_at_pointer(&mut out, Pointer(4), 0x0102_0304).unwrap();
    assert_eq!(out, vec![0, 0, 0, 0, 4, 3, 2, 1]);
    assert_eq!(write_at_pointer(&mut out, Pointer(6), 1).unwrap_err(), CgfxError::InvalidValue);
}

/// A dictionary at 0 with a sentinel and one named entry without a value.
fn small_dict() -> Vec<u8> {
    let mut out = Vec::new();
    out.extend_from_slice(b"DICT");
    out.extend_from_slice(&44u32.to_le_bytes());
    out.extend_from_slice(&1u32.to_le_bytes());
    out.extend_from_slice(&0xFFFF_FFFFu32.to_le_bytes());
    out.extend_from_slice(&1u16.to_le_bytes());
    out.extend_from_slice(&0u16.to_le_bytes());
    out.extend_from_slice(&[0u8; 8]);
    out.extend_from_slice(&6u32.to_le_bytes());
    out.extend_from_slice(&0u16.to_le_bytes());
    out.extend_from_slice(&1u16.to_le_bytes());
    // name pointer at 36 points at 44
    out.extend_from_slice(&8u32.to_le_bytes());
    out.extend_from_slice(&0u32.to_le_bytes());
    out.extend_from_slice(b"ab\0");
    out
}

#[test]
fn dictionary_with_sentinel() {
    let d = CgfxDict::<()>::from_buffer(&small_dict(), Pointer(0)).unwrap();
    assert_eq!(d.magic_number, "DICT");
    assert_eq!(d.values_count, 1);
    assert_eq!(d.nodes.len(), 2);
    assert_eq!(d.nodes[0].reference_bit, 0xFFFF_FFFF);
    assert!(d.nodes[0].name.is_none() && d.nodes[0].value.is_none());
    assert_eq!(d.nodes[1].name.as_deref(), Some("ab"));
    assert!(d.nodes[1].value_pointer.is_none());
}

#[test]
fn dictionary_with_missing_node() {
    let bytes = small_dict();
    let mut pos = 0usize;
    assert!(CgfxDict::<()>::from_reader(&bytes[..30], &mut pos).is_err());
    assert_eq!(pos, 0);
}

#[test]
fn unit_dictionary_cannot_be_miscounted() {
    let mut d = CgfxDict::<()>::from_buffer(&small_dict(), Pointer(0)).unwrap();
    d.values_count = 3;
    let mut out = Vec::new();
    let mut ctx = nw_tex::context::WriteContext::new();
    assert_eq!(d.to_writer(&mut out, &mut ctx).unwrap_err(), CgfxError::CountMismatch);
}

#[test]
fn dictionary_with_other_magic() {
    let mut bytes = small_dict();
    bytes[0..4].copy_from_slice(b"DICX");
    assert_eq!(CgfxDict::<()>::from_buffer(&bytes, Pointer(0)).unwrap_err(), CgfxError::MalformedHeader);
}

#[test]
fn dictionary_without_values_is_written_as_records() {
    let d = CgfxDict::<()>::from_buffer(&small_dict(), Pointer(0)).unwrap();
    let mut out = Vec::new();
    let mut ctx = nw_tex::context::WriteContext::new();
    d.to_writer(&mut out, &mut ctx).unwrap();
    let expected = small_dict();
    // the header and the sentinel match; the entry's name placeholder is zero until patched
    assert_eq!(&out[..28], &expected[..28]);
    assert_eq!(&out[28..36], &expected[28..36]);
    assert_eq!(&out[36..44], &[0u8; 8]);
    assert_eq!(ctx.string_section, b"ab\0".to_vec());
}

#[test]
fn pointer_list_skips_null_elements() {
    // list header at 0: three elements, array at 8
    let mut out = vec![0u8; 20];
    out[0..4].copy_from_slice(&3u32.to_le_bytes());
    out[4..8].copy_from_slice(&4u32.to_le_bytes());
    // element 0 null, element 1 at 20, element 2 at 64
    out[12..16].copy_from_slice(&8u32.to_le_bytes());
    out[16..20].copy_from_slice(&48u32.to_le_bytes());
    for (at, code) in [(20usize, 0x1401u32), (64, 0x1403)] {
        out.resize(at + 44, 0);
        out[at..at + 4].copy_from_slice(&code.to_le_bytes());
    }
    let mut pos = 0usize;
    let values: Vec<FaceDescriptor> = read_pointer_list(&out, &mut pos).unwrap();
    assert_eq!(pos, 8);
    assert_eq!(values.len(), 2);
    assert_eq!(values[0].format, nw_tex::mesh::GlDataType::UByte);
    assert_eq!(values[1].format, nw_tex::mesh::GlDataType::UShort);
}
