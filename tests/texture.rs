use nw_tex::container::CgfxContainer;
use nw_tex::context::WriteContext;
use nw_tex::error::CgfxError;
use nw_tex::records::CgfxObjectHeader;
use nw_tex::texture::{CgfxTexture, CgfxTextureCommon, ImageData, PicaTextureFormat};

fn rgba_texture(name: &str) -> CgfxTexture {
    let common = CgfxTextureCommon {
        cgfx_object_header: CgfxObjectHeader {
            magic: "TXOB".to_string(),
            revision: 0x0500_0000,
            name: Some(name.to_string()),
            metadata_count: 0,
            metadata_pointer: None,
        },
        height: 4,
        width: 4,
        gl_format: 0x6752,
        gl_type: 0x1401,
        mipmap_size: 1,
        texture_obj: 0,
        location_flag: 0,
        texture_format: PicaTextureFormat::RGBA8,
    };
    let image = ImageData {
        height: 4,
        width: 4,
        image_bytes: (0..64u8).collect(),
        buffer_length: 64,
        buffer_pointer: None,
        dynamic_alloc: 0,
        bits_per_pixel: 32,
        location_ptr: 0,
        memory_area: 0,
    };
    CgfxTexture::Image(common, Some(image))
}

#[test]
fn single_texture_round_trip() {
    let container = CgfxContainer::from_single_texture("tex".to_string(), 0, rgba_texture("tex"));
    let bytes = container.to_buffer().unwrap();
    assert_eq!(bytes.len(), 0x180 + 64);
    // the image section's tag sits eight bytes before a multiple of 128
    let imag = bytes.len() - 64 - 8;
    assert_eq!(&bytes[imag..imag + 4], b"IMAG");
    assert_eq!((imag + 8) % 128, 0);
    assert_eq!(u32::from_le_bytes(bytes[imag + 4..imag + 8].try_into().unwrap()), 72);

    let parsed = CgfxContainer::new(&bytes).unwrap();
    let dict = parsed.textures.as_ref().unwrap();
    assert_eq!(dict.values_count, 1);
    assert_eq!(dict.nodes.len(), 2);
    assert_eq!(dict.nodes[0].reference_bit, 0xFFFF_FFFF);
    assert!(dict.nodes[0].name.is_none());
    assert!(dict.nodes[0].value.is_none());
    assert_eq!(dict.nodes[1].reference_bit, 22);
    assert_eq!(dict.nodes[1].name.as_deref(), Some("tex"));
    match dict.nodes[1].value.as_ref().unwrap() {
        CgfxTexture::Image(common, Some(image)) => {
            assert_eq!(common.texture_format, PicaTextureFormat::RGBA8);
            assert_eq!(common.cgfx_object_header.name.as_deref(), Some("tex"));
            assert_eq!(image.bits_per_pixel, 32);
            assert_eq!(image.image_bytes, (0..64u8).collect::<Vec<u8>>());
        },
        _ => panic!("expected a 2D texture with an image"),
    }

    let again = parsed.to_buffer().unwrap();
    assert_eq!(again, bytes);
    assert_eq!(parsed.to_buffer_debug(Some(&bytes)).unwrap(), bytes);
}

#[test]
fn single_texture_header() {
    let container = CgfxContainer::from_single_texture("tex".to_string(), 0, rgba_texture("tex"));
    assert_eq!(container.header.file_length, 0x180 + 64);
    assert_eq!(container.header.content_length, 356);
    assert_eq!(container.header.sections_count, 2);
    assert_eq!(container.header.revision, 0x0500_0000);
    let dict = container.textures.as_ref().unwrap();
    assert_eq!(dict.magic_number, "DICT");
    assert_eq!(dict.tree_length, 44);
    assert_eq!(dict.nodes[0].left_node_index, 1);
    assert_eq!(dict.nodes[1].right_node_index, 1);
    assert!(container.models.is_none());
}

#[test]
fn shared_suffix_names_share_string_bytes() {
    let mut ctx = WriteContext::new();
    ctx.add_string("abc").unwrap();
    ctx.add_string("bc").unwrap();
    assert_eq!(ctx.string_section, b"abc\0".to_vec());
    ctx.add_string("d").unwrap();
    assert_eq!(ctx.string_section, b"abc\0d\0".to_vec());
}

#[test]
fn string_reference_is_replaced_for_same_location() {
    let mut ctx = WriteContext::new();
    ctx.add_string_reference(nw_tex::pointer::Pointer(8), "a".to_string());
    ctx.add_string_reference(nw_tex::pointer::Pointer(12), "b".to_string());
    ctx.add_string_reference(nw_tex::pointer::Pointer(8), "c".to_string());
    assert_eq!(ctx.string_references.len(), 2);
    assert_eq!(ctx.string_references[0].1, "c");
}

#[test]
fn image_reference_points_at_current_end() {
    let mut ctx = WriteContext::new();
    ctx.append_to_image_section(&[1, 2, 3]).unwrap();
    ctx.add_image_reference_to_current_end(nw_tex::pointer::Pointer(40)).unwrap();
    assert_eq!(ctx.image_references[0].1, nw_tex::pointer::Pointer(3));
}

#[test]
fn bits_per_pixel_of_formats() {
    assert_eq!(PicaTextureFormat::RGBA8.get_bpp(), 32);
    assert_eq!(PicaTextureFormat::RGB8.get_bpp(), 24);
    assert_eq!(PicaTextureFormat::RGB565.get_bpp(), 16);
    assert_eq!(PicaTextureFormat::L8.get_bpp(), 8);
    assert_eq!(PicaTextureFormat::L4.get_bpp(), 4);
    assert_eq!(PicaTextureFormat::ETC1.get_bpp(), 4);
    assert_eq!(PicaTextureFormat::ETC1A4.get_bpp(), 8);
}

#[test]
fn texture_size_counts_image_bytes() {
    assert_eq!(rgba_texture("t").size(), 64);
    let mut texture = rgba_texture("t");
    texture.metadata_mut().width = 8;
    assert_eq!(texture.metadata().width, 8);
}

#[test]
fn cube_texture_cannot_be_written() {
    let common = rgba_texture("c").metadata().clone();
    let face = match rgba_texture("c") {
        CgfxTexture::Image(_, Some(d)) => d,
        _ => unreachable!(),
    };
    let faces = [face.clone(), face.clone(), face.clone(), face.clone(), face.clone(), face];
    let cube = CgfxTexture::Cube(common, faces);
    let mut out = Vec::new();
    let mut ctx = WriteContext::new();
    assert_eq!(cube.to_writer(&mut out, &mut ctx).unwrap_err(), CgfxError::Unsupported);
}

#[test]
fn unknown_texture_tag() {
    let container = CgfxContainer::from_single_texture("tex".to_string(), 0, rgba_texture("tex"));
    let bytes = container.to_buffer().unwrap();
    let mut pos = 200usize;
    assert!(CgfxTexture::from_reader(&bytes, &mut pos).is_ok());
    let mut broken = bytes.clone();
    broken[200..204].copy_from_slice(&0x2000_0001u32.to_le_bytes());
    let mut pos = 200usize;
    assert_eq!(
        CgfxTexture::from_reader(&broken, &mut pos).unwrap_err(),
        CgfxError::UnknownDiscriminant { offset: 200, tag: 0x2000_0001 }
    );
    assert_eq!(pos, 200);
}

#[test]
fn image_with_location_is_invalid() {
    let container = CgfxContainer::from_single_texture("tex".to_string(), 0, rgba_texture("tex"));
    let mut bytes = container.to_buffer().unwrap();
    // the image record follows the texture's slot; its location field is 24 bytes in
    bytes[260 + 24] = 1;
    assert_eq!(CgfxContainer::new(&bytes).unwrap_err(), CgfxError::InvalidValue);
}

#[test]
fn content_length_must_match() {
    let mut container = CgfxContainer::from_single_texture("tex".to_string(), 0, rgba_texture("tex"));
    container.header.content_length += 1;
    assert_eq!(container.to_buffer().unwrap_err(), CgfxError::MalformedHeader);
}

#[test]
fn slot_count_must_match_dictionary() {
    let container = CgfxContainer::from_single_texture("tex".to_string(), 0, rgba_texture("tex"));
    let mut bytes = container.to_buffer().unwrap();
    bytes[36] = 2;
    assert_eq!(CgfxContainer::new(&bytes).unwrap_err(), CgfxError::CountMismatch);
}

#[test]
fn present_empty_dictionary() {
    let container = CgfxContainer::from_single_texture("tex".to_string(), 0, rgba_texture("tex"));
    let mut bytes = container.to_buffer().unwrap();
    // point the lookup-table slot at a dictionary of the sentinel alone, counted as empty
    let dict = bytes.len();
    bytes.extend_from_slice(b"DICT");
    bytes.extend_from_slice(&28u32.to_le_bytes());
    bytes.extend_from_slice(&0u32.to_le_bytes());
    bytes.extend_from_slice(&0xFFFF_FFFFu32.to_le_bytes());
    bytes.extend_from_slice(&[0u8; 12]);
    let slot = 28 + 8 * 2;
    bytes[slot + 4..slot + 8].copy_from_slice(&((dict - (slot + 4)) as u32).to_le_bytes());
    let parsed = CgfxContainer::new(&bytes).unwrap();
    let luts = parsed.luts.as_ref().unwrap();
    assert_eq!(luts.values_count, 0);
    assert_eq!(luts.nodes.len(), 1);
    assert!(parsed.materials.is_none());
}

#[test]
fn cube_with_null_face() {
    let container = CgfxContainer::from_single_texture("tex".to_string(), 0, rgba_texture("tex"));
    let bytes = container.to_buffer().unwrap();
    // a cube tag, common fields copied from the 2D texture, and six face slots of which only the first is set
    let mut cube = bytes.clone();
    let at = cube.len();
    cube.extend_from_slice(&0x2000_0009u32.to_le_bytes());
    cube.extend_from_slice(&bytes[204..256]);
    // the copied name pointer is relative to its old place: drop the name
    cube[at + 12..at + 16].copy_from_slice(&[0u8; 4]);
    let first = cube.len();
    cube.extend_from_slice(&((260 as i64 - first as i64) as i32 as u32).to_le_bytes());
    cube.extend_from_slice(&[0u8; 20]);
    let mut pos = at;
    assert_eq!(CgfxTexture::from_reader(&cube, &mut pos).unwrap_err(), CgfxError::UnexpectedNull);
    assert_eq!(pos, at);
}

#[test]
fn single_texture_fixed_bytes() {
    let container = CgfxContainer::from_single_texture("tex".to_string(), 0, rgba_texture("tex"));
    let out = container.to_buffer().unwrap();
    let word = |at: usize| u32::from_le_bytes(out[at..at + 4].try_into().unwrap());
    assert_eq!(out.len(), 0x1C0);
    assert_eq!(word(0x24), 1);
    assert_eq!(word(0x28), 116);
    assert_eq!(&out[0x124..0x128], b"tex\0");
    assert_eq!(word(0x110), 0x70);
    assert_eq!(&out[0x178..0x17C], b"IMAG");
    assert_eq!(word(0x17C), 72);
    assert_eq!(out[0x180..0x1C0].to_vec(), (0..64u8).collect::<Vec<u8>>());
}
