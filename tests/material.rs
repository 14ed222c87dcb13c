use nw_tex::error::CgfxError;
use nw_tex::material::CgfxMaterial;
use nw_tex::pointer::Pointer;
use nw_tex::scene::first_texture_path;

fn put(out: &mut [u8], at: usize, v: u32) {
    out[at..at + 4].copy_from_slice(&v.to_le_bytes());
}

/// A material at 0 with one texture mapper, its texture reference and its
/// sampler, and the path string they lead to.
fn material_bytes() -> Vec<u8> {
    let mut out = vec![0u8; 765];
    put(&mut out, 0, 0x0800_0000);
    out[4..8].copy_from_slice(b"MTOB");
    put(&mut out, 24, 1);
    put(&mut out, 36, 1.0f32.to_bits());
    put(&mut out, 360, 1);
    put(&mut out, 364 + 88, 1);
    put(&mut out, 628, 640 - 628);
    // the mapper
    put(&mut out, 640, 0x8000_0000);
    put(&mut out, 648, 716 - 648);
    put(&mut out, 652, 748 - 652);
    put(&mut out, 656, 0xAB);
    put(&mut out, 712, 14);
    // the texture reference
    put(&mut out, 716, 0x2000_0004);
    out[720..724].copy_from_slice(b"TXOB");
    put(&mut out, 740, 760 - 740);
    // the sampler, pointing back at its mapper
    put(&mut out, 748, 0x8000_0000);
    put(&mut out, 752, (640i64 - 752) as i32 as u32);
    put(&mut out, 756, 1);
    out[760..765].copy_from_slice(b"wood\0");
    out
}

#[test]
fn material_with_texture_mapper() {
    let bytes = material_bytes();
    let material = CgfxMaterial::from_reader(&bytes, 0).unwrap();
    assert_eq!(material.cgfx_object_header.magic, "MTOB");
    assert_eq!(material.flags, 1);
    assert_eq!(material.render_layer, 0);
    assert_eq!(f32::from_bits(material.colors.emission_float.x), 1.0);
    assert_eq!(material.used_texture_coords_count, 1);
    assert_eq!(material.texture_coords.len(), 3);
    assert_eq!(material.texture_coords[1].source_coord_index, 1);
    assert!(material.texture_mappers[1].is_none() && material.texture_mappers[2].is_none());
    let mapper = material.texture_mappers[0].as_ref().unwrap();
    assert_eq!(mapper.commands.len(), 14);
    assert_eq!(mapper.commands[0], 0xAB);
    assert_eq!(mapper.commands_len, 14);
    let reference = mapper.texture.as_ref().unwrap();
    assert_eq!(reference.path.as_deref(), Some("wood"));
    let sampler = mapper.sampler.as_ref().unwrap();
    assert_eq!(sampler.min_filter, 1);
    assert_eq!(sampler.parent_mapper, Some(Pointer(640)));
    assert_eq!(first_texture_path(&material).unwrap().as_deref(), Some("wood"));
}

#[test]
fn material_with_wrong_magic() {
    let mut bytes = material_bytes();
    put(&mut bytes, 0, 0x0800_0001);
    assert_eq!(
        CgfxMaterial::from_reader(&bytes, 0).unwrap_err(),
        CgfxError::UnknownDiscriminant { offset: 0, tag: 0x0800_0001 }
    );
}

#[test]
fn material_on_another_layer_is_refused_by_the_viewer() {
    let mut bytes = material_bytes();
    put(&mut bytes, 32, 1);
    let material = CgfxMaterial::from_reader(&bytes, 0).unwrap();
    assert_eq!(first_texture_path(&material).unwrap_err(), CgfxError::InvalidValue);
}

#[test]
fn mapper_without_texture_reference() {
    let mut bytes = material_bytes();
    put(&mut bytes, 648, 0);
    let material = CgfxMaterial::from_reader(&bytes, 0).unwrap();
    assert_eq!(first_texture_path(&material).unwrap_err(), CgfxError::UnexpectedNull);
}
