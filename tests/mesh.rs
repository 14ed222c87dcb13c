use nw_tex::dict::CgfxDict;
use nw_tex::error::CgfxError;
use nw_tex::material::RgbaColor;
use nw_tex::math::{Mat3, Mat3x4, Vec3};
use nw_tex::mesh::{
    AttributeName, BoundingBox, Face, FaceDescriptor, GlDataType, Mesh, Shape, SubMesh, SubMeshSkinning,
    VertexBuffer, VertexBufferAttribute, VertexBufferCommon, VertexBufferInterleaved, VertexBufferType,
    widen_indices,
};
use nw_tex::model::{CgfxModel, CgfxModelCommon};
use nw_tex::records::{CgfxNodeHeader, CgfxObjectHeader, CgfxTransform};
use nw_tex::scene::{interleaved_vertices, mesh_geometry, shape_triangles, triangles_of};
use nw_tex::skeleton::CgfxSkeleton;

fn put(out: &mut Vec<u8>, at: usize, v: u32) {
    if out.len() < at + 4 {
        out.resize(at + 4, 0);
    }
    out[at..at + 4].copy_from_slice(&v.to_le_bytes());
}

/// A face descriptor at offset 0 whose inline index bytes follow it.
fn face_descriptor_bytes(format: u32, raw: &[u8]) -> Vec<u8> {
    let mut out = vec![0u8; 44];
    put(&mut out, 0, format);
    out[4] = 4;
    out[5] = 1;
    put(&mut out, 8, raw.len() as u32);
    put(&mut out, 12, 44 - 12);
    put(&mut out, 40, 7);
    out.extend_from_slice(raw);
    out
}

#[test]
fn float_face_descriptor_is_invalid() {
    let bytes = face_descriptor_bytes(0x1406, &[0, 0, 0, 0]);
    assert_eq!(FaceDescriptor::from_reader(&bytes, 0).unwrap_err(), CgfxError::InvalidValue);
}

#[test]
fn ushort_face_descriptor() {
    let bytes = face_descriptor_bytes(0x1403, &[0, 0, 1, 0, 2, 0]);
    let d = FaceDescriptor::from_reader(&bytes, 0).unwrap();
    assert_eq!(d.format, GlDataType::UShort);
    assert_eq!(d.primitive_mode, 4);
    assert_eq!(d.visible, 1);
    assert_eq!(d.indices, vec![0, 1, 2]);
    assert_eq!(d.bounding_volume, 7);
}

#[test]
fn ubyte_face_descriptor_widens() {
    let bytes = face_descriptor_bytes(0x1401, &[3, 200, 255]);
    let d = FaceDescriptor::from_reader(&bytes, 0).unwrap();
    assert_eq!(d.indices, vec![3, 200, 255]);
}

#[test]
fn odd_ushort_indices_are_invalid() {
    let bytes = face_descriptor_bytes(0x1402, &[1, 0, 2]);
    assert_eq!(FaceDescriptor::from_reader(&bytes, 0).unwrap_err(), CgfxError::InvalidValue);
}

#[test]
fn index_widening() {
    assert_eq!(widen_indices(GlDataType::UByte, &vec![1, 2, 255]).unwrap(), vec![1, 2, 255]);
    assert_eq!(widen_indices(GlDataType::Byte, &vec![7]).unwrap(), vec![7]);
    assert_eq!(widen_indices(GlDataType::UShort, &vec![1, 0, 2, 1]).unwrap(), vec![1, 258]);
    assert_eq!(widen_indices(GlDataType::Short, &vec![0xff, 0xff]).unwrap(), vec![0xffff]);
    assert_eq!(widen_indices(GlDataType::UShort, &vec![1, 0, 2]).unwrap_err(), CgfxError::InvalidValue);
    assert_eq!(widen_indices(GlDataType::Float, &vec![0, 0, 0, 0]).unwrap_err(), CgfxError::InvalidValue);
    assert_eq!(widen_indices(GlDataType::Float, &vec![]).unwrap(), Vec::<u16>::new());
}

#[test]
fn byte_sizes() {
    assert_eq!(GlDataType::Byte.byte_size(), 1);
    assert_eq!(GlDataType::UByte.byte_size(), 1);
    assert_eq!(GlDataType::Short.byte_size(), 2);
    assert_eq!(GlDataType::UShort.byte_size(), 2);
    assert_eq!(GlDataType::Float.byte_size(), 4);
}

#[test]
fn triangles_from_indices() {
    assert_eq!(triangles_of(&vec![0, 1, 2, 2, 1, 3]).unwrap(), vec![(0, 1, 2), (2, 1, 3)]);
    assert_eq!(triangles_of(&vec![0, 1]).unwrap_err(), CgfxError::InvalidValue);
}

fn header(magic: &str) -> CgfxObjectHeader {
    CgfxObjectHeader {
        magic: magic.to_string(),
        revision: 0,
        name: None,
        metadata_count: 0,
        metadata_pointer: None,
    }
}

fn attribute(name: AttributeName, format: GlDataType, elements: u32, offset: u32) -> VertexBufferAttribute {
    VertexBufferAttribute {
        vertex_buffer_common: VertexBufferCommon { attribute_name: name, vertex_buffer_type: VertexBufferType::Interleaved },
        buffer_obj: 0,
        location_flag: 0,
        raw_bytes: Vec::new(),
        location_ptr: 0,
        memory_area: 0,
        format,
        elements,
        scale: 1.0f32.to_bits(),
        offset,
    }
}

fn interleaved_buffer() -> VertexBufferInterleaved {
    let mut raw = Vec::new();
    for v in 0..3u32 {
        for c in 0..3u32 {
            raw.extend_from_slice(&((v * 3 + c) as f32).to_le_bytes());
        }
        raw.extend_from_slice(&(v as f32 * 0.5).to_le_bytes());
        raw.extend_from_slice(&(1.0f32 - v as f32 * 0.5).to_le_bytes());
        raw.extend_from_slice(&[v as u8, 10, 20, 255]);
    }
    VertexBufferInterleaved {
        vertex_buffer_common: VertexBufferCommon {
            attribute_name: AttributeName::Interleave,
            vertex_buffer_type: VertexBufferType::Interleaved,
        },
        buffer_obj: 0,
        location_flag: 0,
        raw_bytes: raw,
        location_ptr: 0,
        memory_area: 0,
        vertex_stride: 24,
        attributes: vec![
            attribute(AttributeName::Position, GlDataType::Float, 3, 0),
            attribute(AttributeName::TexCoord0, GlDataType::Float, 2, 12),
            attribute(AttributeName::Color, GlDataType::UByte, 4, 20),
        ],
    }
}

#[test]
fn interleaved_vertex_streams() {
    let streams = interleaved_vertices(&interleaved_buffer()).unwrap();
    assert_eq!(streams.positions.len(), 3);
    assert_eq!(streams.uvs.len(), 3);
    assert_eq!(streams.colors.len(), 3);
    assert_eq!(f32::from_bits(streams.positions[1].x), 3.0);
    assert_eq!(f32::from_bits(streams.positions[2].z), 8.0);
    assert_eq!(f32::from_bits(streams.uvs[2].x), 1.0);
    assert_eq!(streams.colors[1], RgbaColor { r: 1, g: 10, b: 20, a: 255 });
}

#[test]
fn interleaved_position_of_wrong_format_is_invalid() {
    let mut vb = interleaved_buffer();
    vb.attributes[0].elements = 2;
    assert_eq!(interleaved_vertices(&vb).unwrap_err(), CgfxError::InvalidValue);
}

fn zero_vec() -> Vec3 {
    Vec3 { x: 0, y: 0, z: 0 }
}

fn shape_with_interleaved_buffer() -> Shape {
    let descriptor = FaceDescriptor {
        format: GlDataType::UShort,
        primitive_mode: 0,
        visible: 1,
        indices: vec![0, 1, 2],
        bounding_volume: 0,
    };
    let face = Face { face_descriptors: vec![descriptor], buffer_objs: vec![], flags: 0, command_alloc: 0 };
    let sub_mesh = SubMesh { bone_indices: vec![], skinning: SubMeshSkinning::Unskinned, faces: vec![face] };
    Shape {
        cgfx_object_header: header("SOBJ"),
        flags: 0,
        bounding_box: Some(BoundingBox {
            flags: 0,
            center: Vec3 { x: 1.5f32.to_bits(), y: 0, z: 0 },
            orientation: Mat3 { c0: zero_vec(), c1: zero_vec(), c2: zero_vec() },
            size: zero_vec(),
        }),
        position_offset: zero_vec(),
        sub_meshes: vec![sub_mesh],
        base_address: 0,
        vertex_buffers: vec![VertexBuffer::Interleaved(interleaved_buffer())],
    }
}

fn model_common(shapes: Vec<Shape>) -> CgfxModelCommon {
    let m = Mat3x4 { c0: zero_vec(), c1: zero_vec(), c2: zero_vec(), c3: zero_vec() };
    CgfxModelCommon {
        cgfx_object_header: header("CMDL"),
        cgfx_node_header: CgfxNodeHeader {
            branch_visible: 1,
            is_branch_visible: 1,
            child_count: 0,
            children_pointer: None,
            anim_groups: CgfxDict { magic_number: String::new(), tree_length: 0, values_count: 0, nodes: vec![] },
            anim_group_count: 0,
            anim_group_pointer: None,
        },
        transform_node_header: CgfxTransform {
            scale: zero_vec(),
            rotation: zero_vec(),
            translation: zero_vec(),
            local_transform: m,
            world_transform: m,
        },
        meshes: vec![],
        materials: None,
        shapes,
        mesh_node_visibilities: None,
        flags: 0,
        face_culling: 0,
        layer_id: 0,
    }
}

fn mesh(shape_index: u32, render_priority: u8) -> Mesh {
    Mesh {
        cgfx_object_header: header("SOBJ"),
        shape_index,
        material_index: 2,
        parent_ptr: 0i32,
        visible: 1,
        render_priority,
        mesh_node_index: 0,
        primitive_index: 0,
    }
}

#[test]
fn model_with_interleaved_shape() {
    let common = model_common(vec![shape_with_interleaved_buffer()]);
    let geometry = mesh_geometry(&common, &mesh(0, 0), 5).unwrap();
    assert_eq!(geometry.faces, vec![(0, 1, 2)]);
    assert_eq!(geometry.vertex_positions.len(), 3);
    assert_eq!(geometry.vertex_uvs.len(), 3);
    assert_eq!(geometry.vertex_colors.len(), 3);
    assert_eq!(geometry.material_id, 7);
    assert_eq!(f32::from_bits(geometry.center.x), 1.5);
    assert_eq!(shape_triangles(&common.shapes[0]).unwrap(), vec![(0, 1, 2)]);
}

#[test]
fn mesh_with_bad_shape_index_or_priority() {
    let common = model_common(vec![shape_with_interleaved_buffer()]);
    assert_eq!(mesh_geometry(&common, &mesh(1, 0), 0).unwrap_err(), CgfxError::InvalidValue);
    assert_eq!(mesh_geometry(&common, &mesh(0, 1), 0).unwrap_err(), CgfxError::InvalidValue);
}

/// A skeletal model at offset 0 whose skeleton, at 228, has three bones.
fn skeletal_model_bytes(with_skeleton: bool, with_root: bool) -> Vec<u8> {
    let mut out = vec![0u8; 228];
    put(&mut out, 0, 0x4000_0092);
    out[4..8].copy_from_slice(b"CMDL");
    if !with_skeleton {
        return out;
    }
    put(&mut out, 224, 4);
    put(&mut out, 228, 0x0200_0000);
    out.resize(272, 0);
    out[232..236].copy_from_slice(b"SKEL");
    put(&mut out, 252, 3);
    put(&mut out, 256, 272 - 256);
    if with_root {
        put(&mut out, 260, 348 - 260);
    }
    // the bone dictionary: a sentinel and three entries
    out.extend_from_slice(b"DICT");
    put(&mut out, 276, 12 + 16 * 4);
    put(&mut out, 280, 3);
    put(&mut out, 284, 0xFFFF_FFFF);
    for k in 1..4usize {
        let node = 284 + 16 * k;
        put(&mut out, node, k as u32);
        let bone = 348 + 220 * (k - 1);
        put(&mut out, node + 12, (bone - (node + 12)) as u32);
    }
    out.resize(348 + 220 * 3, 0);
    for k in 0..3usize {
        let bone = 348 + 220 * k;
        put(&mut out, bone + 8, k as u32);
        put(&mut out, bone + 12, if k == 0 { 0 } else { k as u32 - 1 });
    }
    out
}

#[test]
fn skeletal_model_with_three_bones() {
    let bytes = skeletal_model_bytes(true, true);
    match CgfxModel::from_reader(&bytes, 0).unwrap() {
        CgfxModel::Skeletal(common, skeleton) => {
            assert_eq!(common.cgfx_object_header.magic, "CMDL");
            assert_eq!(skeleton.bones.values_count, 3);
            assert_eq!(skeleton.bones.nodes.len(), 4);
            assert_eq!(skeleton.root_bone.0, 348);
            let bone = skeleton.bones.nodes[3].value.as_ref().unwrap();
            assert_eq!(bone.index, 2);
            assert_eq!(bone.parent_index, 1);
        },
        _ => panic!("expected a skeletal model"),
    }
}

#[test]
fn skeletal_model_without_skeleton_pointer() {
    let bytes = skeletal_model_bytes(false, false);
    assert_eq!(CgfxModel::from_reader(&bytes, 0).unwrap_err(), CgfxError::UnexpectedNull);
}

#[test]
fn skeleton_without_root_bone() {
    let bytes = skeletal_model_bytes(true, false);
    assert_eq!(CgfxSkeleton::from_reader(&bytes, 228).unwrap_err(), CgfxError::UnexpectedNull);
    assert_eq!(CgfxModel::from_reader(&bytes, 0).unwrap_err(), CgfxError::UnexpectedNull);
}

#[test]
fn unknown_model_tag() {
    let mut bytes = skeletal_model_bytes(false, false);
    put(&mut bytes, 0, 0x4000_0013);
    assert_eq!(
        CgfxModel::from_reader(&bytes, 0).unwrap_err(),
        CgfxError::UnknownDiscriminant { offset: 0, tag: 0x4000_0013 }
    );
}

#[test]
fn standard_model_has_no_skeleton() {
    let mut bytes = skeletal_model_bytes(false, false);
    put(&mut bytes, 0, 0x4000_0012);
    assert!(matches!(CgfxModel::from_reader(&bytes, 0).unwrap(), CgfxModel::Standard(_)));
}

#[test]
fn shape_with_offset_is_invalid() {
    let mut out = vec![0u8; 64];
    put(&mut out, 0, 0x1000_0001);
    out[4..8].copy_from_slice(b"SOBJ");
    assert!(Shape::from_reader(&out, 0).is_ok());
    // negative zero still counts as zero
    put(&mut out, 36, 0x8000_0000);
    assert!(Shape::from_reader(&out, 0).unwrap().position_offset.is_zero());
    put(&mut out, 32, 1.0f32.to_bits());
    assert_eq!(Shape::from_reader(&out, 0).unwrap_err(), CgfxError::InvalidValue);
}

#[test]
fn skeleton_with_miscounted_bones() {
    let mut bytes = skeletal_model_bytes(true, true);
    put(&mut bytes, 252, 2);
    assert_eq!(CgfxSkeleton::from_reader(&bytes, 228).unwrap_err(), CgfxError::CountMismatch);
}

#[test]
fn skeleton_with_wrong_magic() {
    let mut bytes = skeletal_model_bytes(true, true);
    put(&mut bytes, 228, 0x0200_0001);
    assert_eq!(
        CgfxSkeleton::from_reader(&bytes, 228).unwrap_err(),
        CgfxError::UnknownDiscriminant { offset: 228, tag: 0x0200_0001 }
    );
}
