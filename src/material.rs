//! Materials: colors, rasterizer and fragment state, texture coordinate
//! transforms and up to three texture mappers.
use vstd::prelude::*;
use crate::bytes::{
    fits, read_relative_pointer, read_string_pointer, read_u8, read_u32, rel_ptr_at, string_ptr_ok,
    u32_at,
};
use crate::context::WriteContext;
use crate::dict::CgfxCollectionValue;
use crate::error::CgfxError;
use crate::math::{Mat3x4, Vec2, Vec4, mat3x4_at, vec2_at, vec4_at};
use crate::mesh::read_words_at;
use crate::pointer::Pointer;
use crate::records::{CgfxObjectHeader, object_header_ok, object_header_read_from};

verus! {

/// An 8-bit RGBA color.
#[derive(Debug, Clone, Copy, PartialEq, Eq, Structural)]
pub struct RgbaColor {
    pub r: u8,
    pub g: u8,
    pub b: u8,
    pub a: u8,
}

/// The color stored at `p`.
pub open spec fn rgba_at(s: Seq<u8>, p: int) -> RgbaColor {
    RgbaColor { r: s[p], g: s[p + 1], b: s[p + 2], a: s[p + 3] }
}

impl RgbaColor {
    pub fn from_reader(buf: &[u8], pos: &mut usize) -> (r: Result<RgbaColor, CgfxError>)
        ensures
            r is Ok <==> fits(buf@, *old(pos) as int, 4),
            r matches Ok(c) ==> c == rgba_at(buf@, *old(pos) as int) && *final(pos) == *old(pos) + 4,
            r is Err ==> *final(pos) == *old(pos),
    {
        let mut p = *pos;
        if p > buf.len() || buf.len() - p < 4 {
            return Err(CgfxError::TruncatedInput);
        }
        let r = read_u8(buf, &mut p)?;
        let g = read_u8(buf, &mut p)?;
        let b = read_u8(buf, &mut p)?;
        let a = read_u8(buf, &mut p)?;
        *pos = p;
        Ok(RgbaColor { r, g, b, a })
    }
}

/// The material's color registers, as floats (bit patterns) and as bytes.
#[derive(Debug, Clone, Copy, PartialEq, Eq, Structural)]
pub struct MaterialColors {
    pub emission_float: Vec4,
    pub ambient_float: Vec4,
    pub diffuse_float: Vec4,
    pub specular0_float: Vec4,
    pub specular1_float: Vec4,
    pub constant0_float: Vec4,
    pub constant1_float: Vec4,
    pub constant2_float: Vec4,
    pub constant3_float: Vec4,
    pub constant4_float: Vec4,
    pub constant5_float: Vec4,
    pub emission: RgbaColor,
    pub ambient: RgbaColor,
    pub diffuse: RgbaColor,
    pub specular0: RgbaColor,
    pub specular1: RgbaColor,
    pub constant0: RgbaColor,
    pub constant1: RgbaColor,
    pub constant2: RgbaColor,
    pub constant3: RgbaColor,
    pub constant4: RgbaColor,
    pub constant5: RgbaColor,
    pub command_cache: u32,
}

/// The color registers stored at `p`.
pub open spec fn material_colors_at(s: Seq<u8>, p: int) -> MaterialColors {
    MaterialColors {
        emission_float: vec4_at(s, p),
        ambient_float: vec4_at(s, p + 16),
        diffuse_float: vec4_at(s, p + 32),
        specular0_float: vec4_at(s, p + 48),
        specular1_float: vec4_at(s, p + 64),
        constant0_float: vec4_at(s, p + 80),
        constant1_float: vec4_at(s, p + 96),
        constant2_float: vec4_at(s, p + 112),
        constant3_float: vec4_at(s, p + 128),
        constant4_float: vec4_at(s, p + 144),
        constant5_float: vec4_at(s, p + 160),
        emission: rgba_at(s, p + 176),
        ambient: rgba_at(s, p + 180),
        diffuse: rgba_at(s, p + 184),
        specular0: rgba_at(s, p + 188),
        specular1: rgba_at(s, p + 192),
        constant0: rgba_at(s, p + 196),
        constant1: rgba_at(s, p + 200),
        constant2: rgba_at(s, p + 204),
        constant3: rgba_at(s, p + 208),
        constant4: rgba_at(s, p + 212),
        constant5: rgba_at(s, p + 216),
        command_cache: u32_at(s, p + 220) as u32,
    }
}

impl MaterialColors {
    pub fn from_reader(buf: &[u8], pos: &mut usize) -> (r: Result<MaterialColors, CgfxError>)
        ensures
            r is Ok <==> fits(buf@, *old(pos) as int, 224),
            r matches Ok(c) ==> c == material_colors_at(buf@, *old(pos) as int) && *final(pos) == *old(pos) + 224,
            r is Err ==> *final(pos) == *old(pos),
    {
        let mut p = *pos;
        if p > buf.len() || buf.len() - p < 224 {
            return Err(CgfxError::TruncatedInput);
        }
        let emission_float = Vec4::from_reader(buf, &mut p)?;
        let ambient_float = Vec4::from_reader(buf, &mut p)?;
        let diffuse_float = Vec4::from_reader(buf, &mut p)?;
        let specular0_float = Vec4::from_reader(buf, &mut p)?;
        let specular1_float = Vec4::from_reader(buf, &mut p)?;
        let constant0_float = Vec4::from_reader(buf, &mut p)?;
        let constant1_float = Vec4::from_reader(buf, &mut p)?;
        let constant2_float = Vec4::from_reader(buf, &mut p)?;
        let constant3_float = Vec4::from_reader(buf, &mut p)?;
        let constant4_float = Vec4::from_reader(buf, &mut p)?;
        let constant5_float = Vec4::from_reader(buf, &mut p)?;
        let emission = RgbaColor::from_reader(buf, &mut p)?;
        let ambient = RgbaColor::from_reader(buf, &mut p)?;
        let diffuse = RgbaColor::from_reader(buf, &mut p)?;
        let specular0 = RgbaColor::from_reader(buf, &mut p)?;
        let specular1 = RgbaColor::from_reader(buf, &mut p)?;
        let constant0 = RgbaColor::from_reader(buf, &mut p)?;
        let constant1 = RgbaColor::from_reader(buf, &mut p)?;
        let constant2 = RgbaColor::from_reader(buf, &mut p)?;
        let constant3 = RgbaColor::from_reader(buf, &mut p)?;
        let constant4 = RgbaColor::from_reader(buf, &mut p)?;
        let constant5 = RgbaColor::from_reader(buf, &mut p)?;
        let command_cache = read_u32(buf, &mut p)?;
        *pos = p;
        Ok(
            MaterialColors {
                emission_float,
                ambient_float,
                diffuse_float,
                specular0_float,
                specular1_float,
                constant0_float,
                constant1_float,
                constant2_float,
                constant3_float,
                constant4_float,
                constant5_float,
                emission,
                ambient,
                diffuse,
                specular0,
                specular1,
                constant0,
                constant1,
                constant2,
                constant3,
                constant4,
                constant5,
                command_cache,
            },
        )
    }
}

/// Reads 2 consecutive 32-bit integers at `at`.
fn words_2(buf: &[u8], at: usize) -> (r: Result<[u32; 2], CgfxError>)
    ensures
        r is Ok <==> fits(buf@, at as int, 8),
        r matches Ok(a) ==> forall|k: int| 0 <= k < 2 ==> #[trigger] a@[k] == u32_at(buf@, at + 4 * k),
{
    let w = read_words_at(buf, at, 2)?;
    let a: [u32; 2] = [w[0], w[1]];
    assert forall|k: int| 0 <= k < 2 implies #[trigger] a@[k] == u32_at(buf@, at + 4 * k) by {
        assert(a@[k] == w@[k]);
    }
    Ok(a)
}

/// Reads 4 consecutive 32-bit integers at `at`.
fn words_4(buf: &[u8], at: usize) -> (r: Result<[u32; 4], CgfxError>)
    ensures
        r is Ok <==> fits(buf@, at as int, 16),
        r matches Ok(a) ==> forall|k: int| 0 <= k < 4 ==> #[trigger] a@[k] == u32_at(buf@, at + 4 * k),
{
    let w = read_words_at(buf, at, 4)?;
    let a: [u32; 4] = [w[0], w[1], w[2], w[3]];
    assert forall|k: int| 0 <= k < 4 implies #[trigger] a@[k] == u32_at(buf@, at + 4 * k) by {
        assert(a@[k] == w@[k]);
    }
    Ok(a)
}

/// Reads 6 consecutive 32-bit integers at `at`.
fn words_6(buf: &[u8], at: usize) -> (r: Result<[u32; 6], CgfxError>)
    ensures
        r is Ok <==> fits(buf@, at as int, 24),
        r matches Ok(a) ==> forall|k: int| 0 <= k < 6 ==> #[trigger] a@[k] == u32_at(buf@, at + 4 * k),
{
    let w = read_words_at(buf, at, 6)?;
    let a: [u32; 6] = [w[0], w[1], w[2], w[3], w[4], w[5]];
    assert forall|k: int| 0 <= k < 6 implies #[trigger] a@[k] == u32_at(buf@, at + 4 * k) by {
        assert(a@[k] == w@[k]);
    }
    Ok(a)
}

/// Reads 14 consecutive 32-bit integers at `at`.
fn words_14(buf: &[u8], at: usize) -> (r: Result<[u32; 14], CgfxError>)
    ensures
        r is Ok <==> fits(buf@, at as int, 56),
        r matches Ok(a) ==> forall|k: int| 0 <= k < 14 ==> #[trigger] a@[k] == u32_at(buf@, at + 4 * k),
{
    let w = read_words_at(buf, at, 14)?;
    let a: [u32; 14] = [w[0], w[1], w[2], w[3], w[4], w[5], w[6], w[7], w[8], w[9], w[10], w[11], w[12], w[13]];
    assert forall|k: int| 0 <= k < 14 implies #[trigger] a@[k] == u32_at(buf@, at + 4 * k) by {
        assert(a@[k] == w@[k]);
    }
    Ok(a)
}

/// Rasterizer state; `polygon_offset_unit` is a float's bit pattern.
#[derive(Debug, Clone)]
pub struct Rasterization {
    pub is_polygon_offset_enabled: u32,
    pub face_culling: u32,
    pub polygon_offset_unit: u32,
    pub face_culling_command: [u32; 2],
}

/// Depth, blend and stencil state with their command words.
#[derive(Debug, Clone)]
pub struct FragmentOp {
    pub depth_flags: u32,
    pub depth_commands: [u32; 4],
    pub blend_mode: u32,
    pub blend_color: Vec4,
    pub blend_commands: [u32; 6],
    pub stencil_commands: [u32; 4],
}

/// Whether `r` holds the rasterizer state stored at `p`.
pub open spec fn rasterization_read_from(s: Seq<u8>, p: int, r: Rasterization) -> bool {
    &&& r.is_polygon_offset_enabled == u32_at(s, p)
    &&& r.face_culling == u32_at(s, p + 4)
    &&& r.polygon_offset_unit == u32_at(s, p + 8)
    &&& forall|k: int| 0 <= k < 2 ==> #[trigger] r.face_culling_command@[k] == u32_at(s, p + 12 + 4 * k)
}

impl Rasterization {
    pub fn from_buffer(buf: &[u8], at: usize) -> (r: Result<Rasterization, CgfxError>)
        ensures
            r is Ok <==> fits(buf@, at as int, 20),
            r matches Ok(x) ==> rasterization_read_from(buf@, at as int, x),
    {
        let mut p = at;
        if p > buf.len() || buf.len() - p < 20 {
            return Err(CgfxError::TruncatedInput);
        }
        let is_polygon_offset_enabled = read_u32(buf, &mut p)?;
        let face_culling = read_u32(buf, &mut p)?;
        let polygon_offset_unit = read_u32(buf, &mut p)?;
        let face_culling_command = words_2(buf, at + 12)?;
        Ok(Rasterization { is_polygon_offset_enabled, face_culling, polygon_offset_unit, face_culling_command })
    }
}

/// Whether `f` holds the depth, blend and stencil state stored at `p`.
pub open spec fn fragment_read_from(s: Seq<u8>, p: int, f: FragmentOp) -> bool {
    &&& f.depth_flags == u32_at(s, p)
    &&& forall|k: int| 0 <= k < 4 ==> #[trigger] f.depth_commands@[k] == u32_at(s, p + 4 + 4 * k)
    &&& f.blend_mode == u32_at(s, p + 20)
    &&& f.blend_color == vec4_at(s, p + 24)
    &&& forall|k: int| 0 <= k < 6 ==> #[trigger] f.blend_commands@[k] == u32_at(s, p + 40 + 4 * k)
    &&& forall|k: int| 0 <= k < 4 ==> #[trigger] f.stencil_commands@[k] == u32_at(s, p + 64 + 4 * k)
}

impl FragmentOp {
    pub fn from_buffer(buf: &[u8], at: usize) -> (r: Result<FragmentOp, CgfxError>)
        ensures
            r is Ok <==> fits(buf@, at as int, 80),
            r matches Ok(x) ==> fragment_read_from(buf@, at as int, x),
    {
        let mut p = at;
        if p > buf.len() || buf.len() - p < 80 {
            return Err(CgfxError::TruncatedInput);
        }
        let depth_flags = read_u32(buf, &mut p)?;
        let depth_commands = words_4(buf, at + 4)?;
        let mut q = at + 20;
        let blend_mode = read_u32(buf, &mut q)?;
        let blend_color = Vec4::from_reader(buf, &mut q)?;
        let blend_commands = words_6(buf, at + 40)?;
        let stencil_commands = words_4(buf, at + 64)?;
        Ok(FragmentOp { depth_flags, depth_commands, blend_mode, blend_color, blend_commands, stencil_commands })
    }
}

/// A texture coordinate transform; `rotation` is a float's bit pattern.
#[derive(Debug, Clone, Copy, PartialEq, Eq, Structural)]
pub struct TextureCoord {
    pub source_coord_index: u32,
    pub mapping_type: u32,
    pub reference_camera_index: u32,
    pub transform_type: u32,
    pub scale: Vec2,
    pub rotation: u32,
    pub translation: Vec2,
    pub flags: u32,
    pub transform: Mat3x4,
}

/// The texture coordinate transform stored at `p`.
pub open spec fn texture_coord_at(s: Seq<u8>, p: int) -> TextureCoord {
    TextureCoord {
        source_coord_index: u32_at(s, p) as u32,
        mapping_type: u32_at(s, p + 4) as u32,
        reference_camera_index: u32_at(s, p + 8) as u32,
        transform_type: u32_at(s, p + 12) as u32,
        scale: vec2_at(s, p + 16),
        rotation: u32_at(s, p + 24) as u32,
        translation: vec2_at(s, p + 28),
        flags: u32_at(s, p + 36) as u32,
        transform: mat3x4_at(s, p + 40),
    }
}

impl TextureCoord {
    pub fn from_reader(buf: &[u8], pos: &mut usize) -> (r: Result<TextureCoord, CgfxError>)
        ensures
            r is Ok <==> fits(buf@, *old(pos) as int, 88),
            r matches Ok(c) ==> c == texture_coord_at(buf@, *old(pos) as int) && *final(pos) == *old(pos) + 88,
            r is Err ==> *final(pos) == *old(pos),
    {
        let mut p = *pos;
        if p > buf.len() || buf.len() - p < 88 {
            return Err(CgfxError::TruncatedInput);
        }
        let source_coord_index = read_u32(buf, &mut p)?;
        let mapping_type = read_u32(buf, &mut p)?;
        let reference_camera_index = read_u32(buf, &mut p)?;
        let transform_type = read_u32(buf, &mut p)?;
        let scale = Vec2::from_reader(buf, &mut p)?;
        let rotation = read_u32(buf, &mut p)?;
        let translation = Vec2::from_reader(buf, &mut p)?;
        let flags = read_u32(buf, &mut p)?;
        let transform = Mat3x4::from_reader(buf, &mut p)?;
        *pos = p;
        Ok(
            TextureCoord {
                source_coord_index,
                mapping_type,
                reference_camera_index,
                transform_type,
                scale,
                rotation,
                translation,
                flags,
                transform,
            },
        )
    }
}

/// The tag of a texture reference.
pub const TEXTURE_REFERENCE_MAGIC: u32 = 0x2000_0004;

/// The tag of a texture mapper and of a texture sampler.
pub const MAPPER_MAGIC: u32 = 0x8000_0000;

/// The tag that opens a material.
pub const MATERIAL_MAGIC: u32 = 0x0800_0000;

/// A reference to a texture by path.
#[derive(Debug, Clone)]
pub struct TextureReference {
    pub cgfx_object_header: CgfxObjectHeader,
    pub path: Option<String>,
    pub texture_ptr: u32,
}

/// Whether a texture reference can be read at `q`.
pub open spec fn texture_reference_ok(s: Seq<u8>, q: int) -> bool {
    &&& fits(s, q, 32)
    &&& u32_at(s, q) == TEXTURE_REFERENCE_MAGIC
    &&& object_header_ok(s, q + 4)
    &&& string_ptr_ok(s, q + 24)
}

impl TextureReference {
    pub fn from_buffer(buf: &[u8], at: usize) -> (r: Result<TextureReference, CgfxError>)
        ensures
            r is Ok <==> texture_reference_ok(buf@, at as int),
            r matches Ok(t) ==> object_header_read_from(buf@, at + 4, t.cgfx_object_header)
                && crate::bytes::string_ptr_is(buf@, at + 24, t.path) && t.texture_ptr == u32_at(buf@, at + 28),
    {
        let mut p = at;
        if p > buf.len() || buf.len() - p < 32 {
            return Err(CgfxError::TruncatedInput);
        }
        let magic = read_u32(buf, &mut p)?;
        if magic != TEXTURE_REFERENCE_MAGIC {
            return Err(CgfxError::UnknownDiscriminant { offset: at, tag: magic });
        }
        let cgfx_object_header = CgfxObjectHeader::from_reader(buf, &mut p)?;
        let path = read_string_pointer(buf, &mut p)?;
        let texture_ptr = read_u32(buf, &mut p)?;
        Ok(TextureReference { cgfx_object_header, path, texture_ptr })
    }
}

/// How a texture is sampled.
#[derive(Debug, Clone, Copy, PartialEq, Eq, Structural)]
pub struct TextureSampler {
    pub parent_mapper: Option<Pointer>,
    pub min_filter: u32,
}

/// Whether a texture sampler can be read at `q`.
pub open spec fn texture_sampler_ok(s: Seq<u8>, q: int) -> bool {
    fits(s, q, 12) && u32_at(s, q) == MAPPER_MAGIC
}

impl TextureSampler {
    pub fn from_buffer(buf: &[u8], at: usize) -> (r: Result<TextureSampler, CgfxError>)
        ensures
            r is Ok <==> texture_sampler_ok(buf@, at as int),
            r matches Ok(t) ==> t.parent_mapper == rel_ptr_at(buf@, at + 4) && t.min_filter == u32_at(buf@, at + 8),
    {
        let mut p = at;
        if p > buf.len() || buf.len() - p < 12 {
            return Err(CgfxError::TruncatedInput);
        }
        let magic = read_u32(buf, &mut p)?;
        if magic != MAPPER_MAGIC {
            return Err(CgfxError::UnknownDiscriminant { offset: at, tag: magic });
        }
        let parent_mapper = read_relative_pointer(buf, &mut p)?;
        let min_filter = read_u32(buf, &mut p)?;
        Ok(TextureSampler { parent_mapper, min_filter })
    }
}

/// Binds a texture and a sampler to a material; `commands` holds fourteen
/// command words.
#[derive(Debug, Clone)]
pub struct TextureMapper {
    pub dynamic_alloc: u32,
    pub texture: Option<TextureReference>,
    pub sampler: Option<TextureSampler>,
    pub commands: [u32; 14],
    pub commands_len: u32,
}

/// Whether a texture mapper, and what its pointers designate, can be read at `q`.
pub open spec fn texture_mapper_ok(s: Seq<u8>, q: int) -> bool {
    &&& fits(s, q, 76)
    &&& u32_at(s, q) == MAPPER_MAGIC
    &&& rel_ptr_at(s, q + 8) matches Some(t) ==> texture_reference_ok(s, t.0 as int)
    &&& rel_ptr_at(s, q + 12) matches Some(t) ==> texture_sampler_ok(s, t.0 as int)
}

/// Whether `t` holds what the texture reference at `q` stores.
pub open spec fn texture_reference_read_from(s: Seq<u8>, q: int, t: TextureReference) -> bool {
    &&& object_header_read_from(s, q + 4, t.cgfx_object_header)
    &&& crate::bytes::string_ptr_is(s, q + 24, t.path)
    &&& t.texture_ptr == u32_at(s, q + 28)
}

/// The texture sampler stored at `q`.
pub open spec fn texture_sampler_at(s: Seq<u8>, q: int) -> TextureSampler {
    TextureSampler { parent_mapper: rel_ptr_at(s, q + 4), min_filter: u32_at(s, q + 8) as u32 }
}

/// Whether `m` holds what the texture mapper at `q` stores, with the
/// reference and sampler its pointers designate.
pub open spec fn texture_mapper_read_from(s: Seq<u8>, q: int, m: TextureMapper) -> bool {
    &&& m.dynamic_alloc == u32_at(s, q + 4)
    &&& match rel_ptr_at(s, q + 8) {
        None => m.texture is None,
        Some(t) => m.texture matches Some(x) && texture_reference_read_from(s, t.0 as int, x),
    }
    &&& match rel_ptr_at(s, q + 12) {
        None => m.sampler is None,
        Some(t) => m.sampler == Some(texture_sampler_at(s, t.0 as int)),
    }
    &&& forall|k: int| 0 <= k < 14 ==> #[trigger] m.commands@[k] == u32_at(s, q + 16 + 4 * k)
    &&& m.commands_len == u32_at(s, q + 72)
}

impl TextureMapper {
    pub fn from_buffer(buf: &[u8], at: usize) -> (r: Result<TextureMapper, CgfxError>)
        ensures
            r is Ok <==> texture_mapper_ok(buf@, at as int),
            r matches Ok(m) ==> texture_mapper_read_from(buf@, at as int, m),
    {
        let mut p = at;
        if p > buf.len() || buf.len() - p < 76 {
            return Err(CgfxError::TruncatedInput);
        }
        let magic = read_u32(buf, &mut p)?;
        if magic != MAPPER_MAGIC {
            return Err(CgfxError::UnknownDiscriminant { offset: at, tag: magic });
        }
        let dynamic_alloc = read_u32(buf, &mut p)?;
        let texture = match read_relative_pointer(buf, &mut p)? {
            Some(t) => Some(TextureReference::from_buffer(buf, t.0 as usize)?),
            None => None,
        };
        let sampler = match read_relative_pointer(buf, &mut p)? {
            Some(t) => Some(TextureSampler::from_buffer(buf, t.0 as usize)?),
            None => None,
        };
        let commands = words_14(buf, at + 16)?;
        let mut q = at + 72;
        let commands_len = read_u32(buf, &mut q)?;
        Ok(TextureMapper { dynamic_alloc, texture, sampler, commands, commands_len })
    }
}

#[derive(Debug, Clone)]
pub struct CgfxMaterial {
    pub cgfx_object_header: CgfxObjectHeader,
    pub flags: u32,
    pub tex_coord_config: u32,
    pub render_layer: u32,
    pub colors: MaterialColors,
    pub rasterization: Rasterization,
    pub fragment_operation: FragmentOp,
    pub used_texture_coords_count: u32,
    pub texture_coords: [TextureCoord; 3],
    pub texture_mappers: [Option<TextureMapper>; 3],
}

/// Whether mapper slot `k` of the material at `p` can be read.
pub open spec fn mapper_slot_ok(s: Seq<u8>, p: int, k: int) -> bool {
    rel_ptr_at(s, p + 628 + 4 * k) matches Some(q) ==> texture_mapper_ok(s, q.0 as int)
}

/// Whether a material can be read at `p`.
pub open spec fn material_ok(s: Seq<u8>, p: int) -> bool {
    &&& fits(s, p, 640)
    &&& u32_at(s, p) == MATERIAL_MAGIC
    &&& object_header_ok(s, p + 4)
    &&& forall|k: int| 0 <= k < 3 ==> #[trigger] mapper_slot_ok(s, p, k)
}

/// Whether `m` holds what the material at `p` stores.
pub open spec fn material_read_from(s: Seq<u8>, p: int, m: CgfxMaterial) -> bool {
    &&& object_header_read_from(s, p + 4, m.cgfx_object_header)
    &&& m.flags == u32_at(s, p + 24)
    &&& m.tex_coord_config == u32_at(s, p + 28)
    &&& m.render_layer == u32_at(s, p + 32)
    &&& m.colors == material_colors_at(s, p + 36)
    &&& m.used_texture_coords_count == u32_at(s, p + 360)
    &&& rasterization_read_from(s, p + 260, m.rasterization)
    &&& fragment_read_from(s, p + 280, m.fragment_operation)
    &&& forall|k: int| 0 <= k < 3 ==> #[trigger] m.texture_coords@[k] == texture_coord_at(s, p + 364 + 88 * k)
    &&& forall|k: int| 0 <= k < 3 ==> #[trigger] mapper_slot_read_from(s, p + 628 + 4 * k, m.texture_mappers@[k])
}

/// Whether `m` is what the mapper slot stored at `loc` designates.
pub open spec fn mapper_slot_read_from(s: Seq<u8>, loc: int, m: Option<TextureMapper>) -> bool {
    match rel_ptr_at(s, loc) {
        None => m is None,
        Some(q) => m matches Some(x) && texture_mapper_read_from(s, q.0 as int, x),
    }
}

/// Reads the mapper slot at `loc`: null, or a relative pointer to a mapper.
fn read_mapper_slot(buf: &[u8], loc: usize) -> (r: Result<Option<TextureMapper>, CgfxError>)
    ensures
        r is Ok <==> fits(buf@, loc as int, 4) && (rel_ptr_at(buf@, loc as int) matches Some(q)
            ==> texture_mapper_ok(buf@, q.0 as int)),
        r matches Ok(m) ==> mapper_slot_read_from(buf@, loc as int, m),
{
    let mut q = loc;
    match read_relative_pointer(buf, &mut q)? {
        Some(t) => Ok(Some(TextureMapper::from_buffer(buf, t.0 as usize)?)),
        None => Ok(None),
    }
}

/// Reads the three texture coordinate transforms stored from `at`.
fn read_texture_coords(buf: &[u8], at: usize) -> (r: Result<[TextureCoord; 3], CgfxError>)
    ensures
        r is Ok <==> fits(buf@, at as int, 264),
        r matches Ok(c) ==> forall|k: int| 0 <= k < 3 ==> #[trigger] c@[k] == texture_coord_at(buf@, at + 88 * k),
{
    if at > buf.len() || buf.len() - at < 264 {
        return Err(CgfxError::TruncatedInput);
    }
    let mut q = at;
    let c0 = TextureCoord::from_reader(buf, &mut q)?;
    let c1 = TextureCoord::from_reader(buf, &mut q)?;
    let c2 = TextureCoord::from_reader(buf, &mut q)?;
    let c: [TextureCoord; 3] = [c0, c1, c2];
    assert forall|k: int| 0 <= k < 3 implies #[trigger] c@[k] == texture_coord_at(buf@, at + 88 * k) by {
        if k == 0 {
        } else if k == 1 {
        } else {
        }
    }
    Ok(c)
}

/// Reads the three mapper slots of the material at `at`.
fn read_mappers(buf: &[u8], at: usize) -> (r: Result<[Option<TextureMapper>; 3], CgfxError>)
    requires
        fits(buf@, at as int, 640),
    ensures
        r is Ok <==> forall|k: int| 0 <= k < 3 ==> #[trigger] mapper_slot_ok(buf@, at as int, k),
        r matches Ok(m) ==> forall|k: int| 0 <= k < 3 ==> #[trigger] mapper_slot_read_from(buf@, at + 628 + 4 * k, m@[k]),
{
    let _len = buf.len();
    let m0 = match read_mapper_slot(buf, at + 628) {
        Ok(m) => m,
        Err(e) => {
            assert(!mapper_slot_ok(buf@, at as int, 0));
            return Err(e);
        },
    };
    let m1 = match read_mapper_slot(buf, at + 632) {
        Ok(m) => m,
        Err(e) => {
            assert(!mapper_slot_ok(buf@, at as int, 1));
            return Err(e);
        },
    };
    let m2 = match read_mapper_slot(buf, at + 636) {
        Ok(m) => m,
        Err(e) => {
            assert(!mapper_slot_ok(buf@, at as int, 2));
            return Err(e);
        },
    };
    let m: [Option<TextureMapper>; 3] = [m0, m1, m2];
    assert forall|k: int| 0 <= k < 3 implies #[trigger] mapper_slot_ok(buf@, at as int, k) by {
        if k == 0 {
        } else if k == 1 {
        } else {
        }
    }
    assert forall|k: int| 0 <= k < 3 implies #[trigger] mapper_slot_read_from(buf@, at + 628 + 4 * k, m@[k]) by {
        if k == 0 {
        } else if k == 1 {
        } else {
        }
    }
    Ok(m)
}

impl CgfxMaterial {
    pub fn from_reader(buf: &[u8], at: usize) -> (r: Result<CgfxMaterial, CgfxError>)
        ensures
            r is Ok <==> material_ok(buf@, at as int),
            r matches Ok(m) ==> material_read_from(buf@, at as int, m),
            fits(buf@, at as int, 640) && u32_at(buf@, at as int) != MATERIAL_MAGIC ==> r == Err::<
                CgfxMaterial,
                CgfxError,
            >(CgfxError::UnknownDiscriminant { offset: at, tag: u32_at(buf@, at as int) as u32 }),
    {
        let mut p = at;
        if p > buf.len() || buf.len() - p < 640 {
            return Err(CgfxError::TruncatedInput);
        }
        let magic = read_u32(buf, &mut p)?;
        if magic != MATERIAL_MAGIC {
            return Err(CgfxError::UnknownDiscriminant { offset: at, tag: magic });
        }
        let cgfx_object_header = CgfxObjectHeader::from_reader(buf, &mut p)?;
        let flags = read_u32(buf, &mut p)?;
        let tex_coord_config = read_u32(buf, &mut p)?;
        let render_layer = read_u32(buf, &mut p)?;
        let colors = MaterialColors::from_reader(buf, &mut p)?;
        let rasterization = Rasterization::from_buffer(buf, at + 260)?;
        let fragment_operation = FragmentOp::from_buffer(buf, at + 280)?;
        let mut q = at + 360;
        let used_texture_coords_count = read_u32(buf, &mut q)?;
        let texture_coords = read_texture_coords(buf, at + 364)?;
        let texture_mappers = match read_mappers(buf, at) {
            Ok(m) => m,
            Err(e) => {
                return Err(e);
            },
        };
        Ok(
            CgfxMaterial {
                cgfx_object_header,
                flags,
                tex_coord_config,
                render_layer,
                colors,
                rasterization,
                fragment_operation,
                used_texture_coords_count,
                texture_coords,
                texture_mappers,
            },
        )
    }
}

impl CgfxCollectionValue for CgfxMaterial {
    open spec fn image_bytes_of(&self) -> Seq<u8> {
        Seq::empty()
    }

    open spec fn value_writable(&self) -> bool {
        false
    }

    open spec fn value_bytes(&self) -> Seq<u8> {
        Seq::empty()
    }

    open spec fn value_ok(buf: Seq<u8>, at: int) -> bool {
        material_ok(buf, at)
    }

    open spec fn value_read_from(buf: Seq<u8>, at: int, v: CgfxMaterial) -> bool {
        material_read_from(buf, at, v)
    }

    open spec fn value_error(buf: Seq<u8>, at: int) -> Option<CgfxError> {
        if fits(buf, at, 640) && u32_at(buf, at) != MATERIAL_MAGIC {
            Some(CgfxError::UnknownDiscriminant { offset: at as usize, tag: u32_at(buf, at) as u32 })
        } else {
            None
        }
    }

    fn read_dict_value(buf: &[u8], at: usize) -> (r: Result<CgfxMaterial, CgfxError>) {
        CgfxMaterial::from_reader(buf, at)
    }

    /// Writing materials is not implemented.
    fn write_dict_value(&self, out: &mut Vec<u8>, ctx: &mut WriteContext) -> (r: Result<(), CgfxError>) {
        proof {
            crate::bytes::lemma_extends_refl(out@);
        }
        Err(CgfxError::Unsupported)
    }
}

} // verus!
