//! Meshes, shapes and their geometry: sub-meshes, faces with index data, and
//! vertex buffers.
use vstd::prelude::*;
use crate::bytes::{fits, read_relative_pointer, read_u8, read_u32, rel_ptr_at, u32_at};
use crate::dict::CgfxCollectionValue;
use crate::error::CgfxError;
use crate::lists::{
    inline_words_read_from, inline_list_bytes, inline_list_ok, pointer_list_ok, pointer_list_targets, read_inline_bytes,
    read_inline_words, read_pointer_list, read_pointer_list_targets, targets_ok, values_read_from,
};
use crate::math::{Mat3, Vec3, is_float_zero, mat3_at, vec3_at};
use crate::pointer::Pointer;
use crate::records::{CgfxObjectHeader, object_header_ok, object_header_read_from};

verus! {

/// The vertex attribute a buffer holds.
#[derive(Debug, Clone, Copy, PartialEq, Eq, Structural)]
pub enum AttributeName {
    Position,
    Normal,
    Tangent,
    Color,
    TexCoord0,
    TexCoord1,
    TexCoord2,
    BoneIndex,
    BoneWeight,
    UserAttribute0,
    UserAttribute1,
    UserAttribute2,
    UserAttribute3,
    UserAttribute4,
    UserAttribute5,
    UserAttribute6,
    UserAttribute7,
    UserAttribute8,
    UserAttribute9,
    UserAttribute10,
    UserAttribute11,
    Interleave,
}

/// The stored code of each variant.
pub open spec fn attribute_name_code(v: AttributeName) -> u32 {
    match v {
        AttributeName::Position => 0,
        AttributeName::Normal => 1,
        AttributeName::Tangent => 2,
        AttributeName::Color => 3,
        AttributeName::TexCoord0 => 4,
        AttributeName::TexCoord1 => 5,
        AttributeName::TexCoord2 => 6,
        AttributeName::BoneIndex => 7,
        AttributeName::BoneWeight => 8,
        AttributeName::UserAttribute0 => 9,
        AttributeName::UserAttribute1 => 10,
        AttributeName::UserAttribute2 => 11,
        AttributeName::UserAttribute3 => 12,
        AttributeName::UserAttribute4 => 13,
        AttributeName::UserAttribute5 => 14,
        AttributeName::UserAttribute6 => 15,
        AttributeName::UserAttribute7 => 16,
        AttributeName::UserAttribute8 => 17,
        AttributeName::UserAttribute9 => 18,
        AttributeName::UserAttribute10 => 19,
        AttributeName::UserAttribute11 => 20,
        AttributeName::Interleave => 21,
    }
}

/// The variant with stored code `c`, if there is one.
pub open spec fn attribute_name_of_code(c: u32) -> Option<AttributeName> {
    if c == 0 {
        Some(AttributeName::Position)
    } else if c == 1 {
        Some(AttributeName::Normal)
    } else if c == 2 {
        Some(AttributeName::Tangent)
    } else if c == 3 {
        Some(AttributeName::Color)
    } else if c == 4 {
        Some(AttributeName::TexCoord0)
    } else if c == 5 {
        Some(AttributeName::TexCoord1)
    } else if c == 6 {
        Some(AttributeName::TexCoord2)
    } else if c == 7 {
        Some(AttributeName::BoneIndex)
    } else if c == 8 {
        Some(AttributeName::BoneWeight)
    } else if c == 9 {
        Some(AttributeName::UserAttribute0)
    } else if c == 10 {
        Some(AttributeName::UserAttribute1)
    } else if c == 11 {
        Some(AttributeName::UserAttribute2)
    } else if c == 12 {
        Some(AttributeName::UserAttribute3)
    } else if c == 13 {
        Some(AttributeName::UserAttribute4)
    } else if c == 14 {
        Some(AttributeName::UserAttribute5)
    } else if c == 15 {
        Some(AttributeName::UserAttribute6)
    } else if c == 16 {
        Some(AttributeName::UserAttribute7)
    } else if c == 17 {
        Some(AttributeName::UserAttribute8)
    } else if c == 18 {
        Some(AttributeName::UserAttribute9)
    } else if c == 19 {
        Some(AttributeName::UserAttribute10)
    } else if c == 20 {
        Some(AttributeName::UserAttribute11)
    } else if c == 21 {
        Some(AttributeName::Interleave)
    } else {
        None
    }
}

impl AttributeName {
    pub fn from_code(c: u32) -> (r: Option<AttributeName>)
        ensures
            r == attribute_name_of_code(c),
    {
        if c == 0 {
            Some(AttributeName::Position)
        } else if c == 1 {
            Some(AttributeName::Normal)
        } else if c == 2 {
            Some(AttributeName::Tangent)
        } else if c == 3 {
            Some(AttributeName::Color)
        } else if c == 4 {
            Some(AttributeName::TexCoord0)
        } else if c == 5 {
            Some(AttributeName::TexCoord1)
        } else if c == 6 {
            Some(AttributeName::TexCoord2)
        } else if c == 7 {
            Some(AttributeName::BoneIndex)
        } else if c == 8 {
            Some(AttributeName::BoneWeight)
        } else if c == 9 {
            Some(AttributeName::UserAttribute0)
        } else if c == 10 {
            Some(AttributeName::UserAttribute1)
        } else if c == 11 {
            Some(AttributeName::UserAttribute2)
        } else if c == 12 {
            Some(AttributeName::UserAttribute3)
        } else if c == 13 {
            Some(AttributeName::UserAttribute4)
        } else if c == 14 {
            Some(AttributeName::UserAttribute5)
        } else if c == 15 {
            Some(AttributeName::UserAttribute6)
        } else if c == 16 {
            Some(AttributeName::UserAttribute7)
        } else if c == 17 {
            Some(AttributeName::UserAttribute8)
        } else if c == 18 {
            Some(AttributeName::UserAttribute9)
        } else if c == 19 {
            Some(AttributeName::UserAttribute10)
        } else if c == 20 {
            Some(AttributeName::UserAttribute11)
        } else if c == 21 {
            Some(AttributeName::Interleave)
        } else {
            None
        }
    }

    pub fn code(&self) -> (r: u32)
        ensures
            r == attribute_name_code(*self),
            attribute_name_of_code(r) == Some(*self),
    {
        match self {
            AttributeName::Position => 0,
            AttributeName::Normal => 1,
            AttributeName::Tangent => 2,
            AttributeName::Color => 3,
            AttributeName::TexCoord0 => 4,
            AttributeName::TexCoord1 => 5,
            AttributeName::TexCoord2 => 6,
            AttributeName::BoneIndex => 7,
            AttributeName::BoneWeight => 8,
            AttributeName::UserAttribute0 => 9,
            AttributeName::UserAttribute1 => 10,
            AttributeName::UserAttribute2 => 11,
            AttributeName::UserAttribute3 => 12,
            AttributeName::UserAttribute4 => 13,
            AttributeName::UserAttribute5 => 14,
            AttributeName::UserAttribute6 => 15,
            AttributeName::UserAttribute7 => 16,
            AttributeName::UserAttribute8 => 17,
            AttributeName::UserAttribute9 => 18,
            AttributeName::UserAttribute10 => 19,
            AttributeName::UserAttribute11 => 20,
            AttributeName::Interleave => 21,
        }
    }
}
/// Element types of vertex and index data.
#[derive(Debug, Clone, Copy, PartialEq, Eq, Structural)]
pub enum GlDataType {
    Byte,
    UByte,
    Short,
    UShort,
    Float,
    Fixed,
}

/// The stored code of each variant.
pub open spec fn gl_data_type_code(v: GlDataType) -> u32 {
    match v {
        GlDataType::Byte => 0x1400,
        GlDataType::UByte => 0x1401,
        GlDataType::Short => 0x1402,
        GlDataType::UShort => 0x1403,
        GlDataType::Float => 0x1406,
        GlDataType::Fixed => 0x140C,
    }
}

/// The variant with stored code `c`, if there is one.
pub open spec fn gl_data_type_of_code(c: u32) -> Option<GlDataType> {
    if c == 0x1400 {
        Some(GlDataType::Byte)
    } else if c == 0x1401 {
        Some(GlDataType::UByte)
    } else if c == 0x1402 {
        Some(GlDataType::Short)
    } else if c == 0x1403 {
        Some(GlDataType::UShort)
    } else if c == 0x1406 {
        Some(GlDataType::Float)
    } else if c == 0x140C {
        Some(GlDataType::Fixed)
    } else {
        None
    }
}

impl GlDataType {
    pub fn from_code(c: u32) -> (r: Option<GlDataType>)
        ensures
            r == gl_data_type_of_code(c),
    {
        if c == 0x1400 {
            Some(GlDataType::Byte)
        } else if c == 0x1401 {
            Some(GlDataType::UByte)
        } else if c == 0x1402 {
            Some(GlDataType::Short)
        } else if c == 0x1403 {
            Some(GlDataType::UShort)
        } else if c == 0x1406 {
            Some(GlDataType::Float)
        } else if c == 0x140C {
            Some(GlDataType::Fixed)
        } else {
            None
        }
    }

    pub fn code(&self) -> (r: u32)
        ensures
            r == gl_data_type_code(*self),
            gl_data_type_of_code(r) == Some(*self),
    {
        match self {
            GlDataType::Byte => 0x1400,
            GlDataType::UByte => 0x1401,
            GlDataType::Short => 0x1402,
            GlDataType::UShort => 0x1403,
            GlDataType::Float => 0x1406,
            GlDataType::Fixed => 0x140C,
        }
    }
}
/// How a vertex buffer stores its data.
#[derive(Debug, Clone, Copy, PartialEq, Eq, Structural)]
pub enum VertexBufferType {
    Untyped,
    Fixed,
    Interleaved,
}

/// The stored code of each variant.
pub open spec fn vertex_buffer_type_code(v: VertexBufferType) -> u32 {
    match v {
        VertexBufferType::Untyped => 0,
        VertexBufferType::Fixed => 1,
        VertexBufferType::Interleaved => 2,
    }
}

/// The variant with stored code `c`, if there is one.
pub open spec fn vertex_buffer_type_of_code(c: u32) -> Option<VertexBufferType> {
    if c == 0 {
        Some(VertexBufferType::Untyped)
    } else if c == 1 {
        Some(VertexBufferType::Fixed)
    } else if c == 2 {
        Some(VertexBufferType::Interleaved)
    } else {
        None
    }
}

impl VertexBufferType {
    pub fn from_code(c: u32) -> (r: Option<VertexBufferType>)
        ensures
            r == vertex_buffer_type_of_code(c),
    {
        if c == 0 {
            Some(VertexBufferType::Untyped)
        } else if c == 1 {
            Some(VertexBufferType::Fixed)
        } else if c == 2 {
            Some(VertexBufferType::Interleaved)
        } else {
            None
        }
    }

    pub fn code(&self) -> (r: u32)
        ensures
            r == vertex_buffer_type_code(*self),
            vertex_buffer_type_of_code(r) == Some(*self),
    {
        match self {
            VertexBufferType::Untyped => 0,
            VertexBufferType::Fixed => 1,
            VertexBufferType::Interleaved => 2,
        }
    }
}
/// How a sub-mesh is bound to bones.
#[derive(Debug, Clone, Copy, PartialEq, Eq, Structural)]
pub enum SubMeshSkinning {
    Unskinned,
    Rigid,
    Smooth,
}

/// The stored code of each variant.
pub open spec fn sub_mesh_skinning_code(v: SubMeshSkinning) -> u32 {
    match v {
        SubMeshSkinning::Unskinned => 0,
        SubMeshSkinning::Rigid => 1,
        SubMeshSkinning::Smooth => 2,
    }
}

/// The variant with stored code `c`, if there is one.
pub open spec fn sub_mesh_skinning_of_code(c: u32) -> Option<SubMeshSkinning> {
    if c == 0 {
        Some(SubMeshSkinning::Unskinned)
    } else if c == 1 {
        Some(SubMeshSkinning::Rigid)
    } else if c == 2 {
        Some(SubMeshSkinning::Smooth)
    } else {
        None
    }
}

impl SubMeshSkinning {
    pub fn from_code(c: u32) -> (r: Option<SubMeshSkinning>)
        ensures
            r == sub_mesh_skinning_of_code(c),
    {
        if c == 0 {
            Some(SubMeshSkinning::Unskinned)
        } else if c == 1 {
            Some(SubMeshSkinning::Rigid)
        } else if c == 2 {
            Some(SubMeshSkinning::Smooth)
        } else {
            None
        }
    }

    pub fn code(&self) -> (r: u32)
        ensures
            r == sub_mesh_skinning_code(*self),
            sub_mesh_skinning_of_code(r) == Some(*self),
    {
        match self {
            SubMeshSkinning::Unskinned => 0,
            SubMeshSkinning::Rigid => 1,
            SubMeshSkinning::Smooth => 2,
        }
    }
}

/// The size in bytes of one element of each data type; `Fixed` has none.
pub open spec fn gl_byte_size(t: GlDataType) -> u32 {
    match t {
        GlDataType::Byte => 1,
        GlDataType::UByte => 1,
        GlDataType::Short => 2,
        GlDataType::UShort => 2,
        GlDataType::Float => 4,
        GlDataType::Fixed => 0,
    }
}

impl GlDataType {
    /// The size in bytes of one element; not defined for `Fixed`.
    pub fn byte_size(self) -> (r: u32)
        requires
            self != GlDataType::Fixed,
        ensures
            r == gl_byte_size(self),
    {
        match self {
            GlDataType::Byte => 1,
            GlDataType::UByte => 1,
            GlDataType::Short => 2,
            GlDataType::UShort => 2,
            GlDataType::Float => 4,
            GlDataType::Fixed => 0,
        }
    }
}

/// The index size of an index format: one or two bytes, else none.
pub open spec fn index_size(t: GlDataType) -> int {
    match t {
        GlDataType::Byte => 1,
        GlDataType::UByte => 1,
        GlDataType::Short => 2,
        GlDataType::UShort => 2,
        _ => 0,
    }
}

/// The indices that raw index bytes stand for: each byte widened, or each
/// little-endian pair of bytes.
pub open spec fn widened(t: GlDataType, raw: Seq<u8>) -> Seq<u16> {
    if index_size(t) == 1 {
        Seq::new(raw.len(), |k: int| raw[k] as u16)
    } else {
        Seq::new(raw.len() / 2, |k: int| (raw[2 * k] + 256 * raw[2 * k + 1]) as u16)
    }
}

/// Whether raw index bytes can be read in format `t`: there are none, or the
/// format has a one- or two-byte index size and the bytes fill whole indices.
pub open spec fn indices_ok(t: GlDataType, raw: Seq<u8>) -> bool {
    raw.len() == 0 || index_size(t) == 1 || (index_size(t) == 2 && raw.len() % 2 == 0)
}

/// Turns raw index bytes into 16-bit indices: one-byte formats are widened,
/// two-byte formats are read as little-endian pairs. Other formats, and an
/// odd number of bytes in a two-byte format, are invalid values.
pub fn widen_indices(format: GlDataType, raw: &Vec<u8>) -> (r: Result<Vec<u16>, CgfxError>)
    ensures
        r is Ok <==> indices_ok(format, raw@),
        r matches Ok(v) ==> v@ == (if raw@.len() == 0 { Seq::empty() } else { widened(format, raw@) }),
        r is Err ==> r == Err::<Vec<u16>, CgfxError>(CgfxError::InvalidValue),
{
    let mut out: Vec<u16> = Vec::new();
    if raw.len() == 0 {
        assert(out@ =~= Seq::<u16>::empty());
        return Ok(out);
    }
    match format {
        GlDataType::Byte | GlDataType::UByte => {
            let mut k: usize = 0;
            while k < raw.len()
                invariant
                    k <= raw@.len(),
                    out@ == Seq::new(k as nat, |i: int| raw@[i] as u16),
                decreases raw@.len() - k,
            {
                out.push(raw[k] as u16);
                k = k + 1;
                assert(out@ =~= Seq::new(k as nat, |i: int| raw@[i] as u16));
            }
            assert(out@ =~= widened(format, raw@));
            Ok(out)
        },
        GlDataType::Short | GlDataType::UShort => {
            if raw.len() % 2 != 0 {
                return Err(CgfxError::InvalidValue);
            }
            let n = raw.len() / 2;
            let rl = raw.len();
            let mut k: usize = 0;
            while k < n
                invariant
                    rl == raw@.len(),
                    k <= n,
                    n == raw@.len() / 2,
                    out@ == Seq::new(k as nat, |i: int| (raw@[2 * i] + 256 * raw@[2 * i + 1]) as u16),
                decreases n - k,
            {
                let lo = raw[2 * k] as u32;
                let hi = raw[2 * k + 1] as u32;
                assert(lo + 256 * hi < 65536) by (nonlinear_arith)
                    requires
                        lo < 256,
                        hi < 256,
                ;
                let v: u16 = (lo + hi * 256) as u16;
                out.push(v);
                k = k + 1;
                assert(out@ =~= Seq::new(k as nat, |i: int| (raw@[2 * i] + 256 * raw@[2 * i + 1]) as u16));
            }
            assert(out@ =~= widened(format, raw@));
            Ok(out)
        },
        _ => Err(CgfxError::InvalidValue),
    }
}

/// One run of indices of a face, with its format and draw mode.
#[derive(Debug, Clone)]
pub struct FaceDescriptor {
    pub format: GlDataType,
    pub primitive_mode: u8,
    pub visible: u8,
    pub indices: Vec<u16>,
    pub bounding_volume: u32,
}

/// Whether a face descriptor can be read at `p`.
pub open spec fn face_descriptor_ok(s: Seq<u8>, p: int) -> bool {
    &&& fits(s, p, 44)
    &&& gl_data_type_of_code(u32_at(s, p) as u32) matches Some(f) && index_size(f) != 0
        && indices_ok(f, inline_list_bytes(s, p + 8, 1))
    &&& inline_list_ok(s, p + 8, 1)
}

/// Whether `d` holds what the face descriptor at `p` stores.
pub open spec fn face_descriptor_read_from(s: Seq<u8>, p: int, d: FaceDescriptor) -> bool {
    &&& gl_data_type_of_code(u32_at(s, p) as u32) == Some(d.format)
    &&& d.primitive_mode == s[p + 4]
    &&& d.visible == s[p + 5]
    &&& d.indices@ == (if inline_list_bytes(s, p + 8, 1).len() == 0 {
        Seq::empty()
    } else {
        widened(d.format, inline_list_bytes(s, p + 8, 1))
    })
    &&& d.bounding_volume == u32_at(s, p + 40)
}

impl FaceDescriptor {
    pub fn from_reader(buf: &[u8], at: usize) -> (r: Result<FaceDescriptor, CgfxError>)
        ensures
            r is Ok <==> face_descriptor_ok(buf@, at as int),
            r matches Ok(d) ==> face_descriptor_read_from(buf@, at as int, d),
            fits(buf@, at as int, 44) && gl_data_type_of_code(u32_at(buf@, at as int) as u32) is Some
                && index_size(gl_data_type_of_code(u32_at(buf@, at as int) as u32)->Some_0) == 0 ==> r
                == Err::<FaceDescriptor, CgfxError>(CgfxError::InvalidValue),
            fits(buf@, at as int, 44) && gl_data_type_of_code(u32_at(buf@, at as int) as u32) is Some
                && index_size(gl_data_type_of_code(u32_at(buf@, at as int) as u32)->Some_0) == 2
                && inline_list_ok(buf@, at + 8, 1) && inline_list_bytes(buf@, at + 8, 1).len() % 2 == 1 ==> r
                == Err::<FaceDescriptor, CgfxError>(CgfxError::InvalidValue),
    {
        let mut p = at;
        if p > buf.len() || buf.len() - p < 44 {
            return Err(CgfxError::TruncatedInput);
        }
        let code = read_u32(buf, &mut p)?;
        let format = match GlDataType::from_code(code) {
            Some(f) => f,
            None => {
                return Err(CgfxError::InvalidValue);
            },
        };
        match format {
            GlDataType::Byte | GlDataType::UByte | GlDataType::Short | GlDataType::UShort => {},
            _ => {
                return Err(CgfxError::InvalidValue);
            },
        }
        let primitive_mode = read_u8(buf, &mut p)?;
        let visible = read_u8(buf, &mut p)?;
        p = p + 2;
        let raw = read_inline_bytes(buf, &mut p)?;
        let indices = widen_indices(format, &raw)?;
        let mut q = at + 40;
        let bounding_volume = read_u32(buf, &mut q)?;
        Ok(FaceDescriptor { format, primitive_mode, visible, indices, bounding_volume })
    }

    /// Writing face descriptors is not implemented.
    pub fn to_writer(&self, out: &mut Vec<u8>) -> (r: Result<(), CgfxError>)
        ensures
            r == Err::<(), CgfxError>(CgfxError::Unsupported),
            final(out)@ == old(out)@,
    {
        Err(CgfxError::Unsupported)
    }
}

impl CgfxCollectionValue for FaceDescriptor {
    open spec fn image_bytes_of(&self) -> Seq<u8> {
        Seq::empty()
    }

    open spec fn value_writable(&self) -> bool {
        false
    }

    open spec fn value_bytes(&self) -> Seq<u8> {
        Seq::empty()
    }

    open spec fn value_ok(buf: Seq<u8>, at: int) -> bool {
        face_descriptor_ok(buf, at)
    }

    open spec fn value_read_from(buf: Seq<u8>, at: int, v: FaceDescriptor) -> bool {
        face_descriptor_read_from(buf, at, v)
    }

    open spec fn value_error(buf: Seq<u8>, at: int) -> Option<CgfxError> {
        None
    }

    fn read_dict_value(buf: &[u8], at: usize) -> (r: Result<FaceDescriptor, CgfxError>) {
        Self::from_reader(buf, at)
    }

    fn write_dict_value(&self, out: &mut Vec<u8>, ctx: &mut crate::context::WriteContext) -> (r: Result<(), CgfxError>) {
        proof {
            crate::bytes::lemma_extends_refl(out@);
        }
        Err(CgfxError::Unsupported)
    }
}

/// One face: runs of indices and the buffer objects they draw from.
#[derive(Debug, Clone)]
pub struct Face {
    pub face_descriptors: Vec<FaceDescriptor>,
    pub buffer_objs: Vec<u32>,
    pub flags: u32,
    pub command_alloc: u32,
}

/// Whether a face can be read at `p`.
pub open spec fn face_ok(s: Seq<u8>, p: int) -> bool {
    &&& fits(s, p, 24)
    &&& pointer_list_ok(s, p)
    &&& targets_ok::<FaceDescriptor>(s, pointer_list_targets(s, p), 0)
    &&& inline_list_ok(s, p + 8, 4)
}

/// Whether `f` holds what the face at `p` stores.
pub open spec fn face_read_from(s: Seq<u8>, p: int, f: Face) -> bool {
    &&& values_read_from(s, pointer_list_targets(s, p), 0, f.face_descriptors@)
    &&& inline_words_read_from(s, p + 8, f.buffer_objs@)
    &&& f.flags == u32_at(s, p + 16)
    &&& f.command_alloc == u32_at(s, p + 20)
}

impl Face {
    pub fn from_reader(buf: &[u8], at: usize) -> (r: Result<Face, CgfxError>)
        ensures
            r is Ok <==> face_ok(buf@, at as int),
            r matches Ok(f) ==> face_read_from(buf@, at as int, f),
    {
        let mut p = at;
        if p > buf.len() || buf.len() - p < 24 {
            return Err(CgfxError::TruncatedInput);
        }
        let face_descriptors = read_pointer_list::<FaceDescriptor>(buf, &mut p)?;
        let buffer_objs = read_inline_words(buf, &mut p)?;
        let flags = read_u32(buf, &mut p)?;
        let command_alloc = read_u32(buf, &mut p)?;
        Ok(Face { face_descriptors, buffer_objs, flags, command_alloc })
    }

    /// Writing faces is not implemented.
    pub fn to_writer(&self, out: &mut Vec<u8>) -> (r: Result<(), CgfxError>)
        ensures
            r == Err::<(), CgfxError>(CgfxError::Unsupported),
            final(out)@ == old(out)@,
    {
        Err(CgfxError::Unsupported)
    }
}

/// Whether faces can be read at every target.
pub open spec fn faces_ok(s: Seq<u8>, t: Seq<Pointer>) -> bool {
    forall|j: int| 0 <= j < t.len() ==> #[trigger] face_ok(s, t[j].0 as int)
}

/// Reads a face at each target.
fn read_faces(buf: &[u8], targets: &Vec<Pointer>) -> (r: Result<Vec<Face>, CgfxError>)
    ensures
        r is Ok <==> faces_ok(buf@, targets@),
        r matches Ok(v) ==> v@.len() == targets@.len() && forall|j: int|
            0 <= j < targets@.len() ==> #[trigger] face_read_from(buf@, targets@[j].0 as int, v@[j]),
{
    let mut values: Vec<Face> = Vec::new();
    let mut j: usize = 0;
    while j < targets.len()
        invariant
            j <= targets@.len(),
            values@.len() == j,
            forall|i: int| 0 <= i < j ==> #[trigger] face_ok(buf@, targets@[i].0 as int),
            forall|i: int| 0 <= i < j ==> #[trigger] face_read_from(buf@, targets@[i].0 as int, values@[i]),
        decreases targets@.len() - j,
    {
        let v = match Face::from_reader(buf, targets[j].0 as usize) {
            Ok(v) => v,
            Err(e) => {
                assert(!face_ok(buf@, targets@[j as int].0 as int));
                return Err(e);
            },
        };
        values.push(v);
        j = j + 1;
    }
    Ok(values)
}

/// Reads `n` consecutive 32-bit integers at `at`.
pub fn read_words_at(buf: &[u8], at: usize, n: usize) -> (r: Result<Vec<u32>, CgfxError>)
    ensures
        r is Ok <==> fits(buf@, at as int, 4 * n),
        r matches Ok(v) ==> v@.len() == n && forall|k: int| 0 <= k < n ==> #[trigger] v@[k] == u32_at(buf@, at + 4 * k),
{
    if at > buf.len() || (buf.len() - at) / 4 < n {
        return Err(CgfxError::TruncatedInput);
    }
    let blen = buf.len();
    let mut words: Vec<u32> = Vec::new();
    let mut k: usize = 0;
    while k < n
        invariant
            blen == buf@.len(),
            k <= n,
            at + 4 * n <= buf@.len(),
            words@.len() == k,
            forall|i: int| 0 <= i < k ==> #[trigger] words@[i] == u32_at(buf@, at + 4 * i),
        decreases n - k,
    {
        let mut q = at + 4 * k;
        let w = read_u32(buf, &mut q)?;
        words.push(w);
        k = k + 1;
    }
    Ok(words)
}

/// A part of a shape with one skinning mode and its faces.
#[derive(Debug, Clone)]
pub struct SubMesh {
    pub bone_indices: Vec<u32>,
    pub skinning: SubMeshSkinning,
    pub faces: Vec<Face>,
}

/// Whether a sub-mesh can be read at `p`.
pub open spec fn sub_mesh_ok(s: Seq<u8>, p: int) -> bool {
    &&& fits(s, p, 20)
    &&& rel_ptr_at(s, p + 4) matches Some(b) ==> fits(s, b.0 as int, 4 * u32_at(s, p))
    &&& sub_mesh_skinning_of_code(u32_at(s, p + 8) as u32) is Some
    &&& pointer_list_ok(s, p + 12)
    &&& faces_ok(s, pointer_list_targets(s, p + 12))
}

/// Whether `m` holds what the sub-mesh at `p` stores.
pub open spec fn sub_mesh_read_from(s: Seq<u8>, p: int, m: SubMesh) -> bool {
    &&& rel_ptr_at(s, p + 4) is None ==> m.bone_indices@.len() == 0
    &&& rel_ptr_at(s, p + 4) matches Some(b) ==> m.bone_indices@.len() == u32_at(s, p) && forall|k: int|
        0 <= k < m.bone_indices@.len() ==> #[trigger] m.bone_indices@[k] == u32_at(s, b.0 + 4 * k)
    &&& sub_mesh_skinning_of_code(u32_at(s, p + 8) as u32) == Some(m.skinning)
    &&& m.faces@.len() == pointer_list_targets(s, p + 12).len()
    &&& forall|j: int|
        0 <= j < m.faces@.len() ==> #[trigger] face_read_from(
            s,
            pointer_list_targets(s, p + 12)[j].0 as int,
            m.faces@[j],
        )
}

impl SubMesh {
    pub fn from_reader(buf: &[u8], at: usize) -> (r: Result<SubMesh, CgfxError>)
        ensures
            r is Ok <==> sub_mesh_ok(buf@, at as int),
            r matches Ok(m) ==> sub_mesh_read_from(buf@, at as int, m),
    {
        let mut p = at;
        if p > buf.len() || buf.len() - p < 20 {
            return Err(CgfxError::TruncatedInput);
        }
        let bone_index_count = read_u32(buf, &mut p)?;
        let bone_index_pointer = read_relative_pointer(buf, &mut p)?;
        let bone_indices = match bone_index_pointer {
            Some(b) => read_words_at(buf, b.0 as usize, bone_index_count as usize)?,
            None => Vec::new(),
        };
        let code = read_u32(buf, &mut p)?;
        let skinning = match SubMeshSkinning::from_code(code) {
            Some(k) => k,
            None => {
                return Err(CgfxError::InvalidValue);
            },
        };
        let targets = read_pointer_list_targets(buf, &mut p)?;
        let faces = read_faces(buf, &targets)?;
        let m = SubMesh { bone_indices, skinning, faces };
        assert(rel_ptr_at(buf@, at + 4) is None ==> m.bone_indices@.len() == 0);
        assert(rel_ptr_at(buf@, at + 4) is Some ==> m.bone_indices@.len() == u32_at(buf@, at as int));
        assert(sub_mesh_skinning_of_code(u32_at(buf@, at + 8) as u32) == Some(m.skinning));
        assert(m.faces@.len() == pointer_list_targets(buf@, at + 12).len());
        Ok(m)
    }

    /// Writing sub-meshes is not implemented.
    pub fn to_writer(&self, out: &mut Vec<u8>) -> (r: Result<(), CgfxError>)
        ensures
            r == Err::<(), CgfxError>(CgfxError::Unsupported),
            final(out)@ == old(out)@,
    {
        Err(CgfxError::Unsupported)
    }
}

/// The attribute and buffer kind shared by all vertex buffers.
#[derive(Debug, Clone, Copy, PartialEq, Eq, Structural)]
pub struct VertexBufferCommon {
    pub attribute_name: AttributeName,
    pub vertex_buffer_type: VertexBufferType,
}

/// Whether the common vertex buffer fields can be read at `p`.
pub open spec fn vb_common_ok(s: Seq<u8>, p: int) -> bool {
    &&& fits(s, p, 8)
    &&& attribute_name_of_code(u32_at(s, p) as u32) is Some
    &&& vertex_buffer_type_of_code(u32_at(s, p + 4) as u32) is Some
}

/// The common vertex buffer fields stored at `p`.
pub open spec fn vb_common_at(s: Seq<u8>, p: int) -> VertexBufferCommon {
    VertexBufferCommon {
        attribute_name: attribute_name_of_code(u32_at(s, p) as u32)->Some_0,
        vertex_buffer_type: vertex_buffer_type_of_code(u32_at(s, p + 4) as u32)->Some_0,
    }
}

impl VertexBufferCommon {
    pub fn from_reader(buf: &[u8], pos: &mut usize) -> (r: Result<VertexBufferCommon, CgfxError>)
        ensures
            r is Ok <==> vb_common_ok(buf@, *old(pos) as int),
            r matches Ok(c) ==> c == vb_common_at(buf@, *old(pos) as int) && *final(pos) == *old(pos) + 8,
            r is Err ==> *final(pos) == *old(pos),
    {
        let mut p = *pos;
        if p > buf.len() || buf.len() - p < 8 {
            return Err(CgfxError::TruncatedInput);
        }
        let name_code = read_u32(buf, &mut p)?;
        let type_code = read_u32(buf, &mut p)?;
        let attribute_name = match AttributeName::from_code(name_code) {
            Some(a) => a,
            None => {
                return Err(CgfxError::InvalidValue);
            },
        };
        let vertex_buffer_type = match VertexBufferType::from_code(type_code) {
            Some(t) => t,
            None => {
                return Err(CgfxError::InvalidValue);
            },
        };
        *pos = p;
        Ok(VertexBufferCommon { attribute_name, vertex_buffer_type })
    }
}

/// One attribute stream: raw bytes of `elements` components of `format`,
/// scaled by `scale` (a float's bit pattern).
#[derive(Debug, Clone)]
pub struct VertexBufferAttribute {
    pub vertex_buffer_common: VertexBufferCommon,
    pub buffer_obj: u32,
    pub location_flag: u32,
    pub raw_bytes: Vec<u8>,
    pub location_ptr: u32,
    pub memory_area: u32,
    pub format: GlDataType,
    pub elements: u32,
    pub scale: u32,
    pub offset: u32,
}

/// Whether an attribute buffer (after its tag) can be read at `p`.
pub open spec fn attribute_ok(s: Seq<u8>, p: int) -> bool {
    &&& fits(s, p, 48)
    &&& vb_common_ok(s, p)
    &&& inline_list_ok(s, p + 16, 1)
    &&& gl_data_type_of_code(u32_at(s, p + 32) as u32) is Some
}

/// Whether `a` holds what the attribute buffer at `p` stores.
pub open spec fn attribute_read_from(s: Seq<u8>, p: int, a: VertexBufferAttribute) -> bool {
    &&& a.vertex_buffer_common == vb_common_at(s, p)
    &&& a.buffer_obj == u32_at(s, p + 8)
    &&& a.location_flag == u32_at(s, p + 12)
    &&& a.raw_bytes@ == inline_list_bytes(s, p + 16, 1)
    &&& a.location_ptr == u32_at(s, p + 24)
    &&& a.memory_area == u32_at(s, p + 28)
    &&& gl_data_type_of_code(u32_at(s, p + 32) as u32) == Some(a.format)
    &&& a.elements == u32_at(s, p + 36)
    &&& a.scale == u32_at(s, p + 40)
    &&& a.offset == u32_at(s, p + 44)
}

impl VertexBufferAttribute {
    pub fn from_reader(buf: &[u8], at: usize) -> (r: Result<VertexBufferAttribute, CgfxError>)
        ensures
            r is Ok <==> attribute_ok(buf@, at as int),
            r matches Ok(a) ==> attribute_read_from(buf@, at as int, a),
    {
        let mut p = at;
        if p > buf.len() || buf.len() - p < 48 {
            return Err(CgfxError::TruncatedInput);
        }
        let vertex_buffer_common = VertexBufferCommon::from_reader(buf, &mut p)?;
        let buffer_obj = read_u32(buf, &mut p)?;
        let location_flag = read_u32(buf, &mut p)?;
        let raw_bytes = read_inline_bytes(buf, &mut p)?;
        let location_ptr = read_u32(buf, &mut p)?;
        let memory_area = read_u32(buf, &mut p)?;
        let code = read_u32(buf, &mut p)?;
        let format = match GlDataType::from_code(code) {
            Some(f) => f,
            None => {
                return Err(CgfxError::InvalidValue);
            },
        };
        let elements = read_u32(buf, &mut p)?;
        let scale = read_u32(buf, &mut p)?;
        let offset = read_u32(buf, &mut p)?;
        Ok(
            VertexBufferAttribute {
                vertex_buffer_common,
                buffer_obj,
                location_flag,
                raw_bytes,
                location_ptr,
                memory_area,
                format,
                elements,
                scale,
                offset,
            },
        )
    }
}

/// The tag of an attribute vertex buffer.
pub const ATTRIBUTE_DISCRIMINANT: u32 = 0x4000_0001;

/// The tag of an interleaved vertex buffer.
pub const INTERLEAVED_DISCRIMINANT: u32 = 0x4000_0002;

/// The tag of a fixed vertex buffer.
pub const FIXED_DISCRIMINANT: u32 = 0x8000_0000;

/// Whether `q` holds an attribute tag followed by a readable attribute buffer.
pub open spec fn tagged_attribute_ok(s: Seq<u8>, q: int) -> bool {
    fits(s, q, 4) && u32_at(s, q) == ATTRIBUTE_DISCRIMINANT && attribute_ok(s, q + 4)
}

/// Whether every target holds a tagged attribute buffer.
pub open spec fn attributes_ok(s: Seq<u8>, t: Seq<Pointer>) -> bool {
    forall|j: int| 0 <= j < t.len() ==> #[trigger] tagged_attribute_ok(s, t[j].0 as int)
}

/// Reads a tagged attribute buffer at each target.
fn read_attributes(buf: &[u8], targets: &Vec<Pointer>) -> (r: Result<Vec<VertexBufferAttribute>, CgfxError>)
    ensures
        r is Ok <==> attributes_ok(buf@, targets@),
        r matches Ok(v) ==> v@.len() == targets@.len() && forall|j: int|
            0 <= j < targets@.len() ==> #[trigger] attribute_read_from(buf@, targets@[j].0 + 4, v@[j]),
{
    let mut values: Vec<VertexBufferAttribute> = Vec::new();
    let mut j: usize = 0;
    while j < targets.len()
        invariant
            j <= targets@.len(),
            values@.len() == j,
            forall|i: int| 0 <= i < j ==> #[trigger] tagged_attribute_ok(buf@, targets@[i].0 as int),
            forall|i: int| 0 <= i < j ==> #[trigger] attribute_read_from(buf@, targets@[i].0 + 4, values@[i]),
        decreases targets@.len() - j,
    {
        let at = targets[j].0 as usize;
        let mut q = at;
        let tag = match read_u32(buf, &mut q) {
            Ok(t) => t,
            Err(e) => {
                assert(!tagged_attribute_ok(buf@, targets@[j as int].0 as int));
                return Err(e);
            },
        };
        if tag != ATTRIBUTE_DISCRIMINANT {
            assert(!tagged_attribute_ok(buf@, targets@[j as int].0 as int));
            return Err(CgfxError::UnknownDiscriminant { offset: at, tag });
        }
        let v = match VertexBufferAttribute::from_reader(buf, at + 4) {
            Ok(v) => v,
            Err(e) => {
                assert(!tagged_attribute_ok(buf@, targets@[j as int].0 as int));
                return Err(e);
            },
        };
        values.push(v);
        j = j + 1;
    }
    Ok(values)
}

/// Vertices stored interleaved: several attributes share one byte buffer.
#[derive(Debug, Clone)]
pub struct VertexBufferInterleaved {
    pub vertex_buffer_common: VertexBufferCommon,
    pub buffer_obj: u32,
    pub location_flag: u32,
    pub raw_bytes: Vec<u8>,
    pub location_ptr: u32,
    pub memory_area: u32,
    pub vertex_stride: u32,
    pub attributes: Vec<VertexBufferAttribute>,
}

/// Whether an interleaved buffer (after its tag) can be read at `p`.
pub open spec fn interleaved_ok(s: Seq<u8>, p: int) -> bool {
    &&& fits(s, p, 44)
    &&& vb_common_ok(s, p)
    &&& inline_list_ok(s, p + 16, 1)
    &&& pointer_list_ok(s, p + 36)
    &&& attributes_ok(s, pointer_list_targets(s, p + 36))
}

/// Whether `v` holds what the interleaved buffer at `p` stores.
pub open spec fn interleaved_read_from(s: Seq<u8>, p: int, v: VertexBufferInterleaved) -> bool {
    &&& v.vertex_buffer_common == vb_common_at(s, p)
    &&& v.raw_bytes@ == inline_list_bytes(s, p + 16, 1)
    &&& v.vertex_stride == u32_at(s, p + 32)
    &&& v.attributes@.len() == pointer_list_targets(s, p + 36).len()
    &&& forall|j: int|
        0 <= j < v.attributes@.len() ==> #[trigger] attribute_read_from(
            s,
            pointer_list_targets(s, p + 36)[j].0 + 4,
            v.attributes@[j],
        )
}

impl VertexBufferInterleaved {
    pub fn from_reader(buf: &[u8], at: usize) -> (r: Result<VertexBufferInterleaved, CgfxError>)
        ensures
            interleaved_ok(buf@, at as int) ==> r is Ok,
            r matches Ok(v) ==> interleaved_ok(buf@, at as int) && interleaved_read_from(buf@, at as int, v),
    {
        let mut p = at;
        if p > buf.len() || buf.len() - p < 44 {
            return Err(CgfxError::TruncatedInput);
        }
        let vertex_buffer_common = VertexBufferCommon::from_reader(buf, &mut p)?;
        let buffer_obj = read_u32(buf, &mut p)?;
        let location_flag = read_u32(buf, &mut p)?;
        let raw_bytes = read_inline_bytes(buf, &mut p)?;
        let location_ptr = read_u32(buf, &mut p)?;
        let memory_area = read_u32(buf, &mut p)?;
        let vertex_stride = read_u32(buf, &mut p)?;
        let targets = read_pointer_list_targets(buf, &mut p)?;
        let attributes = read_attributes(buf, &targets)?;
        let v = VertexBufferInterleaved {
            vertex_buffer_common,
            buffer_obj,
            location_flag,
            raw_bytes,
            location_ptr,
            memory_area,
            vertex_stride,
            attributes,
        };
        assert(v.vertex_buffer_common == vb_common_at(buf@, at as int));
        assert(v.raw_bytes@ == inline_list_bytes(buf@, at + 16, 1));
        assert(v.vertex_stride == u32_at(buf@, at + 32));
        assert(targets@ == pointer_list_targets(buf@, at + 36));
        Ok(v)
    }
}

/// A constant attribute value: `vector` holds float bit patterns.
#[derive(Debug, Clone)]
pub struct VertexBufferFixed {
    pub vertex_buffer_common: VertexBufferCommon,
    pub format: GlDataType,
    pub elements: u32,
    pub scale: u32,
    pub vector: Vec<u32>,
}

/// Whether a fixed buffer (after its tag) can be read at `p`.
pub open spec fn fixed_ok(s: Seq<u8>, p: int) -> bool {
    &&& fits(s, p, 28)
    &&& vb_common_ok(s, p)
    &&& gl_data_type_of_code(u32_at(s, p + 8) as u32) is Some
    &&& inline_list_ok(s, p + 20, 4)
}

/// Whether `v` holds what the fixed buffer at `p` stores.
pub open spec fn fixed_read_from(s: Seq<u8>, p: int, v: VertexBufferFixed) -> bool {
    &&& v.vertex_buffer_common == vb_common_at(s, p)
    &&& gl_data_type_of_code(u32_at(s, p + 8) as u32) == Some(v.format)
    &&& v.elements == u32_at(s, p + 12)
    &&& v.scale == u32_at(s, p + 16)
    &&& inline_words_read_from(s, p + 20, v.vector@)
}

impl VertexBufferFixed {
    pub fn from_reader(buf: &[u8], at: usize) -> (r: Result<VertexBufferFixed, CgfxError>)
        ensures
            r is Ok <==> fixed_ok(buf@, at as int),
            r matches Ok(v) ==> fixed_read_from(buf@, at as int, v),
    {
        let mut p = at;
        if p > buf.len() || buf.len() - p < 28 {
            return Err(CgfxError::TruncatedInput);
        }
        let vertex_buffer_common = VertexBufferCommon::from_reader(buf, &mut p)?;
        let code = read_u32(buf, &mut p)?;
        let format = match GlDataType::from_code(code) {
            Some(f) => f,
            None => {
                return Err(CgfxError::InvalidValue);
            },
        };
        let elements = read_u32(buf, &mut p)?;
        let scale = read_u32(buf, &mut p)?;
        let vector = read_inline_words(buf, &mut p)?;
        Ok(VertexBufferFixed { vertex_buffer_common, format, elements, scale, vector })
    }
}

#[derive(Debug, Clone)]
pub enum VertexBuffer {
    Attribute(VertexBufferAttribute),
    Interleaved(VertexBufferInterleaved),
    Fixed(VertexBufferFixed),
}

/// Whether a tagged vertex buffer can be read at `p`.
pub open spec fn vertex_buffer_ok(s: Seq<u8>, p: int) -> bool {
    &&& fits(s, p, 4)
    &&& u32_at(s, p) == ATTRIBUTE_DISCRIMINANT ==> attribute_ok(s, p + 4)
    &&& u32_at(s, p) == INTERLEAVED_DISCRIMINANT ==> interleaved_ok(s, p + 4)
    &&& u32_at(s, p) == FIXED_DISCRIMINANT ==> fixed_ok(s, p + 4)
    &&& (u32_at(s, p) == ATTRIBUTE_DISCRIMINANT || u32_at(s, p) == INTERLEAVED_DISCRIMINANT || u32_at(s, p)
        == FIXED_DISCRIMINANT)
}

/// Whether `vb` holds what the tagged vertex buffer at `p` stores.
pub open spec fn vertex_buffer_read_from(s: Seq<u8>, p: int, vb: VertexBuffer) -> bool {
    match vb {
        VertexBuffer::Attribute(a) => u32_at(s, p) == ATTRIBUTE_DISCRIMINANT && attribute_read_from(s, p + 4, a),
        VertexBuffer::Interleaved(v) => u32_at(s, p) == INTERLEAVED_DISCRIMINANT && interleaved_read_from(
            s,
            p + 4,
            v,
        ),
        VertexBuffer::Fixed(f) => u32_at(s, p) == FIXED_DISCRIMINANT && fixed_read_from(s, p + 4, f),
    }
}

impl VertexBuffer {
    pub fn from_reader(buf: &[u8], at: usize) -> (r: Result<VertexBuffer, CgfxError>)
        ensures
            vertex_buffer_ok(buf@, at as int) ==> r is Ok,
            r is Ok ==> vertex_buffer_ok(buf@, at as int),
            r matches Ok(vb) ==> vertex_buffer_read_from(buf@, at as int, vb),
            r matches Ok(VertexBuffer::Attribute(a)) ==> u32_at(buf@, at as int) == ATTRIBUTE_DISCRIMINANT
                && attribute_read_from(buf@, at + 4, a),
            r matches Ok(VertexBuffer::Interleaved(v)) ==> u32_at(buf@, at as int) == INTERLEAVED_DISCRIMINANT
                && interleaved_read_from(buf@, at + 4, v),
            r matches Ok(VertexBuffer::Fixed(_)) ==> u32_at(buf@, at as int) == FIXED_DISCRIMINANT,
            fits(buf@, at as int, 4) && u32_at(buf@, at as int) != ATTRIBUTE_DISCRIMINANT && u32_at(buf@, at as int)
                != INTERLEAVED_DISCRIMINANT && u32_at(buf@, at as int) != FIXED_DISCRIMINANT ==> r
                == Err::<VertexBuffer, CgfxError>(
                CgfxError::UnknownDiscriminant { offset: at, tag: u32_at(buf@, at as int) as u32 },
            ),
    {
        let mut p = at;
        let discriminant = read_u32(buf, &mut p)?;
        if discriminant == ATTRIBUTE_DISCRIMINANT {
            Ok(VertexBuffer::Attribute(VertexBufferAttribute::from_reader(buf, p)?))
        } else if discriminant == INTERLEAVED_DISCRIMINANT {
            Ok(VertexBuffer::Interleaved(VertexBufferInterleaved::from_reader(buf, p)?))
        } else if discriminant == FIXED_DISCRIMINANT {
            Ok(VertexBuffer::Fixed(VertexBufferFixed::from_reader(buf, p)?))
        } else {
            Err(CgfxError::UnknownDiscriminant { offset: at, tag: discriminant })
        }
    }
}

impl VertexBuffer {
    /// Writing vertex buffers is not implemented.
    pub fn to_writer(&self, out: &mut Vec<u8>) -> (r: Result<(), CgfxError>)
        ensures
            r == Err::<(), CgfxError>(CgfxError::Unsupported),
            final(out)@ == old(out)@,
    {
        Err(CgfxError::Unsupported)
    }
}

/// Whether tagged vertex buffers can be read at every target.
pub open spec fn vertex_buffers_ok(s: Seq<u8>, t: Seq<Pointer>) -> bool {
    forall|j: int| 0 <= j < t.len() ==> #[trigger] vertex_buffer_ok(s, t[j].0 as int)
}

/// Reads a tagged vertex buffer at each target.
fn read_vertex_buffers(buf: &[u8], targets: &Vec<Pointer>) -> (r: Result<Vec<VertexBuffer>, CgfxError>)
    ensures
        vertex_buffers_ok(buf@, targets@) ==> r is Ok,
        r matches Ok(v) ==> vertex_buffers_ok(buf@, targets@) && v@.len() == targets@.len() && forall|j: int|
            0 <= j < targets@.len() ==> #[trigger] vertex_buffer_read_from(buf@, targets@[j].0 as int, v@[j]),
{
    let mut values: Vec<VertexBuffer> = Vec::new();
    let mut j: usize = 0;
    while j < targets.len()
        invariant
            j <= targets@.len(),
            values@.len() == j,
            forall|i: int| 0 <= i < j ==> #[trigger] vertex_buffer_ok(buf@, targets@[i].0 as int),
            forall|i: int| 0 <= i < j ==> #[trigger] vertex_buffer_read_from(buf@, targets@[i].0 as int, values@[i]),
        decreases targets@.len() - j,
    {
        let v = VertexBuffer::from_reader(buf, targets[j].0 as usize)?;
        values.push(v);
        j = j + 1;
    }
    Ok(values)
}

/// Whether sub-meshes can be read at every target.
pub open spec fn sub_meshes_ok(s: Seq<u8>, t: Seq<Pointer>) -> bool {
    forall|j: int| 0 <= j < t.len() ==> #[trigger] sub_mesh_ok(s, t[j].0 as int)
}

/// Reads a sub-mesh at each target.
fn read_sub_meshes(buf: &[u8], targets: &Vec<Pointer>) -> (r: Result<Vec<SubMesh>, CgfxError>)
    ensures
        r is Ok <==> sub_meshes_ok(buf@, targets@),
        r matches Ok(v) ==> v@.len() == targets@.len() && forall|j: int|
            0 <= j < targets@.len() ==> #[trigger] sub_mesh_read_from(buf@, targets@[j].0 as int, v@[j]),
{
    let mut values: Vec<SubMesh> = Vec::new();
    let mut j: usize = 0;
    while j < targets.len()
        invariant
            j <= targets@.len(),
            values@.len() == j,
            forall|i: int| 0 <= i < j ==> #[trigger] sub_mesh_ok(buf@, targets@[i].0 as int),
            forall|i: int| 0 <= i < j ==> #[trigger] sub_mesh_read_from(buf@, targets@[i].0 as int, values@[i]),
        decreases targets@.len() - j,
    {
        let v = match SubMesh::from_reader(buf, targets[j].0 as usize) {
            Ok(v) => v,
            Err(e) => {
                assert(!sub_mesh_ok(buf@, targets@[j as int].0 as int));
                return Err(e);
            },
        };
        values.push(v);
        j = j + 1;
    }
    Ok(values)
}

#[derive(Debug, Clone, Copy, PartialEq, Eq, Structural)]
pub struct BoundingBox {
    pub flags: u32,
    pub center: Vec3,
    pub orientation: Mat3,
    pub size: Vec3,
}

/// The bounding box stored at `p`.
pub open spec fn bounding_box_at(s: Seq<u8>, p: int) -> BoundingBox {
    BoundingBox {
        flags: u32_at(s, p) as u32,
        center: vec3_at(s, p + 4),
        orientation: mat3_at(s, p + 16),
        size: vec3_at(s, p + 52),
    }
}

impl BoundingBox {
    pub fn from_buffer(buf: &[u8], at: usize) -> (r: Result<BoundingBox, CgfxError>)
        ensures
            r is Ok <==> fits(buf@, at as int, 64),
            r matches Ok(b) ==> b == bounding_box_at(buf@, at as int),
    {
        let mut p = at;
        if p > buf.len() || buf.len() - p < 64 {
            return Err(CgfxError::TruncatedInput);
        }
        let flags = read_u32(buf, &mut p)?;
        let center = Vec3::from_reader(buf, &mut p)?;
        let orientation = Mat3::from_reader(buf, &mut p)?;
        let size = Vec3::from_reader(buf, &mut p)?;
        Ok(BoundingBox { flags, center, orientation, size })
    }
}

/// The tag that opens a shape.
pub const SHAPE_MAGIC: u32 = 0x1000_0001;

/// A shape: geometry split into sub-meshes over a set of vertex buffers.
#[derive(Debug, Clone)]
pub struct Shape {
    pub cgfx_object_header: CgfxObjectHeader,
    pub flags: u32,
    pub bounding_box: Option<BoundingBox>,
    pub position_offset: Vec3,
    pub sub_meshes: Vec<SubMesh>,
    pub base_address: u32,
    pub vertex_buffers: Vec<VertexBuffer>,
}

/// Whether the position offset stored in the shape at `p` is zero.
pub open spec fn shape_offset_zero(s: Seq<u8>, p: int) -> bool {
    is_float_zero(vec3_at(s, p + 32).x) && is_float_zero(vec3_at(s, p + 32).y) && is_float_zero(
        vec3_at(s, p + 32).z,
    )
}

/// Whether a shape can be read at `p`.
pub open spec fn shape_ok(s: Seq<u8>, p: int) -> bool {
    &&& fits(s, p, 64)
    &&& u32_at(s, p) == SHAPE_MAGIC
    &&& object_header_ok(s, p + 4)
    &&& rel_ptr_at(s, p + 28) matches Some(b) ==> fits(s, b.0 as int, 64)
    &&& shape_offset_zero(s, p)
    &&& pointer_list_ok(s, p + 44)
    &&& sub_meshes_ok(s, pointer_list_targets(s, p + 44))
    &&& pointer_list_ok(s, p + 56)
    &&& vertex_buffers_ok(s, pointer_list_targets(s, p + 56))
}

/// Whether `sh` holds what the shape at `p` stores.
pub open spec fn shape_read_from(s: Seq<u8>, p: int, sh: Shape) -> bool {
    &&& object_header_read_from(s, p + 4, sh.cgfx_object_header)
    &&& sh.flags == u32_at(s, p + 24)
    &&& rel_ptr_at(s, p + 28) is None ==> sh.bounding_box is None
    &&& rel_ptr_at(s, p + 28) matches Some(b) ==> sh.bounding_box == Some(bounding_box_at(s, b.0 as int))
    &&& sh.position_offset == vec3_at(s, p + 32)
    &&& sh.sub_meshes@.len() == pointer_list_targets(s, p + 44).len()
    &&& forall|j: int|
        0 <= j < sh.sub_meshes@.len() ==> #[trigger] sub_mesh_read_from(
            s,
            pointer_list_targets(s, p + 44)[j].0 as int,
            sh.sub_meshes@[j],
        )
    &&& sh.base_address == u32_at(s, p + 52)
    &&& sh.vertex_buffers@.len() == pointer_list_targets(s, p + 56).len()
    &&& forall|j: int|
        0 <= j < sh.vertex_buffers@.len() ==> #[trigger] vertex_buffer_read_from(
            s,
            pointer_list_targets(s, p + 56)[j].0 as int,
            sh.vertex_buffers@[j],
        )
}

impl Shape {
    /// Reads a shape. Its position offset must be zero: any other offset is
    /// an invalid value.
    pub fn from_reader(buf: &[u8], at: usize) -> (r: Result<Shape, CgfxError>)
        ensures
            shape_ok(buf@, at as int) ==> r is Ok,
            r matches Ok(sh) ==> shape_ok(buf@, at as int) && shape_read_from(buf@, at as int, sh),
            r matches Ok(sh) ==> is_float_zero(sh.position_offset.x) && is_float_zero(sh.position_offset.y)
                && is_float_zero(sh.position_offset.z),
            fits(buf@, at as int, 64) && u32_at(buf@, at as int) == SHAPE_MAGIC && object_header_ok(buf@, at + 4)
                && (rel_ptr_at(buf@, at + 28) matches Some(b) ==> fits(buf@, b.0 as int, 64)) && !shape_offset_zero(
                buf@,
                at as int,
            ) ==> r == Err::<Shape, CgfxError>(CgfxError::InvalidValue),
            fits(buf@, at as int, 64) && u32_at(buf@, at as int) != SHAPE_MAGIC ==> r == Err::<Shape, CgfxError>(
                CgfxError::UnknownDiscriminant { offset: at, tag: u32_at(buf@, at as int) as u32 },
            ),
    {
        let mut p = at;
        if p > buf.len() || buf.len() - p < 64 {
            return Err(CgfxError::TruncatedInput);
        }
        let magic = read_u32(buf, &mut p)?;
        if magic != SHAPE_MAGIC {
            return Err(CgfxError::UnknownDiscriminant { offset: at, tag: magic });
        }
        let cgfx_object_header = CgfxObjectHeader::from_reader(buf, &mut p)?;
        let flags = read_u32(buf, &mut p)?;
        let bounding_box_pointer = read_relative_pointer(buf, &mut p)?;
        let bounding_box = match bounding_box_pointer {
            Some(b) => Some(BoundingBox::from_buffer(buf, b.0 as usize)?),
            None => None,
        };
        let position_offset = Vec3::from_reader(buf, &mut p)?;
        if !position_offset.is_zero() {
            return Err(CgfxError::InvalidValue);
        }
        let sub_mesh_targets = read_pointer_list_targets(buf, &mut p)?;
        let sub_meshes = read_sub_meshes(buf, &sub_mesh_targets)?;
        let base_address = read_u32(buf, &mut p)?;
        let vertex_buffer_targets = read_pointer_list_targets(buf, &mut p)?;
        let vertex_buffers = read_vertex_buffers(buf, &vertex_buffer_targets)?;
        Ok(
            Shape {
                cgfx_object_header,
                flags,
                bounding_box,
                position_offset,
                sub_meshes,
                base_address,
                vertex_buffers,
            },
        )
    }

    /// Writing shapes is not implemented.
    pub fn to_writer(&self, out: &mut Vec<u8>) -> (r: Result<(), CgfxError>)
        ensures
            r == Err::<(), CgfxError>(CgfxError::Unsupported),
            final(out)@ == old(out)@,
    {
        Err(CgfxError::Unsupported)
    }
}

/// Whether shapes can be read at every target.
pub open spec fn shapes_ok(s: Seq<u8>, t: Seq<Pointer>) -> bool {
    forall|j: int| 0 <= j < t.len() ==> #[trigger] shape_ok(s, t[j].0 as int)
}

/// Reads a shape at each target.
pub fn read_shapes(buf: &[u8], targets: &Vec<Pointer>) -> (r: Result<Vec<Shape>, CgfxError>)
    ensures
        shapes_ok(buf@, targets@) ==> r is Ok,
        r matches Ok(v) ==> shapes_ok(buf@, targets@) && v@.len() == targets@.len() && forall|j: int|
            0 <= j < targets@.len() ==> #[trigger] shape_read_from(buf@, targets@[j].0 as int, v@[j]),
{
    let mut values: Vec<Shape> = Vec::new();
    let mut j: usize = 0;
    while j < targets.len()
        invariant
            j <= targets@.len(),
            values@.len() == j,
            forall|i: int| 0 <= i < j ==> #[trigger] shape_ok(buf@, targets@[i].0 as int),
            forall|i: int| 0 <= i < j ==> #[trigger] shape_read_from(buf@, targets@[i].0 as int, values@[i]),
        decreases targets@.len() - j,
    {
        let v = Shape::from_reader(buf, targets[j].0 as usize)?;
        values.push(v);
        j = j + 1;
    }
    Ok(values)
}

/// The tag that opens a mesh.
pub const MESH_MAGIC: u32 = 0x0100_0000;

/// A mesh: which shape is drawn with which material.
#[derive(Debug, Clone)]
pub struct Mesh {
    pub cgfx_object_header: CgfxObjectHeader,
    pub shape_index: u32,
    pub material_index: u32,
    pub parent_ptr: i32,
    pub visible: u8,
    pub render_priority: u8,
    pub mesh_node_index: u16,
    pub primitive_index: u32,
}

/// A stored 32-bit value read as a two's-complement signed integer.
pub open spec fn signed_of(raw: int) -> int {
    if raw < 0x8000_0000 {
        raw
    } else {
        raw - 0x1_0000_0000
    }
}

/// Whether a mesh can be read at `p`.
pub open spec fn mesh_ok(s: Seq<u8>, p: int) -> bool {
    &&& fits(s, p, 44)
    &&& u32_at(s, p) == MESH_MAGIC
    &&& object_header_ok(s, p + 4)
}

/// Whether `m` holds what the mesh at `p` stores.
pub open spec fn mesh_read_from(s: Seq<u8>, p: int, m: Mesh) -> bool {
    &&& object_header_read_from(s, p + 4, m.cgfx_object_header)
    &&& m.shape_index == u32_at(s, p + 24)
    &&& m.material_index == u32_at(s, p + 28)
    &&& m.parent_ptr == signed_of(u32_at(s, p + 32))
    &&& m.visible == s[p + 36]
    &&& m.render_priority == s[p + 37]
    &&& m.mesh_node_index == crate::bytes::u16_at(s, p + 38)
    &&& m.primitive_index == u32_at(s, p + 40)
}

impl CgfxCollectionValue for Mesh {
    open spec fn image_bytes_of(&self) -> Seq<u8> {
        Seq::empty()
    }

    open spec fn value_writable(&self) -> bool {
        false
    }

    open spec fn value_bytes(&self) -> Seq<u8> {
        Seq::empty()
    }

    open spec fn value_ok(buf: Seq<u8>, at: int) -> bool {
        mesh_ok(buf, at)
    }

    open spec fn value_read_from(buf: Seq<u8>, at: int, v: Mesh) -> bool {
        mesh_read_from(buf, at, v)
    }

    open spec fn value_error(buf: Seq<u8>, at: int) -> Option<CgfxError> {
        if fits(buf, at, 44) && u32_at(buf, at) != MESH_MAGIC {
            Some(CgfxError::UnknownDiscriminant { offset: at as usize, tag: u32_at(buf, at) as u32 })
        } else {
            None
        }
    }

    fn read_dict_value(buf: &[u8], at: usize) -> (r: Result<Mesh, CgfxError>) {
        let mut p = at;
        if p > buf.len() || buf.len() - p < 44 {
            return Err(CgfxError::TruncatedInput);
        }
        let magic = read_u32(buf, &mut p)?;
        if magic != MESH_MAGIC {
            return Err(CgfxError::UnknownDiscriminant { offset: at, tag: magic });
        }
        let cgfx_object_header = CgfxObjectHeader::from_reader(buf, &mut p)?;
        let shape_index = read_u32(buf, &mut p)?;
        let material_index = read_u32(buf, &mut p)?;
        let raw_parent = read_u32(buf, &mut p)?;
        let parent_ptr: i32 = if raw_parent < 0x8000_0000 {
            raw_parent as i32
        } else {
            (raw_parent - 0x8000_0000) as i32 + i32::MIN
        };
        let visible = read_u8(buf, &mut p)?;
        let render_priority = read_u8(buf, &mut p)?;
        let mesh_node_index = crate::bytes::read_u16(buf, &mut p)?;
        let primitive_index = read_u32(buf, &mut p)?;
        Ok(
            Mesh {
                cgfx_object_header,
                shape_index,
                material_index,
                parent_ptr,
                visible,
                render_priority,
                mesh_node_index,
                primitive_index,
            },
        )
    }

    fn write_dict_value(&self, out: &mut Vec<u8>, ctx: &mut crate::context::WriteContext) -> (r: Result<(), CgfxError>) {
        proof {
            crate::bytes::lemma_extends_refl(out@);
        }
        Err(CgfxError::Unsupported)
    }
}

} // verus!
