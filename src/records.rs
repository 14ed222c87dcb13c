//! Record prefixes that most objects share: the object header, the scene
//! node header and the transform.
use vstd::prelude::*;
use vstd::utf8::{decode_utf8, encode_utf8, valid_utf8};
use crate::bytes::{
    abs_ptr_at, fits, get_4_byte_string, le_u32, push_bytes, push_u32, read_string_pointer,
    read_u32, string_ptr_is, string_ptr_ok, u32_at,
};
use crate::dict::CgfxDict;
use crate::error::CgfxError;
use crate::math::{Mat3x4, Vec3, mat3x4_at, vec3_at};
use crate::pointer::Pointer;

verus! {

broadcast use {crate::bytes::lemma_le_u32_len, crate::bytes::lemma_le_u16_len};

/// The raw value that stands for an absolute pointer: zero for none.
pub open spec fn abs_raw(p: Option<Pointer>) -> u32 {
    match p {
        Some(q) => q.0,
        None => 0,
    }
}

#[derive(Debug, Clone)]
pub struct CgfxObjectHeader {
    pub magic: String,
    pub revision: u32,
    pub name: Option<String>,
    pub metadata_count: u32,
    pub metadata_pointer: Option<Pointer>,
}

/// Whether an object header can be read at `p`.
pub open spec fn object_header_ok(s: Seq<u8>, p: int) -> bool {
    &&& fits(s, p, 20)
    &&& valid_utf8(s.subrange(p, p + 4))
    &&& string_ptr_ok(s, p + 8)
}

/// Whether `h` holds what the object header at `p` stores.
pub open spec fn object_header_read_from(s: Seq<u8>, p: int, h: CgfxObjectHeader) -> bool {
    &&& h.magic@ == decode_utf8(s.subrange(p, p + 4))
    &&& h.revision == u32_at(s, p + 4)
    &&& string_ptr_is(s, p + 8, h.name)
    &&& h.metadata_count == u32_at(s, p + 12)
    &&& h.metadata_pointer == abs_ptr_at(s, p + 16)
}

/// The bytes of an object header as written: the name pointer is a zero
/// placeholder.
pub open spec fn object_header_bytes(h: CgfxObjectHeader) -> Seq<u8> {
    encode_utf8(h.magic@) + le_u32(h.revision) + le_u32(0) + le_u32(h.metadata_count) + le_u32(
        abs_raw(h.metadata_pointer),
    )
}

impl CgfxObjectHeader {
    pub fn from_reader(buf: &[u8], pos: &mut usize) -> (r: Result<CgfxObjectHeader, CgfxError>)
        ensures
            r is Ok <==> object_header_ok(buf@, *old(pos) as int),
            r matches Ok(h) ==> object_header_read_from(buf@, *old(pos) as int, h) && *final(pos)
                == *old(pos) + 20,
            r is Err ==> *final(pos) == *old(pos),
    {
        let mut p = *pos;
        if p > buf.len() || buf.len() - p < 20 {
            return Err(CgfxError::TruncatedInput);
        }
        let magic = get_4_byte_string(buf, &mut p)?;
        let revision = read_u32(buf, &mut p)?;
        let name = read_string_pointer(buf, &mut p)?;
        let metadata_count = read_u32(buf, &mut p)?;
        let raw = read_u32(buf, &mut p)?;
        let metadata_pointer = Pointer::new(raw);
        *pos = p;
        Ok(CgfxObjectHeader { magic, revision, name, metadata_count, metadata_pointer })
    }

    /// Writes the header with a zero name placeholder; the magic must be four
    /// bytes long.
    pub fn to_writer(&self, out: &mut Vec<u8>) -> (r: Result<(), CgfxError>)
        ensures
            r is Ok <==> encode_utf8(self.magic@).len() == 4,
            r is Ok ==> final(out)@ == old(out)@ + object_header_bytes(*self),
            r is Err ==> final(out)@ == old(out)@,
    {
        let magic = self.magic.as_str().as_bytes();
        if magic.len() != 4 {
            return Err(CgfxError::InvalidValue);
        }
        push_bytes(out, magic);
        push_u32(out, self.revision);
        push_u32(out, 0);
        push_u32(out, self.metadata_count);
        let raw = match self.metadata_pointer {
            Some(q) => q.0,
            None => 0,
        };
        push_u32(out, raw);
        assert(out@ =~= old(out)@ + object_header_bytes(*self));
        Ok(())
    }
}

/// The scene-node part of an object: visibility, children and animation
/// groups. The animation groups are not read yet and stay empty.
#[derive(Debug, Clone)]
pub struct CgfxNodeHeader {
    pub branch_visible: u32,
    pub is_branch_visible: u32,
    pub child_count: u32,
    pub children_pointer: Option<Pointer>,
    pub anim_groups: CgfxDict<()>,
    pub anim_group_count: u32,
    pub anim_group_pointer: Option<Pointer>,
}

/// Whether `h` holds what the node header at `p` stores.
pub open spec fn node_header_read_from(s: Seq<u8>, p: int, h: CgfxNodeHeader) -> bool {
    &&& h.branch_visible == u32_at(s, p)
    &&& h.is_branch_visible == u32_at(s, p + 4)
    &&& h.child_count == u32_at(s, p + 8)
    &&& h.children_pointer == abs_ptr_at(s, p + 12)
    &&& h.anim_group_count == u32_at(s, p + 16)
    &&& h.anim_group_pointer == abs_ptr_at(s, p + 20)
    &&& h.anim_groups.nodes@.len() == 0
}

impl CgfxNodeHeader {
    pub fn from_reader(buf: &[u8], pos: &mut usize) -> (r: Result<CgfxNodeHeader, CgfxError>)
        ensures
            r is Ok <==> fits(buf@, *old(pos) as int, 24),
            r matches Ok(h) ==> node_header_read_from(buf@, *old(pos) as int, h) && *final(pos)
                == *old(pos) + 24,
            r is Err ==> *final(pos) == *old(pos),
    {
        let mut p = *pos;
        if p > buf.len() || buf.len() - p < 24 {
            return Err(CgfxError::TruncatedInput);
        }
        let branch_visible = read_u32(buf, &mut p)?;
        let is_branch_visible = read_u32(buf, &mut p)?;
        let child_count = read_u32(buf, &mut p)?;
        let children_pointer = Pointer::new(read_u32(buf, &mut p)?);
        let anim_group_count = read_u32(buf, &mut p)?;
        let anim_group_pointer = Pointer::new(read_u32(buf, &mut p)?);
        *pos = p;
        let anim_groups = CgfxDict {
            magic_number: String::new(),
            tree_length: 0,
            values_count: 0,
            nodes: Vec::new(),
        };
        Ok(
            CgfxNodeHeader {
                branch_visible,
                is_branch_visible,
                child_count,
                children_pointer,
                anim_groups,
                anim_group_count,
                anim_group_pointer,
            },
        )
    }
}

#[derive(Debug, Clone, Copy, PartialEq, Eq, Structural)]
pub struct CgfxTransform {
    pub scale: Vec3,
    pub rotation: Vec3,
    pub translation: Vec3,
    pub local_transform: Mat3x4,
    pub world_transform: Mat3x4,
}

/// The transform stored at `p`.
pub open spec fn transform_at(s: Seq<u8>, p: int) -> CgfxTransform {
    CgfxTransform {
        scale: vec3_at(s, p),
        rotation: vec3_at(s, p + 12),
        translation: vec3_at(s, p + 24),
        local_transform: mat3x4_at(s, p + 36),
        world_transform: mat3x4_at(s, p + 84),
    }
}

impl CgfxTransform {
    pub fn from_reader(buf: &[u8], pos: &mut usize) -> (r: Result<CgfxTransform, CgfxError>)
        ensures
            r is Ok <==> fits(buf@, *old(pos) as int, 132),
            r matches Ok(t) ==> t == transform_at(buf@, *old(pos) as int) && *final(pos) == *old(pos)
                + 132,
            r is Err ==> *final(pos) == *old(pos),
    {
        let mut p = *pos;
        if p > buf.len() || buf.len() - p < 132 {
            return Err(CgfxError::TruncatedInput);
        }
        let scale = Vec3::from_reader(buf, &mut p)?;
        let rotation = Vec3::from_reader(buf, &mut p)?;
        let translation = Vec3::from_reader(buf, &mut p)?;
        let local_transform = Mat3x4::from_reader(buf, &mut p)?;
        let world_transform = Mat3x4::from_reader(buf, &mut p)?;
        *pos = p;
        Ok(CgfxTransform { scale, rotation, translation, local_transform, world_transform })
    }
}

} // verus!
