//! Skeletons: a dictionary of bones linked by indices, and the root bone.
use vstd::prelude::*;
use crate::bytes::{
    fits, read_relative_pointer, read_string_pointer,
    read_u32, rel_ptr_at, string_ptr_is, string_ptr_ok, u32_at,
};
use crate::context::WriteContext;
use crate::dict::{CgfxCollectionValue, CgfxDict, dict_ok, dict_read_from};
use crate::error::CgfxError;
use crate::math::{Mat3x4, Vec3, mat3x4_at, vec3_at};
use crate::pointer::Pointer;
use crate::records::{CgfxObjectHeader, object_header_ok, object_header_read_from};

verus! {

broadcast use {crate::bytes::lemma_le_u32_len, crate::bytes::lemma_le_u16_len};

/// How bone scaling is inherited.
#[derive(Debug, Clone, Copy, PartialEq, Eq, Structural)]
pub enum SkeletonScalingRule {
    Standard,
    Maya,
    SoftImage,
}

/// The scaling rule with stored code `c`, if there is one.
pub open spec fn scaling_rule_of_code(c: u32) -> Option<SkeletonScalingRule> {
    if c == 0 {
        Some(SkeletonScalingRule::Standard)
    } else if c == 1 {
        Some(SkeletonScalingRule::Maya)
    } else if c == 2 {
        Some(SkeletonScalingRule::SoftImage)
    } else {
        None
    }
}

impl SkeletonScalingRule {
    pub fn from_code(c: u32) -> (r: Option<SkeletonScalingRule>)
        ensures
            r == scaling_rule_of_code(c),
    {
        if c == 0 {
            Some(SkeletonScalingRule::Standard)
        } else if c == 1 {
            Some(SkeletonScalingRule::Maya)
        } else if c == 2 {
            Some(SkeletonScalingRule::SoftImage)
        } else {
            None
        }
    }
}

/// A bone. `index` and `parent_index` give the tree; the four relative
/// pointers are kept as read and are not followed.
#[derive(Debug, Clone)]
pub struct CgfxBone {
    pub name: Option<String>,
    pub flags: u32,
    pub index: u32,
    pub parent_index: u32,
    pub parent_ptr: Option<Pointer>,
    pub child_ptr: Option<Pointer>,
    pub prev_sibling_ptr: Option<Pointer>,
    pub next_sibling_ptr: Option<Pointer>,
    pub scale: Vec3,
    pub rotation: Vec3,
    pub translation: Vec3,
    pub local_transform: Mat3x4,
    pub world_transform: Mat3x4,
    pub inv_world_transform: Mat3x4,
    pub billboard_mode: u32,
    pub metadata_ptr: Option<Pointer>,
}

/// Whether a bone can be read at `p`.
pub open spec fn bone_ok(s: Seq<u8>, p: int) -> bool {
    fits(s, p, 220) && string_ptr_ok(s, p)
}

/// Whether `b` holds what the bone at `p` stores.
pub open spec fn bone_read_from(s: Seq<u8>, p: int, b: CgfxBone) -> bool {
    &&& string_ptr_is(s, p, b.name)
    &&& b.flags == u32_at(s, p + 4)
    &&& b.index == u32_at(s, p + 8)
    &&& b.parent_index == u32_at(s, p + 12)
    &&& b.parent_ptr == rel_ptr_at(s, p + 16)
    &&& b.child_ptr == rel_ptr_at(s, p + 20)
    &&& b.prev_sibling_ptr == rel_ptr_at(s, p + 24)
    &&& b.next_sibling_ptr == rel_ptr_at(s, p + 28)
    &&& b.scale == vec3_at(s, p + 32)
    &&& b.rotation == vec3_at(s, p + 44)
    &&& b.translation == vec3_at(s, p + 56)
    &&& b.local_transform == mat3x4_at(s, p + 68)
    &&& b.world_transform == mat3x4_at(s, p + 116)
    &&& b.inv_world_transform == mat3x4_at(s, p + 164)
    &&& b.billboard_mode == u32_at(s, p + 212)
    &&& b.metadata_ptr == rel_ptr_at(s, p + 216)
}

impl CgfxBone {
    pub fn from_reader(buf: &[u8], at: usize) -> (r: Result<CgfxBone, CgfxError>)
        ensures
            r is Ok <==> bone_ok(buf@, at as int),
            r matches Ok(b) ==> bone_read_from(buf@, at as int, b),
    {
        let mut p = at;
        if p > buf.len() || buf.len() - p < 220 {
            return Err(CgfxError::TruncatedInput);
        }
        let name = read_string_pointer(buf, &mut p)?;
        let flags = read_u32(buf, &mut p)?;
        let index = read_u32(buf, &mut p)?;
        let parent_index = read_u32(buf, &mut p)?;
        let parent_ptr = read_relative_pointer(buf, &mut p)?;
        let child_ptr = read_relative_pointer(buf, &mut p)?;
        let prev_sibling_ptr = read_relative_pointer(buf, &mut p)?;
        let next_sibling_ptr = read_relative_pointer(buf, &mut p)?;
        let scale = Vec3::from_reader(buf, &mut p)?;
        let rotation = Vec3::from_reader(buf, &mut p)?;
        let translation = Vec3::from_reader(buf, &mut p)?;
        let local_transform = Mat3x4::from_reader(buf, &mut p)?;
        let world_transform = Mat3x4::from_reader(buf, &mut p)?;
        let inv_world_transform = Mat3x4::from_reader(buf, &mut p)?;
        let billboard_mode = read_u32(buf, &mut p)?;
        let metadata_ptr = read_relative_pointer(buf, &mut p)?;
        Ok(
            CgfxBone {
                name,
                flags,
                index,
                parent_index,
                parent_ptr,
                child_ptr,
                prev_sibling_ptr,
                next_sibling_ptr,
                scale,
                rotation,
                translation,
                local_transform,
                world_transform,
                inv_world_transform,
                billboard_mode,
                metadata_ptr,
            },
        )
    }
}

impl CgfxCollectionValue for CgfxBone {
    open spec fn image_bytes_of(&self) -> Seq<u8> {
        Seq::empty()
    }

    open spec fn value_writable(&self) -> bool {
        false
    }

    open spec fn value_bytes(&self) -> Seq<u8> {
        Seq::empty()
    }

    open spec fn value_ok(buf: Seq<u8>, at: int) -> bool {
        bone_ok(buf, at)
    }

    open spec fn value_read_from(buf: Seq<u8>, at: int, v: CgfxBone) -> bool {
        bone_read_from(buf, at, v)
    }

    open spec fn value_error(buf: Seq<u8>, at: int) -> Option<CgfxError> {
        None
    }

    fn read_dict_value(buf: &[u8], at: usize) -> (r: Result<CgfxBone, CgfxError>) {
        CgfxBone::from_reader(buf, at)
    }

    /// Writing bones is not implemented: their pointers would have to be
    /// rebuilt from the index tree.
    fn write_dict_value(&self, out: &mut Vec<u8>, ctx: &mut WriteContext) -> (r: Result<(), CgfxError>) {
        proof {
            crate::bytes::lemma_extends_refl(out@);
        }
        Err(CgfxError::Unsupported)
    }
}

/// The tag that opens a skeleton.
pub const SKELETON_MAGIC: u32 = 0x0200_0000;

#[derive(Debug, Clone)]
pub struct CgfxSkeleton {
    pub cgfx_object_header: CgfxObjectHeader,
    pub bones: CgfxDict<CgfxBone>,
    pub root_bone: Pointer,
    pub scaling_rule: SkeletonScalingRule,
    pub flags: u32,
}

/// Whether a skeleton can be read at `p`: its bone dictionary and root bone
/// pointer are present and the dictionary holds as many bones as counted.
pub open spec fn skeleton_ok(s: Seq<u8>, p: int) -> bool {
    &&& fits(s, p, 44)
    &&& u32_at(s, p) == SKELETON_MAGIC
    &&& object_header_ok(s, p + 4)
    &&& rel_ptr_at(s, p + 28) matches Some(d) && dict_ok::<CgfxBone>(s, d.0 as int) && u32_at(s, d.0 + 8)
        == u32_at(s, p + 24)
    &&& rel_ptr_at(s, p + 32) is Some
    &&& scaling_rule_of_code(u32_at(s, p + 36) as u32) is Some
}

/// Whether `k` holds what the skeleton at `p` stores.
pub open spec fn skeleton_read_from(s: Seq<u8>, p: int, k: CgfxSkeleton) -> bool {
    &&& object_header_read_from(s, p + 4, k.cgfx_object_header)
    &&& dict_read_from(s, rel_ptr_at(s, p + 28)->Some_0.0 as int, k.bones)
    &&& Some(k.root_bone) == rel_ptr_at(s, p + 32)
    &&& scaling_rule_of_code(u32_at(s, p + 36) as u32) == Some(k.scaling_rule)
    &&& k.flags == u32_at(s, p + 40)
}

impl CgfxSkeleton {
    pub fn from_reader(buf: &[u8], at: usize) -> (r: Result<CgfxSkeleton, CgfxError>)
        ensures
            r is Ok <==> skeleton_ok(buf@, at as int),
            r matches Ok(k) ==> skeleton_read_from(buf@, at as int, k),
            fits(buf@, at as int, 44) && u32_at(buf@, at as int) == SKELETON_MAGIC && object_header_ok(
                buf@,
                at + 4,
            ) && rel_ptr_at(buf@, at + 28) is None ==> r == Err::<CgfxSkeleton, CgfxError>(
                CgfxError::UnexpectedNull,
            ),
            fits(buf@, at as int, 44) && u32_at(buf@, at as int) == SKELETON_MAGIC && object_header_ok(
                buf@,
                at + 4,
            ) && rel_ptr_at(buf@, at + 28) is Some && dict_ok::<CgfxBone>(buf@, rel_ptr_at(buf@, at + 28)->Some_0.0 as int)
                && u32_at(buf@, rel_ptr_at(buf@, at + 28)->Some_0.0 + 8) == u32_at(buf@, at + 24)
                && rel_ptr_at(buf@, at + 32) is None ==> r == Err::<CgfxSkeleton, CgfxError>(
                CgfxError::UnexpectedNull,
            ),
            fits(buf@, at as int, 44) && u32_at(buf@, at as int) == SKELETON_MAGIC && object_header_ok(
                buf@,
                at + 4,
            ) && rel_ptr_at(buf@, at + 28) is Some && dict_ok::<CgfxBone>(buf@, rel_ptr_at(buf@, at + 28)->Some_0.0 as int)
                && u32_at(buf@, rel_ptr_at(buf@, at + 28)->Some_0.0 + 8) != u32_at(buf@, at + 24) ==> r
                == Err::<CgfxSkeleton, CgfxError>(CgfxError::CountMismatch),
    {
        let mut p = at;
        if p > buf.len() || buf.len() - p < 44 {
            return Err(CgfxError::TruncatedInput);
        }
        let magic = read_u32(buf, &mut p)?;
        if magic != SKELETON_MAGIC {
            return Err(CgfxError::UnknownDiscriminant { offset: at, tag: magic });
        }
        let cgfx_object_header = CgfxObjectHeader::from_reader(buf, &mut p)?;
        let bone_count = read_u32(buf, &mut p)?;
        let bone_pointer = read_relative_pointer(buf, &mut p)?;
        let bones = match bone_pointer {
            Some(d) => {
                let dict = CgfxDict::<CgfxBone>::from_buffer(buf, d)?;
                if dict.values_count != bone_count {
                    return Err(CgfxError::CountMismatch);
                }
                dict
            },
            None => {
                return Err(CgfxError::UnexpectedNull);
            },
        };
        let root_bone = match read_relative_pointer(buf, &mut p)? {
            Some(q) => q,
            None => {
                return Err(CgfxError::UnexpectedNull);
            },
        };
        let code = read_u32(buf, &mut p)?;
        let scaling_rule = match SkeletonScalingRule::from_code(code) {
            Some(rule) => rule,
            None => {
                return Err(CgfxError::InvalidValue);
            },
        };
        let flags = read_u32(buf, &mut p)?;
        Ok(CgfxSkeleton { cgfx_object_header, bones, root_bone, scaling_rule, flags })
    }

    /// Writing skeletons is not implemented.
    pub fn to_writer(&self, out: &mut Vec<u8>, ctx: &mut WriteContext) -> (r: Result<(), CgfxError>)
        ensures
            r == Err::<(), CgfxError>(CgfxError::Unsupported),
            final(out)@ == old(out)@,
    {
        Err(CgfxError::Unsupported)
    }
}

} // verus!
