//! Models: a scene node holding meshes, shapes, materials and mesh
//! visibilities, optionally bound to a skeleton.
use vstd::prelude::*;
use crate::bytes::{fits, read_relative_pointer, read_string_pointer, read_u32, rel_ptr_at, string_ptr_is, string_ptr_ok, u32_at};
use crate::context::WriteContext;
use crate::dict::{CgfxCollectionValue, CgfxDict, dict_ok, dict_read_from};
use crate::error::CgfxError;
use crate::lists::{pointer_list_ok, pointer_list_targets, read_pointer_list, read_pointer_list_targets, targets_ok, values_read_from};
use crate::material::CgfxMaterial;
use crate::mesh::{Mesh, Shape, read_shapes, shape_read_from, shapes_ok};
use crate::records::{
    CgfxNodeHeader, CgfxObjectHeader, CgfxTransform, node_header_read_from, object_header_ok,
    object_header_read_from, transform_at,
};
use crate::skeleton::{CgfxSkeleton, skeleton_ok, skeleton_read_from};

verus! {

/// Whether a mesh node is visible.
#[derive(Debug, Clone)]
pub struct MeshNodeVisibility {
    pub name: Option<String>,
    pub visible: bool,
}

impl CgfxCollectionValue for MeshNodeVisibility {
    open spec fn image_bytes_of(&self) -> Seq<u8> {
        Seq::empty()
    }

    open spec fn value_writable(&self) -> bool {
        true
    }

    open spec fn value_bytes(&self) -> Seq<u8> {
        crate::bytes::le_u32(0) + crate::bytes::le_u32(if self.visible { 1 } else { 0 })
    }

    open spec fn value_ok(buf: Seq<u8>, at: int) -> bool {
        fits(buf, at, 8) && string_ptr_ok(buf, at)
    }

    open spec fn value_read_from(buf: Seq<u8>, at: int, v: MeshNodeVisibility) -> bool {
        string_ptr_is(buf, at, v.name) && v.visible == (u32_at(buf, at + 4) != 0)
    }

    open spec fn value_error(buf: Seq<u8>, at: int) -> Option<CgfxError> {
        None
    }

    fn read_dict_value(buf: &[u8], at: usize) -> (r: Result<MeshNodeVisibility, CgfxError>) {
        let mut p = at;
        if p > buf.len() || buf.len() - p < 8 {
            return Err(CgfxError::TruncatedInput);
        }
        let name = read_string_pointer(buf, &mut p)?;
        let visible = read_u32(buf, &mut p)? != 0;
        Ok(MeshNodeVisibility { name, visible })
    }

    /// Writes a zero name placeholder and the flag as a 32-bit integer.
    fn write_dict_value(&self, out: &mut Vec<u8>, ctx: &mut WriteContext) -> (r: Result<(), CgfxError>) {
        let ghost before = out@;
        crate::bytes::push_u32(out, 0);
        crate::bytes::push_u32(out, if self.visible { 1 } else { 0 });
        proof {
            let added = crate::bytes::le_u32(0) + crate::bytes::le_u32(if self.visible { 1 } else { 0 });
            assert(out@ =~= before + added);
            crate::bytes::lemma_extends_append(before, added);
            assert forall|lo: int|
                lo <= before.len() && #[trigger] crate::context::refs_within(*old(ctx), lo, before.len() as int)
                    implies crate::context::refs_within(*ctx, lo, out@.len() as int) by {
                crate::context::lemma_within_grow(*ctx, lo, before.len() as int, out@.len() as int);
            }
        }
        Ok(())
    }
}

#[derive(Debug, Clone)]
pub struct CgfxModelCommon {
    pub cgfx_object_header: CgfxObjectHeader,
    pub cgfx_node_header: CgfxNodeHeader,
    pub transform_node_header: CgfxTransform,
    pub meshes: Vec<Mesh>,
    pub materials: Option<CgfxDict<CgfxMaterial>>,
    pub shapes: Vec<Shape>,
    pub mesh_node_visibilities: Option<CgfxDict<MeshNodeVisibility>>,
    pub flags: u32,
    pub face_culling: u32,
    pub layer_id: u32,
}

#[derive(Debug, Clone)]
pub enum CgfxModel {
    Standard(CgfxModelCommon),
    Skeletal(CgfxModelCommon, CgfxSkeleton),
}

/// The tag of a model without a skeleton.
pub const STANDARD_DISCRIMINANT: u32 = 0x4000_0012;

/// The tag of a model with a skeleton.
pub const SKELETAL_DISCRIMINANT: u32 = 0x4000_0092;

/// Whether the optional dictionary of `T` counted at `p` can be read: null,
/// or a dictionary with exactly the counted number of entries.
pub open spec fn counted_dict_ok<T: CgfxCollectionValue>(s: Seq<u8>, p: int) -> bool {
    &&& fits(s, p, 8)
    &&& rel_ptr_at(s, p + 4) matches Some(d) ==> dict_ok::<T>(s, d.0 as int) && u32_at(s, d.0 + 8) == u32_at(s, p)
}

/// Whether `d` is the optional dictionary counted at `p`.
pub open spec fn counted_dict_read_from<T: CgfxCollectionValue>(s: Seq<u8>, p: int, d: Option<CgfxDict<T>>) -> bool {
    match rel_ptr_at(s, p + 4) {
        None => d is None,
        Some(q) => d matches Some(x) && dict_read_from(s, q.0 as int, x),
    }
}

/// Reads a count and a relative pointer to a dictionary that must hold
/// that many entries.
pub fn read_counted_dict<T: CgfxCollectionValue>(buf: &[u8], pos: &mut usize) -> (r: Result<Option<CgfxDict<T>>, CgfxError>)
    ensures
        r is Ok <==> counted_dict_ok::<T>(buf@, *old(pos) as int),
        r matches Ok(d) ==> counted_dict_read_from(buf@, *old(pos) as int, d) && *final(pos) == *old(pos) + 8,
        r is Err ==> *final(pos) == *old(pos),
        fits(buf@, *old(pos) as int, 8) && rel_ptr_at(buf@, *old(pos) + 4) is Some && dict_ok::<T>(
            buf@,
            rel_ptr_at(buf@, *old(pos) + 4)->Some_0.0 as int,
        ) && u32_at(buf@, rel_ptr_at(buf@, *old(pos) + 4)->Some_0.0 + 8) != u32_at(buf@, *old(pos) as int) ==> r
            == Err::<Option<CgfxDict<T>>, CgfxError>(CgfxError::CountMismatch),
{
    let mut p = *pos;
    if p > buf.len() || buf.len() - p < 8 {
        return Err(CgfxError::TruncatedInput);
    }
    let count = read_u32(buf, &mut p)?;
    let pointer = read_relative_pointer(buf, &mut p)?;
    let dict = match pointer {
        Some(d) => {
            let dict = CgfxDict::<T>::from_buffer(buf, d)?;
            if dict.values_count != count {
                return Err(CgfxError::CountMismatch);
            }
            Some(dict)
        },
        None => None,
    };
    *pos = p;
    Ok(dict)
}

/// Whether the parts common to both kinds of model can be read at `p`
/// (which points at the model's tag).
pub open spec fn model_common_ok(s: Seq<u8>, p: int) -> bool {
    &&& fits(s, p, 224)
    &&& object_header_ok(s, p + 4)
    &&& pointer_list_ok(s, p + 180)
    &&& targets_ok::<Mesh>(s, pointer_list_targets(s, p + 180), 0)
    &&& counted_dict_ok::<CgfxMaterial>(s, p + 188)
    &&& pointer_list_ok(s, p + 196)
    &&& shapes_ok(s, pointer_list_targets(s, p + 196))
    &&& counted_dict_ok::<MeshNodeVisibility>(s, p + 204)
}

/// Whether `c` holds the common parts of the model at `p`.
pub open spec fn model_common_read_from(s: Seq<u8>, p: int, c: CgfxModelCommon) -> bool {
    &&& object_header_read_from(s, p + 4, c.cgfx_object_header)
    &&& node_header_read_from(s, p + 24, c.cgfx_node_header)
    &&& c.transform_node_header == transform_at(s, p + 48)
    &&& values_read_from(s, pointer_list_targets(s, p + 180), 0, c.meshes@)
    &&& counted_dict_read_from(s, p + 188, c.materials)
    &&& c.shapes@.len() == pointer_list_targets(s, p + 196).len()
    &&& forall|j: int|
        0 <= j < c.shapes@.len() ==> #[trigger] shape_read_from(
            s,
            pointer_list_targets(s, p + 196)[j].0 as int,
            c.shapes@[j],
        )
    &&& counted_dict_read_from(s, p + 204, c.mesh_node_visibilities)
    &&& c.flags == u32_at(s, p + 212)
    &&& c.face_culling == u32_at(s, p + 216)
    &&& c.layer_id == u32_at(s, p + 220)
}

/// Whether a model can be read at `p`. A skeletal model needs a non-null
/// pointer to its skeleton.
pub open spec fn model_ok(s: Seq<u8>, p: int) -> bool {
    &&& model_common_ok(s, p)
    &&& (u32_at(s, p) == STANDARD_DISCRIMINANT || u32_at(s, p) == SKELETAL_DISCRIMINANT)
    &&& u32_at(s, p) == SKELETAL_DISCRIMINANT ==> fits(s, p + 224, 4) && rel_ptr_at(s, p + 224) is Some
        && skeleton_ok(s, rel_ptr_at(s, p + 224)->Some_0.0 as int)
}

/// Whether `m` holds what the model at `p` stores.
pub open spec fn model_read_from(s: Seq<u8>, p: int, m: CgfxModel) -> bool {
    match m {
        CgfxModel::Standard(c) => u32_at(s, p) == STANDARD_DISCRIMINANT && model_common_read_from(s, p, c),
        CgfxModel::Skeletal(c, k) => u32_at(s, p) == SKELETAL_DISCRIMINANT && model_common_read_from(s, p, c)
            && skeleton_read_from(s, rel_ptr_at(s, p + 224)->Some_0.0 as int, k),
    }
}

/// The common part of a model.
pub open spec fn model_common_of(m: CgfxModel) -> CgfxModelCommon {
    match m {
        CgfxModel::Standard(c) => c,
        CgfxModel::Skeletal(c, _) => c,
    }
}

impl CgfxModel {
    #[verifier::rlimit(80)]
    pub fn from_reader(buf: &[u8], at: usize) -> (r: Result<CgfxModel, CgfxError>)
        ensures
            model_ok(buf@, at as int) ==> r is Ok,
            r matches Ok(m) ==> model_ok(buf@, at as int) && model_read_from(buf@, at as int, m),
            model_common_ok(buf@, at as int) && u32_at(buf@, at as int) == SKELETAL_DISCRIMINANT && fits(buf@, at + 224, 4)
                && rel_ptr_at(buf@, at + 224) is None ==> r == Err::<CgfxModel, CgfxError>(CgfxError::UnexpectedNull),
            model_common_ok(buf@, at as int) && u32_at(buf@, at as int) != STANDARD_DISCRIMINANT && u32_at(buf@, at as int)
                != SKELETAL_DISCRIMINANT ==> r == Err::<CgfxModel, CgfxError>(
                CgfxError::UnknownDiscriminant { offset: at, tag: u32_at(buf@, at as int) as u32 },
            ),
    {
        let mut p = at;
        if p > buf.len() || buf.len() - p < 224 {
            return Err(CgfxError::TruncatedInput);
        }
        let discriminant = read_u32(buf, &mut p)?;
        let cgfx_object_header = CgfxObjectHeader::from_reader(buf, &mut p)?;
        let cgfx_node_header = CgfxNodeHeader::from_reader(buf, &mut p)?;
        let transform_node_header = CgfxTransform::from_reader(buf, &mut p)?;
        let meshes = read_pointer_list::<Mesh>(buf, &mut p)?;
        let materials = read_counted_dict::<CgfxMaterial>(buf, &mut p)?;
        let shape_targets = read_pointer_list_targets(buf, &mut p)?;
        let shapes = read_shapes(buf, &shape_targets)?;
        let mesh_node_visibilities = read_counted_dict::<MeshNodeVisibility>(buf, &mut p)?;
        let flags = read_u32(buf, &mut p)?;
        let face_culling = read_u32(buf, &mut p)?;
        let layer_id = read_u32(buf, &mut p)?;
        let common = CgfxModelCommon {
            cgfx_object_header,
            cgfx_node_header,
            transform_node_header,
            meshes,
            materials,
            shapes,
            mesh_node_visibilities,
            flags,
            face_culling,
            layer_id,
        };
        if discriminant == STANDARD_DISCRIMINANT {
            Ok(CgfxModel::Standard(common))
        } else if discriminant == SKELETAL_DISCRIMINANT {
            let skeleton_pointer = match read_relative_pointer(buf, &mut p)? {
                Some(k) => k,
                None => {
                    return Err(CgfxError::UnexpectedNull);
                },
            };
            let skeleton = CgfxSkeleton::from_reader(buf, skeleton_pointer.0 as usize)?;
            Ok(CgfxModel::Skeletal(common, skeleton))
        } else {
            Err(CgfxError::UnknownDiscriminant { offset: at, tag: discriminant })
        }
    }

    pub fn common(&self) -> (r: &CgfxModelCommon)
        ensures
            *r == model_common_of(*self),
    {
        match self {
            CgfxModel::Standard(common) => common,
            CgfxModel::Skeletal(common, _) => common,
        }
    }
}

impl CgfxModel {
    pub fn common_mut(&mut self) -> (r: &mut CgfxModelCommon)
        ensures
            *r == model_common_of(*old(self)),
            *final(self) == with_model_common(*old(self), *final(r)),
    {
        match self {
            CgfxModel::Standard(common) => common,
            CgfxModel::Skeletal(common, _) => common,
        }
    }
}

/// The model with its common part replaced by `c`.
pub open spec fn with_model_common(m: CgfxModel, c: CgfxModelCommon) -> CgfxModel {
    match m {
        CgfxModel::Standard(_) => CgfxModel::Standard(c),
        CgfxModel::Skeletal(_, k) => CgfxModel::Skeletal(c, k),
    }
}

impl CgfxCollectionValue for CgfxModel {
    open spec fn image_bytes_of(&self) -> Seq<u8> {
        Seq::empty()
    }

    open spec fn value_writable(&self) -> bool {
        false
    }

    open spec fn value_bytes(&self) -> Seq<u8> {
        Seq::empty()
    }

    open spec fn value_ok(buf: Seq<u8>, at: int) -> bool {
        model_ok(buf, at)
    }

    open spec fn value_read_from(buf: Seq<u8>, at: int, v: CgfxModel) -> bool {
        model_read_from(buf, at, v)
    }

    open spec fn value_error(buf: Seq<u8>, at: int) -> Option<CgfxError> {
        if model_common_ok(buf, at) && u32_at(buf, at) != STANDARD_DISCRIMINANT && u32_at(buf, at) != SKELETAL_DISCRIMINANT {
            Some(CgfxError::UnknownDiscriminant { offset: at as usize, tag: u32_at(buf, at) as u32 })
        } else {
            None
        }
    }

    fn read_dict_value(buf: &[u8], at: usize) -> (r: Result<CgfxModel, CgfxError>) {
        CgfxModel::from_reader(buf, at)
    }

    /// Writing models is not implemented.
    fn write_dict_value(&self, out: &mut Vec<u8>, ctx: &mut WriteContext) -> (r: Result<(), CgfxError>) {
        proof {
            crate::bytes::lemma_extends_refl(out@);
        }
        Err(CgfxError::Unsupported)
    }
}

} // verus!
