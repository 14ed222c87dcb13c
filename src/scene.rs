//! What a viewer takes from a model: triangles from the face indices,
//! vertex streams from interleaved buffers, and the texture each material
//! names. Float components stay bit patterns; scaling them is the viewer's
//! business.
use vstd::prelude::*;
use crate::error::CgfxError;
use crate::material::{CgfxMaterial, RgbaColor, rgba_at};
use crate::math::{Vec2, Vec3, vec2_at, vec3_at};
use crate::mesh::{
    AttributeName, Face, FaceDescriptor, GlDataType, Mesh, Shape, SubMesh, VertexBuffer, VertexBufferAttribute, VertexBufferInterleaved,
    gl_byte_size,
};
use crate::model::CgfxModelCommon;

verus! {

/// A decoded image: `width * height` colors.
#[derive(Debug, Clone)]
pub struct BasicImage {
    pub width: u32,
    pub height: u32,
    pub data: Vec<RgbaColor>,
}

/// A material as a viewer draws it.
#[derive(Debug, Clone)]
pub struct BasicMaterial {
    pub diffuse_texture: Option<BasicImage>,
    pub is_transparent: bool,
}

impl BasicMaterial {
    pub fn new(diffuse_texture: Option<BasicImage>, is_transparent: bool) -> (r: BasicMaterial)
        ensures
            r.diffuse_texture == diffuse_texture,
            r.is_transparent == is_transparent,
    {
        BasicMaterial { diffuse_texture, is_transparent }
    }
}

/// The triangle at `k` of an index list read three indices at a time.
pub open spec fn triangle_at(i: Seq<u16>, k: int) -> (u16, u16, u16) {
    (i[3 * k], i[3 * k + 1], i[3 * k + 2])
}

/// Groups indices into triangles; a count that is not a multiple of three
/// is an invalid value.
pub fn triangles_of(indices: &Vec<u16>) -> (r: Result<Vec<(u16, u16, u16)>, CgfxError>)
    ensures
        r is Ok <==> indices@.len() % 3 == 0,
        r matches Ok(t) ==> t@.len() * 3 == indices@.len() && forall|k: int|
            0 <= k < t@.len() ==> #[trigger] t@[k] == triangle_at(indices@, k),
{
    if indices.len() % 3 != 0 {
        return Err(CgfxError::InvalidValue);
    }
    let n = indices.len() / 3;
    let len = indices.len();
    let mut out: Vec<(u16, u16, u16)> = Vec::new();
    let mut k: usize = 0;
    while k < n
        invariant
            len == indices@.len(),
            n * 3 == indices@.len(),
            k <= n,
            out@.len() == k,
            forall|j: int| 0 <= j < k ==> #[trigger] out@[j] == triangle_at(indices@, j),
        decreases n - k,
    {
        out.push((indices[3 * k], indices[3 * k + 1], indices[3 * k + 2]));
        k = k + 1;
    }
    Ok(out)
}

/// Whether every index list of a shape holds whole triangles.
pub open spec fn shape_triangulable(shape: Shape) -> bool {
    forall|i: int, j: int, k: int|
        0 <= i < shape.sub_meshes@.len() && 0 <= j < shape.sub_meshes@[i].faces@.len() && 0 <= k
            < shape.sub_meshes@[i].faces@[j].face_descriptors@.len() ==> #[trigger] shape.sub_meshes@[i].faces@[j].face_descriptors@[k].indices@.len()
            % 3 == 0
}

/// The triangles of one index list.
pub open spec fn index_triangles(i: Seq<u16>) -> Seq<(u16, u16, u16)> {
    Seq::new(i.len() / 3, |k: int| triangle_at(i, k))
}

/// The triangles of the first `n` face descriptors, in order.
pub open spec fn descriptors_triangles(ds: Seq<FaceDescriptor>, n: int) -> Seq<(u16, u16, u16)>
    decreases n,
{
    if n <= 0 {
        Seq::empty()
    } else {
        descriptors_triangles(ds, n - 1) + index_triangles(ds[n - 1].indices@)
    }
}

/// The triangles of the first `n` faces, in order.
pub open spec fn faces_triangles(fs: Seq<Face>, n: int) -> Seq<(u16, u16, u16)>
    decreases n,
{
    if n <= 0 {
        Seq::empty()
    } else {
        faces_triangles(fs, n - 1) + descriptors_triangles(
            fs[n - 1].face_descriptors@,
            fs[n - 1].face_descriptors@.len() as int,
        )
    }
}

/// The triangles of the first `n` sub-meshes, in order.
pub open spec fn sub_meshes_triangles(ms: Seq<SubMesh>, n: int) -> Seq<(u16, u16, u16)>
    decreases n,
{
    if n <= 0 {
        Seq::empty()
    } else {
        sub_meshes_triangles(ms, n - 1) + faces_triangles(ms[n - 1].faces@, ms[n - 1].faces@.len() as int)
    }
}

/// All triangles of a shape, sub-mesh by sub-mesh, face by face.
pub fn shape_triangles(shape: &Shape) -> (r: Result<Vec<(u16, u16, u16)>, CgfxError>)
    ensures
        r is Ok <==> shape_triangulable(*shape),
        r matches Ok(t) ==> t@ == sub_meshes_triangles(shape.sub_meshes@, shape.sub_meshes@.len() as int),
{
    let mut out: Vec<(u16, u16, u16)> = Vec::new();
    let mut i: usize = 0;
    while i < shape.sub_meshes.len()
        invariant
            i <= shape.sub_meshes@.len(),
            out@ == sub_meshes_triangles(shape.sub_meshes@, i as int),
            forall|a: int, b: int, c: int|
                0 <= a < i && 0 <= b < shape.sub_meshes@[a].faces@.len() && 0 <= c
                    < shape.sub_meshes@[a].faces@[b].face_descriptors@.len() ==> #[trigger] shape.sub_meshes@[a].faces@[b].face_descriptors@[c].indices@.len()
                    % 3 == 0,
        decreases shape.sub_meshes@.len() - i,
    {
        let faces = &shape.sub_meshes[i].faces;
        let ghost before_mesh = out@;
        let mut j: usize = 0;
        while j < faces.len()
            invariant
                i < shape.sub_meshes@.len(),
                *faces == shape.sub_meshes@[i as int].faces,
                j <= faces@.len(),
                before_mesh == sub_meshes_triangles(shape.sub_meshes@, i as int),
                out@ == before_mesh + faces_triangles(faces@, j as int),
                forall|a: int, b: int, c: int|
                    0 <= a < i && 0 <= b < shape.sub_meshes@[a].faces@.len() && 0 <= c
                        < shape.sub_meshes@[a].faces@[b].face_descriptors@.len() ==> #[trigger] shape.sub_meshes@[a].faces@[b].face_descriptors@[c].indices@.len()
                        % 3 == 0,
                forall|b: int, c: int|
                    0 <= b < j && 0 <= c < faces@[b].face_descriptors@.len() ==> #[trigger] faces@[b].face_descriptors@[c].indices@.len()
                        % 3 == 0,
            decreases faces@.len() - j,
        {
            let descriptors = &faces[j].face_descriptors;
            let ghost before_face = out@;
            let mut k: usize = 0;
            while k < descriptors.len()
                invariant
                    i < shape.sub_meshes@.len(),
                    *faces == shape.sub_meshes@[i as int].faces,
                    j < faces@.len(),
                    *descriptors == faces@[j as int].face_descriptors,
                    k <= descriptors@.len(),
                    before_face == before_mesh + faces_triangles(faces@, j as int),
                    out@ == before_face + descriptors_triangles(descriptors@, k as int),
                    forall|a: int, b: int, c: int|
                        0 <= a < i && 0 <= b < shape.sub_meshes@[a].faces@.len() && 0 <= c
                            < shape.sub_meshes@[a].faces@[b].face_descriptors@.len() ==> #[trigger] shape.sub_meshes@[a].faces@[b].face_descriptors@[c].indices@.len()
                            % 3 == 0,
                    forall|b: int, c: int|
                        0 <= b < j && 0 <= c < faces@[b].face_descriptors@.len() ==> #[trigger] faces@[b].face_descriptors@[c].indices@.len()
                            % 3 == 0,
                    forall|c: int| 0 <= c < k ==> #[trigger] descriptors@[c].indices@.len() % 3 == 0,
                decreases descriptors@.len() - k,
            {
                let triangles = match triangles_of(&descriptors[k].indices) {
                    Ok(t) => t,
                    Err(e) => {
                        assert(shape.sub_meshes@[i as int].faces@[j as int].face_descriptors@[k as int].indices@.len() % 3 != 0);
                        return Err(e);
                    },
                };
                assert(triangles@ =~= index_triangles(descriptors@[k as int].indices@));
                let ghost before_list = out@;
                let mut t: usize = 0;
                while t < triangles.len()
                    invariant
                        t <= triangles@.len(),
                        out@ == before_list + triangles@.subrange(0, t as int),
                    decreases triangles@.len() - t,
                {
                    out.push(triangles[t]);
                    t = t + 1;
                    assert(out@ =~= before_list + triangles@.subrange(0, t as int));
                }
                assert(triangles@.subrange(0, triangles@.len() as int) =~= triangles@);
                assert(out@ =~= before_face + descriptors_triangles(descriptors@, k + 1));
                k = k + 1;
            }
            assert(out@ =~= before_mesh + faces_triangles(faces@, j + 1));
            j = j + 1;
        }
        assert(out@ =~= sub_meshes_triangles(shape.sub_meshes@, i + 1));
        i = i + 1;
    }
    Ok(out)
}

/// The per-vertex values an interleaved buffer holds, as stored.
#[derive(Debug, Clone)]
pub struct VertexStreams {
    pub positions: Vec<Vec3>,
    pub uvs: Vec<Vec2>,
    pub colors: Vec<RgbaColor>,
}

/// The byte size of one stored component of an attribute, where it has one.
pub open spec fn attribute_size(a: VertexBufferAttribute) -> int {
    gl_byte_size(a.format) * a.elements
}

/// The byte size of one interleaved vertex: the sizes of the first `n` attributes.
pub open spec fn vertex_size(attrs: Seq<VertexBufferAttribute>, n: int) -> int
    decreases n,
{
    if n <= 0 {
        0
    } else {
        vertex_size(attrs, n - 1) + attribute_size(attrs[n - 1])
    }
}

/// Whether an attribute is laid out as the viewer reads it: positions as
/// three floats, first texture coordinates as two floats, colors as four
/// bytes, and no attribute in the `Fixed` format.
pub open spec fn attribute_readable(a: VertexBufferAttribute) -> bool {
    &&& a.format != GlDataType::Fixed
    &&& a.vertex_buffer_common.attribute_name == AttributeName::Position ==> a.elements == 3 && a.format
        == GlDataType::Float
    &&& a.vertex_buffer_common.attribute_name == AttributeName::TexCoord0 ==> a.elements == 2 && a.format
        == GlDataType::Float
    &&& a.vertex_buffer_common.attribute_name == AttributeName::Color ==> a.elements == 4 && a.format
        == GlDataType::UByte
}

/// Vertex sizes grow with the number of attributes counted.
pub proof fn lemma_vertex_size_mono(attrs: Seq<VertexBufferAttribute>, a: int, b: int)
    requires
        0 <= a <= b,
    ensures
        vertex_size(attrs, a) <= vertex_size(attrs, b),
    decreases b - a,
{
    if a < b {
        lemma_vertex_size_mono(attrs, a, b - 1);
        assert(attribute_size(attrs[b - 1]) >= 0) by (nonlinear_arith)
            requires
                gl_byte_size(attrs[b - 1].format) >= 0,
                attrs[b - 1].elements >= 0,
                attribute_size(attrs[b - 1]) == gl_byte_size(attrs[b - 1].format) * attrs[b - 1].elements,
        ;
    }
}

/// How many of the first `n` attributes carry `name`.
pub open spec fn count_named(attrs: Seq<VertexBufferAttribute>, n: int, name: AttributeName) -> int
    decreases n,
{
    if n <= 0 {
        0
    } else {
        count_named(attrs, n - 1, name) + if attrs[n - 1].vertex_buffer_common.attribute_name == name {
            1int
        } else {
            0
        }
    }
}

/// Whether a buffer has a position attribute.
pub open spec fn has_position(attrs: Seq<VertexBufferAttribute>) -> bool {
    exists|j: int| 0 <= j < attrs.len() && #[trigger] attrs[j].vertex_buffer_common.attribute_name == AttributeName::Position
}

/// The positions that the first `j` attributes of the vertex at `base` hold.
pub open spec fn vertex_positions(raw: Seq<u8>, attrs: Seq<VertexBufferAttribute>, base: int, j: int) -> Seq<Vec3>
    decreases j,
{
    if j <= 0 {
        Seq::empty()
    } else {
        vertex_positions(raw, attrs, base, j - 1) + if attrs[j - 1].vertex_buffer_common.attribute_name
            == AttributeName::Position {
            seq![vec3_at(raw, base + vertex_size(attrs, j - 1))]
        } else {
            Seq::empty()
        }
    }
}

/// The first texture coordinates that the first `j` attributes of the vertex at `base` hold.
pub open spec fn vertex_uvs(raw: Seq<u8>, attrs: Seq<VertexBufferAttribute>, base: int, j: int) -> Seq<Vec2>
    decreases j,
{
    if j <= 0 {
        Seq::empty()
    } else {
        vertex_uvs(raw, attrs, base, j - 1) + if attrs[j - 1].vertex_buffer_common.attribute_name
            == AttributeName::TexCoord0 {
            seq![vec2_at(raw, base + vertex_size(attrs, j - 1))]
        } else {
            Seq::empty()
        }
    }
}

/// The colors that the first `j` attributes of the vertex at `base` hold.
pub open spec fn vertex_colors(raw: Seq<u8>, attrs: Seq<VertexBufferAttribute>, base: int, j: int) -> Seq<RgbaColor>
    decreases j,
{
    if j <= 0 {
        Seq::empty()
    } else {
        vertex_colors(raw, attrs, base, j - 1) + if attrs[j - 1].vertex_buffer_common.attribute_name
            == AttributeName::Color {
            seq![rgba_at(raw, base + vertex_size(attrs, j - 1))]
        } else {
            Seq::empty()
        }
    }
}

/// The positions of the first `v` vertices of `size` bytes each.
pub open spec fn positions_upto(raw: Seq<u8>, attrs: Seq<VertexBufferAttribute>, size: int, v: int) -> Seq<Vec3>
    decreases v,
{
    if v <= 0 {
        Seq::empty()
    } else {
        positions_upto(raw, attrs, size, v - 1) + vertex_positions(raw, attrs, (v - 1) * size, attrs.len() as int)
    }
}

/// The first texture coordinates of the first `v` vertices.
pub open spec fn uvs_upto(raw: Seq<u8>, attrs: Seq<VertexBufferAttribute>, size: int, v: int) -> Seq<Vec2>
    decreases v,
{
    if v <= 0 {
        Seq::empty()
    } else {
        uvs_upto(raw, attrs, size, v - 1) + vertex_uvs(raw, attrs, (v - 1) * size, attrs.len() as int)
    }
}

/// The colors of the first `v` vertices.
pub open spec fn colors_upto(raw: Seq<u8>, attrs: Seq<VertexBufferAttribute>, size: int, v: int) -> Seq<RgbaColor>
    decreases v,
{
    if v <= 0 {
        Seq::empty()
    } else {
        colors_upto(raw, attrs, size, v - 1) + vertex_colors(raw, attrs, (v - 1) * size, attrs.len() as int)
    }
}

/// The number of whole vertices in an interleaved buffer.
pub open spec fn vertex_count(vb: VertexBufferInterleaved) -> int {
    vb.raw_bytes@.len() as int / vertex_size(vb.attributes@, vb.attributes@.len() as int)
}

/// The positions a viewer takes from an interleaved buffer: none without a
/// position attribute.
pub open spec fn interleaved_positions(vb: VertexBufferInterleaved) -> Seq<Vec3> {
    if has_position(vb.attributes@) {
        positions_upto(vb.raw_bytes@, vb.attributes@, vertex_size(vb.attributes@, vb.attributes@.len() as int), vertex_count(vb))
    } else {
        Seq::empty()
    }
}

/// The first texture coordinates a viewer takes from an interleaved buffer.
pub open spec fn interleaved_uvs(vb: VertexBufferInterleaved) -> Seq<Vec2> {
    if has_position(vb.attributes@) {
        uvs_upto(vb.raw_bytes@, vb.attributes@, vertex_size(vb.attributes@, vb.attributes@.len() as int), vertex_count(vb))
    } else {
        Seq::empty()
    }
}

/// The colors a viewer takes from an interleaved buffer.
pub open spec fn interleaved_colors(vb: VertexBufferInterleaved) -> Seq<RgbaColor> {
    if has_position(vb.attributes@) {
        colors_upto(vb.raw_bytes@, vb.attributes@, vertex_size(vb.attributes@, vb.attributes@.len() as int), vertex_count(vb))
    } else {
        Seq::empty()
    }
}

/// Whether a viewer can read an interleaved buffer: it has no position
/// attribute, or all its attributes are laid out as read and a vertex has a
/// size that is positive and fits 32 bits.
pub open spec fn interleaved_readable(vb: VertexBufferInterleaved) -> bool {
    has_position(vb.attributes@) ==> (forall|j: int|
        0 <= j < vb.attributes@.len() ==> #[trigger] attribute_readable(vb.attributes@[j])) && 0 < vertex_size(
        vb.attributes@,
        vb.attributes@.len() as int,
    ) <= u32::MAX
}

/// Reads the positions, first texture coordinates and colors of every vertex
/// of an interleaved buffer that has a position attribute; a buffer without
/// one gives no values. Vertices are the whole multiples of the vertex size
/// in the raw bytes.
pub fn interleaved_vertices(vb: &VertexBufferInterleaved) -> (r: Result<VertexStreams, CgfxError>)
    ensures
        r is Ok && !has_position(vb.attributes@) ==> r->Ok_0.positions@.len() == 0 && r->Ok_0.uvs@.len() == 0
            && r->Ok_0.colors@.len() == 0,
        interleaved_readable(*vb) ==> r is Ok,
        r matches Ok(st) ==> st.positions@ == interleaved_positions(*vb) && st.uvs@ == interleaved_uvs(*vb)
            && st.colors@ == interleaved_colors(*vb),
        has_position(vb.attributes@) && (exists|j: int|
            0 <= j < vb.attributes@.len() && !#[trigger] attribute_readable(vb.attributes@[j])) ==> r is Err,
        has_position(vb.attributes@) && (forall|j: int|
            0 <= j < vb.attributes@.len() ==> #[trigger] attribute_readable(vb.attributes@[j]))
            && 0 < vertex_size(vb.attributes@, vb.attributes@.len() as int) <= u32::MAX ==> r is Ok,
        r is Ok && has_position(vb.attributes@) ==> {
            let n = vb.attributes@.len() as int;
            let count = vb.raw_bytes@.len() as int / vertex_size(vb.attributes@, n);
            &&& r->Ok_0.positions@.len() == count * count_named(vb.attributes@, n, AttributeName::Position)
            &&& r->Ok_0.uvs@.len() == count * count_named(vb.attributes@, n, AttributeName::TexCoord0)
            &&& r->Ok_0.colors@.len() == count * count_named(vb.attributes@, n, AttributeName::Color)
        },
{
    let empty = VertexStreams { positions: Vec::new(), uvs: Vec::new(), colors: Vec::new() };
    let attrs = &vb.attributes;
    let mut found = false;
    let mut j: usize = 0;
    while j < attrs.len()
        invariant
            j <= attrs@.len(),
            found <==> exists|a: int| 0 <= a < j && #[trigger] attrs@[a].vertex_buffer_common.attribute_name == AttributeName::Position,
        decreases attrs@.len() - j,
    {
        if attrs[j].vertex_buffer_common.attribute_name == AttributeName::Position {
            found = true;
        }
        j = j + 1;
    }
    if !found {
        return Ok(empty);
    }
    let mut size: u64 = 0;
    let mut j: usize = 0;
    while j < attrs.len()
        invariant
            j <= attrs@.len(),
            attrs@ == vb.attributes@,
            has_position(vb.attributes@),
            size == vertex_size(attrs@, j as int),
            size <= 0xFFFF_FFFF,
            forall|a: int| 0 <= a < j ==> #[trigger] attribute_readable(attrs@[a]),
        decreases attrs@.len() - j,
    {
        let a = &attrs[j];
        if !attribute_fits_viewer(a) {
            return Err(CgfxError::InvalidValue);
        }
        proof {
            lemma_vertex_size_mono(attrs@, j + 1, attrs@.len() as int);
        }
        let part = attribute_bytes(a);
        if part > 0xFFFF_FFFF - size {
            return Err(CgfxError::InvalidValue);
        }
        size = size + part;
        j = j + 1;
    }
    if size == 0 {
        return Err(CgfxError::InvalidValue);
    }
    let raw = vb.raw_bytes.as_slice();
    let count = raw.len() as u64 / size;
    let mut streams = empty;
    let mut p: usize = 0;
    let ghost n = attrs@.len() as int;
    proof {
        assert(count * size <= raw@.len()) by (nonlinear_arith)
            requires
                count == raw@.len() as int / size as int,
                size > 0,
        ;
    }
    let mut v: u64 = 0;
    while v < count
        invariant
            v <= count,
            n == attrs@.len(),
            size == vertex_size(attrs@, n),
            size > 0,
            count * size <= raw@.len(),
            p == v * size,
            forall|a: int| 0 <= a < n ==> #[trigger] attribute_readable(attrs@[a]),
            count == raw@.len() as int / vertex_size(attrs@, n),
            streams.positions@.len() == v * count_named(attrs@, n, AttributeName::Position),
            streams.uvs@.len() == v * count_named(attrs@, n, AttributeName::TexCoord0),
            streams.colors@.len() == v * count_named(attrs@, n, AttributeName::Color),
            raw@ == vb.raw_bytes@,
            attrs@ == vb.attributes@,
            streams.positions@ == positions_upto(raw@, attrs@, size as int, v as int),
            streams.uvs@ == uvs_upto(raw@, attrs@, size as int, v as int),
            streams.colors@ == colors_upto(raw@, attrs@, size as int, v as int),
        decreases count - v,
    {
        proof {
            assert((v + 1) * size <= count * size) by (nonlinear_arith)
                requires
                    v < count,
                    size > 0,
            ;
        }
        let mut j: usize = 0;
        while j < attrs.len()
            invariant
                j <= attrs@.len(),
                n == attrs@.len(),
                v < count,
                size == vertex_size(attrs@, n),
                (v + 1) * size <= raw@.len(),
                p == v * size + vertex_size(attrs@, j as int),
                forall|a: int| 0 <= a < n ==> #[trigger] attribute_readable(attrs@[a]),
                streams.positions@.len() == v * count_named(attrs@, n, AttributeName::Position)
                    + count_named(attrs@, j as int, AttributeName::Position),
                streams.uvs@.len() == v * count_named(attrs@, n, AttributeName::TexCoord0)
                    + count_named(attrs@, j as int, AttributeName::TexCoord0),
                streams.colors@.len() == v * count_named(attrs@, n, AttributeName::Color)
                    + count_named(attrs@, j as int, AttributeName::Color),
                streams.positions@ == positions_upto(raw@, attrs@, size as int, v as int) + vertex_positions(
                    raw@,
                    attrs@,
                    v * size,
                    j as int,
                ),
                streams.uvs@ == uvs_upto(raw@, attrs@, size as int, v as int) + vertex_uvs(raw@, attrs@, v * size, j as int),
                streams.colors@ == colors_upto(raw@, attrs@, size as int, v as int) + vertex_colors(
                    raw@,
                    attrs@,
                    v * size,
                    j as int,
                ),
            decreases attrs@.len() - j,
        {
            let a = &attrs[j];
            proof {
                lemma_vertex_size_mono(attrs@, j + 1, n);
                assert(attribute_readable(attrs@[j as int]));
                assert(v * size + size == (v + 1) * size) by (nonlinear_arith);
            }
            match a.vertex_buffer_common.attribute_name {
                AttributeName::Position => {
                    let position = Vec3::from_reader(raw, &mut p)?;
                    streams.positions.push(position);
                },
                AttributeName::TexCoord0 => {
                    let uv = Vec2::from_reader(raw, &mut p)?;
                    streams.uvs.push(uv);
                },
                AttributeName::Color => {
                    let color = crate::material::RgbaColor::from_reader(raw, &mut p)?;
                    streams.colors.push(color);
                },
                _ => {
                    if a.format == GlDataType::Fixed {
                        return Err(CgfxError::InvalidValue);
                    }
                    let skip = attribute_bytes(a);
                    if skip > raw.len() as u64 || p > raw.len() - skip as usize {
                        return Err(CgfxError::TruncatedInput);
                    }
                    p = p + skip as usize;
                },
            }
            proof {
                assert(streams.positions@ =~= positions_upto(raw@, attrs@, size as int, v as int) + vertex_positions(
                    raw@,
                    attrs@,
                    v * size,
                    j + 1,
                ));
                assert(streams.uvs@ =~= uvs_upto(raw@, attrs@, size as int, v as int) + vertex_uvs(raw@, attrs@, v * size, j + 1));
                assert(streams.colors@ =~= colors_upto(raw@, attrs@, size as int, v as int) + vertex_colors(
                    raw@,
                    attrs@,
                    v * size,
                    j + 1,
                ));
            }
            j = j + 1;
        }
        proof {
            assert((v + 1 - 1) * size == v * size);
            assert(streams.positions@ =~= positions_upto(raw@, attrs@, size as int, v + 1));
            assert(streams.uvs@ =~= uvs_upto(raw@, attrs@, size as int, v + 1));
            assert(streams.colors@ =~= colors_upto(raw@, attrs@, size as int, v + 1));
            assert(v * size + size == (v + 1) * size) by (nonlinear_arith);
            assert(streams.positions@.len() == (v + 1) * count_named(attrs@, n, AttributeName::Position)) by (nonlinear_arith)
                requires
                    streams.positions@.len() == v * count_named(attrs@, n, AttributeName::Position)
                        + count_named(attrs@, n, AttributeName::Position),
            ;
            assert(streams.uvs@.len() == (v + 1) * count_named(attrs@, n, AttributeName::TexCoord0)) by (nonlinear_arith)
                requires
                    streams.uvs@.len() == v * count_named(attrs@, n, AttributeName::TexCoord0)
                        + count_named(attrs@, n, AttributeName::TexCoord0),
            ;
            assert(streams.colors@.len() == (v + 1) * count_named(attrs@, n, AttributeName::Color)) by (nonlinear_arith)
                requires
                    streams.colors@.len() == v * count_named(attrs@, n, AttributeName::Color)
                        + count_named(attrs@, n, AttributeName::Color),
            ;
        }
        v = v + 1;
    }
    Ok(streams)
}

/// The byte size of an attribute in an interleaved vertex.
fn attribute_bytes(a: &VertexBufferAttribute) -> (r: u64)
    requires
        a.format != GlDataType::Fixed,
    ensures
        r == attribute_size(*a),
{
    let size = a.format.byte_size() as u64;
    let elements = a.elements as u64;
    assert(size * elements <= 4 * 0xFFFF_FFFF) by (nonlinear_arith)
        requires
            size <= 4,
            elements <= 0xFFFF_FFFF,
    ;
    size * elements
}

/// Whether an attribute is laid out as the viewer reads it.
fn attribute_fits_viewer(a: &VertexBufferAttribute) -> (r: bool)
    ensures
        r == attribute_readable(*a),
{
    if a.format == GlDataType::Fixed {
        return false;
    }
    match a.vertex_buffer_common.attribute_name {
        AttributeName::Position => a.elements == 3 && a.format == GlDataType::Float,
        AttributeName::TexCoord0 => a.elements == 2 && a.format == GlDataType::Float,
        AttributeName::Color => a.elements == 4 && a.format == GlDataType::UByte,
        _ => true,
    }
}

/// Appends all of `src` to `dst`.
fn push_all<T: Copy>(dst: &mut Vec<T>, src: &Vec<T>)
    ensures
        final(dst)@ == old(dst)@ + src@,
{
    let mut i: usize = 0;
    while i < src.len()
        invariant
            i <= src@.len(),
            dst@ == old(dst)@ + src@.subrange(0, i as int),
        decreases src@.len() - i,
    {
        dst.push(src[i]);
        i = i + 1;
        assert(dst@ =~= old(dst)@ + src@.subrange(0, i as int));
    }
    assert(src@.subrange(0, src@.len() as int) =~= src@);
}

/// The drawable geometry of one mesh, with float components as stored.
#[derive(Debug, Clone)]
pub struct MeshGeometry {
    pub vertex_positions: Vec<Vec3>,
    pub vertex_uvs: Vec<Vec2>,
    pub vertex_colors: Vec<RgbaColor>,
    pub faces: Vec<(u16, u16, u16)>,
    pub center: Vec3,
    pub material_id: u32,
}

/// Whether a viewer can take a vertex buffer: not a separate position or
/// first texture coordinate buffer, and an interleaved buffer it can read.
pub open spec fn buffer_viewable(vb: VertexBuffer) -> bool {
    match vb {
        VertexBuffer::Attribute(a) => a.vertex_buffer_common.attribute_name != AttributeName::Position
            && a.vertex_buffer_common.attribute_name != AttributeName::TexCoord0,
        VertexBuffer::Interleaved(v) => interleaved_readable(v),
        VertexBuffer::Fixed(_) => true,
    }
}

/// The positions of the first `i` vertex buffers, in order.
pub open spec fn buffers_positions(vbs: Seq<VertexBuffer>, i: int) -> Seq<Vec3>
    decreases i,
{
    if i <= 0 {
        Seq::empty()
    } else {
        buffers_positions(vbs, i - 1) + match vbs[i - 1] {
            VertexBuffer::Interleaved(v) => interleaved_positions(v),
            _ => Seq::empty(),
        }
    }
}

/// The first texture coordinates of the first `i` vertex buffers, in order.
pub open spec fn buffers_uvs(vbs: Seq<VertexBuffer>, i: int) -> Seq<Vec2>
    decreases i,
{
    if i <= 0 {
        Seq::empty()
    } else {
        buffers_uvs(vbs, i - 1) + match vbs[i - 1] {
            VertexBuffer::Interleaved(v) => interleaved_uvs(v),
            _ => Seq::empty(),
        }
    }
}

/// The colors of the first `i` vertex buffers, in order.
pub open spec fn buffers_colors(vbs: Seq<VertexBuffer>, i: int) -> Seq<RgbaColor>
    decreases i,
{
    if i <= 0 {
        Seq::empty()
    } else {
        buffers_colors(vbs, i - 1) + match vbs[i - 1] {
            VertexBuffer::Interleaved(v) => interleaved_colors(v),
            _ => Seq::empty(),
        }
    }
}

/// The geometry of `mesh`: the vertices of its shape's interleaved buffers,
/// the triangles of its faces, the center of the shape's bounding box, and
/// its material index offset by `start_material_id`. A mesh with a render
/// priority, a shape index out of range, a shape without a bounding box or
/// a material index that overflows is refused; separate position or
/// texture coordinate buffers are not supported.
pub fn mesh_geometry(common: &CgfxModelCommon, mesh: &Mesh, start_material_id: u32) -> (r: Result<MeshGeometry, CgfxError>)
    ensures
        mesh.render_priority != 0 ==> r == Err::<MeshGeometry, CgfxError>(CgfxError::InvalidValue),
        mesh.render_priority == 0 && mesh.shape_index >= common.shapes@.len() ==> r == Err::<MeshGeometry, CgfxError>(
            CgfxError::InvalidValue,
        ),
        mesh.render_priority == 0 && mesh.shape_index < common.shapes@.len() && {
            let shape = common.shapes@[mesh.shape_index as int];
            &&& forall|i: int| 0 <= i < shape.vertex_buffers@.len() ==> #[trigger] buffer_viewable(shape.vertex_buffers@[i])
            &&& shape_triangulable(shape)
            &&& shape.bounding_box is Some
            &&& mesh.material_index + start_material_id <= u32::MAX
        } ==> r is Ok,
        r matches Ok(g) ==> {
            let shape = common.shapes@[mesh.shape_index as int];
            &&& g.vertex_positions@ == buffers_positions(shape.vertex_buffers@, shape.vertex_buffers@.len() as int)
            &&& g.vertex_uvs@ == buffers_uvs(shape.vertex_buffers@, shape.vertex_buffers@.len() as int)
            &&& g.vertex_colors@ == buffers_colors(shape.vertex_buffers@, shape.vertex_buffers@.len() as int)
            &&& g.material_id == mesh.material_index + start_material_id
            &&& shape.bounding_box matches Some(b) && g.center == b.center
            &&& shape_triangulable(shape)
            &&& g.faces@ == sub_meshes_triangles(shape.sub_meshes@, shape.sub_meshes@.len() as int)
        },
{
    if mesh.render_priority != 0 {
        return Err(CgfxError::InvalidValue);
    }
    if mesh.shape_index as usize >= common.shapes.len() {
        return Err(CgfxError::InvalidValue);
    }
    let shape = &common.shapes[mesh.shape_index as usize];
    let mut vertex_positions: Vec<Vec3> = Vec::new();
    let mut vertex_uvs: Vec<Vec2> = Vec::new();
    let mut vertex_colors: Vec<RgbaColor> = Vec::new();
    let mut i: usize = 0;
    while i < shape.vertex_buffers.len()
        invariant
            i <= shape.vertex_buffers@.len(),
            mesh.render_priority == 0,
            mesh.shape_index < common.shapes@.len(),
            *shape == common.shapes@[mesh.shape_index as int],
            vertex_positions@ == buffers_positions(shape.vertex_buffers@, i as int),
            vertex_uvs@ == buffers_uvs(shape.vertex_buffers@, i as int),
            vertex_colors@ == buffers_colors(shape.vertex_buffers@, i as int),
        decreases shape.vertex_buffers@.len() - i,
    {
        match &shape.vertex_buffers[i] {
            VertexBuffer::Attribute(a) => {
                if a.vertex_buffer_common.attribute_name == AttributeName::Position
                    || a.vertex_buffer_common.attribute_name == AttributeName::TexCoord0 {
                    assert(!buffer_viewable(shape.vertex_buffers@[i as int]));
                    return Err(CgfxError::Unsupported);
                }
            },
            VertexBuffer::Interleaved(vb) => {
                let streams = match interleaved_vertices(vb) {
                    Ok(st) => st,
                    Err(e) => {
                        assert(!buffer_viewable(shape.vertex_buffers@[i as int]));
                        return Err(e);
                    },
                };
                push_all(&mut vertex_positions, &streams.positions);
                push_all(&mut vertex_uvs, &streams.uvs);
                push_all(&mut vertex_colors, &streams.colors);
            },
            VertexBuffer::Fixed(_) => {},
        }
        assert(vertex_positions@ =~= buffers_positions(shape.vertex_buffers@, i + 1));
        assert(vertex_uvs@ =~= buffers_uvs(shape.vertex_buffers@, i + 1));
        assert(vertex_colors@ =~= buffers_colors(shape.vertex_buffers@, i + 1));
        i = i + 1;
    }
    let faces = shape_triangles(shape)?;
    let center = match &shape.bounding_box {
        Some(b) => b.center,
        None => {
            return Err(CgfxError::UnexpectedNull);
        },
    };
    let material_id = match mesh.material_index.checked_add(start_material_id) {
        Some(m) => m,
        None => {
            return Err(CgfxError::InvalidValue);
        },
    };
    Ok(MeshGeometry { vertex_positions, vertex_uvs, vertex_colors, faces, center, material_id })
}

/// The path of the texture that the first texture mapper of a material
/// refers to, if the material has a mapper. A material on another render
/// layer is refused; a mapper without a texture reference, or a reference
/// without a path, is an unexpected null.
pub fn first_texture_path(material: &CgfxMaterial) -> (r: Result<Option<String>, CgfxError>)
    ensures
        material.render_layer != 0 ==> r == Err::<Option<String>, CgfxError>(CgfxError::InvalidValue),
        material.render_layer == 0 && (forall|k: int| 0 <= k < material.texture_mappers@.len()
            ==> #[trigger] material.texture_mappers@[k] is None) ==> r == Ok::<Option<String>, CgfxError>(None),
        r == Ok::<Option<String>, CgfxError>(None) ==> forall|k: int|
            0 <= k < material.texture_mappers@.len() ==> #[trigger] material.texture_mappers@[k] is None,
        r matches Ok(Some(p)) ==> exists|k: int|
            0 <= k < material.texture_mappers@.len() && (#[trigger] material.texture_mappers@[k] matches Some(m)
                && (m.texture matches Some(t) && t.path == Some(p))),
{
    if material.render_layer != 0 {
        return Err(CgfxError::InvalidValue);
    }
    let mut k: usize = 0;
    while k < material.texture_mappers.len()
        invariant
            k <= material.texture_mappers@.len(),
            material.render_layer == 0,
            forall|j: int| 0 <= j < k ==> #[trigger] material.texture_mappers@[j] is None,
        decreases material.texture_mappers@.len() - k,
    {
        match &material.texture_mappers[k] {
            Some(mapper) => {
                let texture = match &mapper.texture {
                    Some(t) => t,
                    None => {
                        return Err(CgfxError::UnexpectedNull);
                    },
                };
                let path = match &texture.path {
                    Some(p) => p.clone(),
                    None => {
                        return Err(CgfxError::UnexpectedNull);
                    },
                };
                return Ok(Some(path));
            },
            None => {},
        }
        k = k + 1;
    }
    Ok(None)
}

/// The pixel bytes of an image as a GPU takes them: four bytes per pixel
/// when the image is drawn with transparency, else the first three.
pub fn image_pixel_bytes(image: &BasicImage, transparent: bool) -> (r: Vec<u8>)
    ensures
        transparent ==> r@.len() == 4 * image.data@.len() && forall|k: int|
            0 <= k < image.data@.len() ==> #[trigger] image.data@[k] == (RgbaColor {
                r: r@[4 * k],
                g: r@[4 * k + 1],
                b: r@[4 * k + 2],
                a: r@[4 * k + 3],
            }),
        !transparent ==> r@.len() == 3 * image.data@.len() && forall|k: int|
            0 <= k < image.data@.len() ==> (#[trigger] image.data@[k]).r == r@[3 * k] && image.data@[k].g
                == r@[3 * k + 1] && image.data@[k].b == r@[3 * k + 2],
{
    if transparent {
        rgba_bytes(&image.data)
    } else {
        rgb_bytes(&image.data)
    }
}

fn rgba_bytes(data: &Vec<RgbaColor>) -> (r: Vec<u8>)
    ensures
        r@.len() == 4 * data@.len(),
        forall|k: int|
            0 <= k < data@.len() ==> #[trigger] data@[k] == (RgbaColor {
                r: r@[4 * k],
                g: r@[4 * k + 1],
                b: r@[4 * k + 2],
                a: r@[4 * k + 3],
            }),
{
    let mut out: Vec<u8> = Vec::new();
    let mut k: usize = 0;
    while k < data.len()
        invariant
            k <= data@.len(),
            out@.len() == 4 * k,
            forall|j: int|
                0 <= j < k ==> #[trigger] data@[j] == (RgbaColor {
                    r: out@[4 * j],
                    g: out@[4 * j + 1],
                    b: out@[4 * j + 2],
                    a: out@[4 * j + 3],
                }),
        decreases data@.len() - k,
    {
        let c = data[k];
        out.push(c.r);
        out.push(c.g);
        out.push(c.b);
        out.push(c.a);
        k = k + 1;
    }
    out
}

fn rgb_bytes(data: &Vec<RgbaColor>) -> (r: Vec<u8>)
    ensures
        r@.len() == 3 * data@.len(),
        forall|k: int|
            0 <= k < data@.len() ==> (#[trigger] data@[k]).r == r@[3 * k] && data@[k].g == r@[3 * k + 1]
                && data@[k].b == r@[3 * k + 2],
{
    let mut out: Vec<u8> = Vec::new();
    let mut k: usize = 0;
    while k < data.len()
        invariant
            k <= data@.len(),
            out@.len() == 3 * k,
            forall|j: int|
                0 <= j < k ==> (#[trigger] data@[j]).r == out@[3 * j] && data@[j].g == out@[3 * j + 1]
                    && data@[j].b == out@[3 * j + 2],
        decreases data@.len() - k,
    {
        let c = data[k];
        out.push(c.r);
        out.push(c.g);
        out.push(c.b);
        k = k + 1;
    }
    out
}

/// The triangle list flattened to indices, three per triangle.
pub fn triangle_indices(faces: &Vec<(u16, u16, u16)>) -> (r: Vec<u16>)
    ensures
        r@.len() == 3 * faces@.len(),
        forall|k: int|
            0 <= k < faces@.len() ==> #[trigger] faces@[k] == (r@[3 * k], r@[3 * k + 1], r@[3 * k + 2]),
{
    let mut out: Vec<u16> = Vec::new();
    let mut k: usize = 0;
    while k < faces.len()
        invariant
            k <= faces@.len(),
            out@.len() == 3 * k,
            forall|j: int| 0 <= j < k ==> #[trigger] faces@[j] == (out@[3 * j], out@[3 * j + 1], out@[3 * j + 2]),
        decreases faces@.len() - k,
    {
        let (a, b, c) = faces[k];
        out.push(a);
        out.push(b);
        out.push(c);
        k = k + 1;
    }
    out
}

/// The positions flattened to float bit patterns, three per vertex.
pub fn position_components(positions: &Vec<Vec3>) -> (r: Vec<u32>)
    ensures
        r@.len() == 3 * positions@.len(),
        forall|k: int|
            0 <= k < positions@.len() ==> #[trigger] positions@[k] == (Vec3 { x: r@[3 * k], y: r@[3 * k + 1], z: r@[3 * k + 2] }),
{
    let mut out: Vec<u32> = Vec::new();
    let mut k: usize = 0;
    while k < positions.len()
        invariant
            k <= positions@.len(),
            out@.len() == 3 * k,
            forall|j: int|
                0 <= j < k ==> #[trigger] positions@[j] == (Vec3 { x: out@[3 * j], y: out@[3 * j + 1], z: out@[3 * j + 2] }),
        decreases positions@.len() - k,
    {
        let p = positions[k];
        out.push(p.x);
        out.push(p.y);
        out.push(p.z);
        k = k + 1;
    }
    out
}

} // verus!
