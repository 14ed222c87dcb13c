//! Textures: common metadata and either one 2D image or the six faces of a
//! cube map. Image records point into the file's image section.
use vstd::prelude::*;
use vstd::utf8::encode_utf8;
use crate::bytes::{
    extends, fits, le_u32, lemma_extends_append, lemma_extends_refl, push_u32, read_bytes, read_relative_pointer,
    read_u32, rel_ptr_at, u32_at,
};
use crate::context::{WriteContext, find_sub, insert_entry, lemma_insert_within, lemma_within_grow, refs_within};
use crate::dict::CgfxCollectionValue;
use crate::error::CgfxError;
use crate::pointer::Pointer;
use crate::records::{CgfxObjectHeader, object_header_bytes, object_header_ok, object_header_read_from};

verus! {

broadcast use {crate::bytes::lemma_le_u32_len, crate::bytes::lemma_le_u16_len};

/// The texture tag of a 2D image.
pub const IMAGE_DISCRIMINANT: u32 = 0x2000_0011;

/// The texture tag of a cube map.
pub const CUBE_DISCRIMINANT: u32 = 0x2000_0009;

/// The console GPU's pixel formats.
#[derive(Debug, Clone, Copy, PartialEq, Eq, Structural)]
pub enum PicaTextureFormat {
    RGBA8,
    RGB8,
    RGBA5551,
    RGB565,
    RGBA4,
    LA8,
    HiLo8,
    L8,
    A8,
    LA4,
    L4,
    A4,
    ETC1,
    ETC1A4,
}

/// The stored code of each format, in declaration order from zero.
pub open spec fn format_code(f: PicaTextureFormat) -> u32 {
    match f {
        PicaTextureFormat::RGBA8 => 0,
        PicaTextureFormat::RGB8 => 1,
        PicaTextureFormat::RGBA5551 => 2,
        PicaTextureFormat::RGB565 => 3,
        PicaTextureFormat::RGBA4 => 4,
        PicaTextureFormat::LA8 => 5,
        PicaTextureFormat::HiLo8 => 6,
        PicaTextureFormat::L8 => 7,
        PicaTextureFormat::A8 => 8,
        PicaTextureFormat::LA4 => 9,
        PicaTextureFormat::L4 => 10,
        PicaTextureFormat::A4 => 11,
        PicaTextureFormat::ETC1 => 12,
        PicaTextureFormat::ETC1A4 => 13,
    }
}

/// The format with stored code `v`, if there is one.
pub open spec fn format_of_code(v: u32) -> Option<PicaTextureFormat> {
    if v == 0 {
        Some(PicaTextureFormat::RGBA8)
    } else if v == 1 {
        Some(PicaTextureFormat::RGB8)
    } else if v == 2 {
        Some(PicaTextureFormat::RGBA5551)
    } else if v == 3 {
        Some(PicaTextureFormat::RGB565)
    } else if v == 4 {
        Some(PicaTextureFormat::RGBA4)
    } else if v == 5 {
        Some(PicaTextureFormat::LA8)
    } else if v == 6 {
        Some(PicaTextureFormat::HiLo8)
    } else if v == 7 {
        Some(PicaTextureFormat::L8)
    } else if v == 8 {
        Some(PicaTextureFormat::A8)
    } else if v == 9 {
        Some(PicaTextureFormat::LA4)
    } else if v == 10 {
        Some(PicaTextureFormat::L4)
    } else if v == 11 {
        Some(PicaTextureFormat::A4)
    } else if v == 12 {
        Some(PicaTextureFormat::ETC1)
    } else if v == 13 {
        Some(PicaTextureFormat::ETC1A4)
    } else {
        None
    }
}

/// Bits per pixel of each format.
pub open spec fn bpp_of(f: PicaTextureFormat) -> u32 {
    match f {
        PicaTextureFormat::RGBA8 => 32,
        PicaTextureFormat::RGB8 => 24,
        PicaTextureFormat::RGBA5551 => 16,
        PicaTextureFormat::RGB565 => 16,
        PicaTextureFormat::RGBA4 => 16,
        PicaTextureFormat::LA8 => 16,
        PicaTextureFormat::HiLo8 => 16,
        PicaTextureFormat::L8 => 8,
        PicaTextureFormat::A8 => 8,
        PicaTextureFormat::LA4 => 8,
        PicaTextureFormat::L4 => 4,
        PicaTextureFormat::A4 => 4,
        PicaTextureFormat::ETC1 => 4,
        PicaTextureFormat::ETC1A4 => 8,
    }
}

impl PicaTextureFormat {
    pub fn get_bpp(&self) -> (r: u32)
        ensures
            r == bpp_of(*self),
    {
        match self {
            PicaTextureFormat::RGBA8 => 32,
            PicaTextureFormat::RGB8 => 24,
            PicaTextureFormat::RGBA5551 => 16,
            PicaTextureFormat::RGB565 => 16,
            PicaTextureFormat::RGBA4 => 16,
            PicaTextureFormat::LA8 => 16,
            PicaTextureFormat::HiLo8 => 16,
            PicaTextureFormat::L8 => 8,
            PicaTextureFormat::A8 => 8,
            PicaTextureFormat::LA4 => 8,
            PicaTextureFormat::L4 => 4,
            PicaTextureFormat::A4 => 4,
            PicaTextureFormat::ETC1 => 4,
            PicaTextureFormat::ETC1A4 => 8,
        }
    }

    pub fn code(&self) -> (r: u32)
        ensures
            r == format_code(*self),
            format_of_code(r) == Some(*self),
    {
        match self {
            PicaTextureFormat::RGBA8 => 0,
            PicaTextureFormat::RGB8 => 1,
            PicaTextureFormat::RGBA5551 => 2,
            PicaTextureFormat::RGB565 => 3,
            PicaTextureFormat::RGBA4 => 4,
            PicaTextureFormat::LA8 => 5,
            PicaTextureFormat::HiLo8 => 6,
            PicaTextureFormat::L8 => 7,
            PicaTextureFormat::A8 => 8,
            PicaTextureFormat::LA4 => 9,
            PicaTextureFormat::L4 => 10,
            PicaTextureFormat::A4 => 11,
            PicaTextureFormat::ETC1 => 12,
            PicaTextureFormat::ETC1A4 => 13,
        }
    }

    pub fn from_code(v: u32) -> (r: Option<PicaTextureFormat>)
        ensures
            r == format_of_code(v),
    {
        if v == 0 {
            Some(PicaTextureFormat::RGBA8)
        } else if v == 1 {
            Some(PicaTextureFormat::RGB8)
        } else if v == 2 {
            Some(PicaTextureFormat::RGBA5551)
        } else if v == 3 {
            Some(PicaTextureFormat::RGB565)
        } else if v == 4 {
            Some(PicaTextureFormat::RGBA4)
        } else if v == 5 {
            Some(PicaTextureFormat::LA8)
        } else if v == 6 {
            Some(PicaTextureFormat::HiLo8)
        } else if v == 7 {
            Some(PicaTextureFormat::L8)
        } else if v == 8 {
            Some(PicaTextureFormat::A8)
        } else if v == 9 {
            Some(PicaTextureFormat::LA4)
        } else if v == 10 {
            Some(PicaTextureFormat::L4)
        } else if v == 11 {
            Some(PicaTextureFormat::A4)
        } else if v == 12 {
            Some(PicaTextureFormat::ETC1)
        } else if v == 13 {
            Some(PicaTextureFormat::ETC1A4)
        } else {
            None
        }
    }
}

/// One image: its record fields, and the bytes that its buffer pointer
/// designates in the image section.
#[derive(Debug, Clone)]
pub struct ImageData {
    pub height: u32,
    pub width: u32,
    pub image_bytes: Vec<u8>,
    pub buffer_length: u32,
    pub buffer_pointer: Option<Pointer>,
    pub dynamic_alloc: u32,
    pub bits_per_pixel: u32,
    pub location_ptr: u32,
    pub memory_area: u32,
}

/// Whether an image record, and the bytes it points to, can be read at `q`.
pub open spec fn image_data_ok(s: Seq<u8>, q: int) -> bool {
    &&& fits(s, q, 32)
    &&& u32_at(s, q + 24) == 0
    &&& rel_ptr_at(s, q + 12) is Some
    &&& fits(s, rel_ptr_at(s, q + 12)->Some_0.0 as int, u32_at(s, q + 8))
}

/// Whether `d` holds what the image record at `q` stores.
pub open spec fn image_data_read_from(s: Seq<u8>, q: int, d: ImageData) -> bool {
    &&& d.height == u32_at(s, q)
    &&& d.width == u32_at(s, q + 4)
    &&& d.buffer_length == u32_at(s, q + 8)
    &&& d.buffer_pointer == rel_ptr_at(s, q + 12)
    &&& d.dynamic_alloc == u32_at(s, q + 16)
    &&& d.bits_per_pixel == u32_at(s, q + 20)
    &&& d.location_ptr == u32_at(s, q + 24)
    &&& d.memory_area == u32_at(s, q + 28)
    &&& d.buffer_pointer matches Some(b) && d.image_bytes@ == s.subrange(
        b.0 as int,
        b.0 + d.buffer_length,
    )
}

/// The image record as written: the buffer pointer is a zero placeholder.
pub open spec fn image_record_bytes(d: ImageData) -> Seq<u8> {
    le_u32(d.height) + le_u32(d.width) + le_u32(d.buffer_length) + le_u32(0) + le_u32(
        d.dynamic_alloc,
    ) + le_u32(d.bits_per_pixel) + le_u32(d.location_ptr) + le_u32(d.memory_area)
}

/// Whether the image slot stored at `loc` can be read: null, or a relative
/// pointer to a readable image record.
pub open spec fn image_slot_ok(s: Seq<u8>, loc: int) -> bool {
    &&& fits(s, loc, 4)
    &&& rel_ptr_at(s, loc) matches Some(q) ==> image_data_ok(s, q.0 as int)
}

/// Whether `d` is what the image slot stored at `loc` designates.
pub open spec fn image_slot_read_from(s: Seq<u8>, loc: int, d: Option<ImageData>) -> bool {
    match rel_ptr_at(s, loc) {
        None => d is None,
        Some(q) => d matches Some(x) && image_data_read_from(s, q.0 as int, x),
    }
}

impl ImageData {
    /// Reads the image record at `at` and the bytes its buffer pointer
    /// designates.
    pub fn from_buffer(buf: &[u8], at: usize) -> (r: Result<ImageData, CgfxError>)
        ensures
            r is Ok <==> image_data_ok(buf@, at as int),
            r matches Ok(d) ==> image_data_read_from(buf@, at as int, d),
            fits(buf@, at as int, 32) && u32_at(buf@, at + 24) != 0 ==> r == Err::<ImageData, CgfxError>(
                CgfxError::InvalidValue,
            ),
            fits(buf@, at as int, 32) && u32_at(buf@, at + 24) == 0 && rel_ptr_at(buf@, at + 12) is None
                ==> r == Err::<ImageData, CgfxError>(CgfxError::UnexpectedNull),
    {
        let mut p = at;
        if p > buf.len() || buf.len() - p < 32 {
            return Err(CgfxError::TruncatedInput);
        }
        let height = read_u32(buf, &mut p)?;
        let width = read_u32(buf, &mut p)?;
        let buffer_length = read_u32(buf, &mut p)?;
        let buffer_pointer = read_relative_pointer(buf, &mut p)?;
        let dynamic_alloc = read_u32(buf, &mut p)?;
        let bits_per_pixel = read_u32(buf, &mut p)?;
        let location_ptr = read_u32(buf, &mut p)?;
        let memory_area = read_u32(buf, &mut p)?;
        if location_ptr != 0 {
            return Err(CgfxError::InvalidValue);
        }
        let target = match buffer_pointer {
            Some(b) => b,
            None => {
                return Err(CgfxError::UnexpectedNull);
            },
        };
        let image_bytes = read_bytes(buf, target.0 as usize, buffer_length as usize)?;
        Ok(
            ImageData {
                height,
                width,
                image_bytes,
                buffer_length,
                buffer_pointer,
                dynamic_alloc,
                bits_per_pixel,
                location_ptr,
                memory_area,
            },
        )
    }

    /// Writes the image record with a zero buffer placeholder.
    pub fn to_writer(&self, out: &mut Vec<u8>)
        ensures
            final(out)@ == old(out)@ + image_record_bytes(*self),
    {
        push_u32(out, self.height);
        push_u32(out, self.width);
        push_u32(out, self.buffer_length);
        push_u32(out, 0);
        push_u32(out, self.dynamic_alloc);
        push_u32(out, self.bits_per_pixel);
        push_u32(out, self.location_ptr);
        push_u32(out, self.memory_area);
        assert(out@ =~= old(out)@ + image_record_bytes(*self));
    }
}

/// Reads the image slot at the cursor: a relative pointer to an image record,
/// or null.
pub fn image_data(buf: &[u8], pos: &mut usize) -> (r: Result<Option<ImageData>, CgfxError>)
    ensures
        r is Ok <==> image_slot_ok(buf@, *old(pos) as int),
        r matches Ok(d) ==> image_slot_read_from(buf@, *old(pos) as int, d) && *final(pos) == *old(
            pos,
        ) + 4,
        r is Err ==> *final(pos) == *old(pos),
{
    let mut p = *pos;
    let pointer = read_relative_pointer(buf, &mut p)?;
    let data = match pointer {
        Some(q) => Some(ImageData::from_buffer(buf, q.0 as usize)?),
        None => None,
    };
    *pos = p;
    Ok(data)
}

#[derive(Debug, Clone)]
pub struct CgfxTextureCommon {
    pub cgfx_object_header: CgfxObjectHeader,
    pub height: u32,
    pub width: u32,
    pub gl_format: u32,
    pub gl_type: u32,
    pub mipmap_size: u32,
    pub texture_obj: u32,
    pub location_flag: u32,
    pub texture_format: PicaTextureFormat,
}

/// Whether the common texture fields can be read at `p`.
pub open spec fn texture_common_ok(s: Seq<u8>, p: int) -> bool {
    &&& object_header_ok(s, p)
    &&& fits(s, p, 52)
    &&& format_of_code(u32_at(s, p + 48) as u32) is Some
}

/// Whether `c` holds what the common texture fields at `p` store.
pub open spec fn texture_common_read_from(s: Seq<u8>, p: int, c: CgfxTextureCommon) -> bool {
    &&& object_header_read_from(s, p, c.cgfx_object_header)
    &&& c.height == u32_at(s, p + 20)
    &&& c.width == u32_at(s, p + 24)
    &&& c.gl_format == u32_at(s, p + 28)
    &&& c.gl_type == u32_at(s, p + 32)
    &&& c.mipmap_size == u32_at(s, p + 36)
    &&& c.texture_obj == u32_at(s, p + 40)
    &&& c.location_flag == u32_at(s, p + 44)
    &&& format_of_code(u32_at(s, p + 48) as u32) == Some(c.texture_format)
}

/// The common texture fields as written.
pub open spec fn texture_common_bytes(c: CgfxTextureCommon) -> Seq<u8> {
    object_header_bytes(c.cgfx_object_header) + le_u32(c.height) + le_u32(c.width) + le_u32(
        c.gl_format,
    ) + le_u32(c.gl_type) + le_u32(c.mipmap_size) + le_u32(c.texture_obj) + le_u32(
        c.location_flag,
    ) + le_u32(format_code(c.texture_format))
}

impl CgfxTextureCommon {
    pub fn from_reader(buf: &[u8], pos: &mut usize) -> (r: Result<CgfxTextureCommon, CgfxError>)
        ensures
            r is Ok <==> texture_common_ok(buf@, *old(pos) as int),
            r matches Ok(c) ==> texture_common_read_from(buf@, *old(pos) as int, c) && *final(pos)
                == *old(pos) + 52,
            r is Err ==> *final(pos) == *old(pos),
    {
        let mut p = *pos;
        if p > buf.len() || buf.len() - p < 52 {
            return Err(CgfxError::TruncatedInput);
        }
        let cgfx_object_header = CgfxObjectHeader::from_reader(buf, &mut p)?;
        let height = read_u32(buf, &mut p)?;
        let width = read_u32(buf, &mut p)?;
        let gl_format = read_u32(buf, &mut p)?;
        let gl_type = read_u32(buf, &mut p)?;
        let mipmap_size = read_u32(buf, &mut p)?;
        let texture_obj = read_u32(buf, &mut p)?;
        let location_flag = read_u32(buf, &mut p)?;
        let code = read_u32(buf, &mut p)?;
        let texture_format = match PicaTextureFormat::from_code(code) {
            Some(f) => f,
            None => {
                return Err(CgfxError::InvalidValue);
            },
        };
        *pos = p;
        Ok(
            CgfxTextureCommon {
                cgfx_object_header,
                height,
                width,
                gl_format,
                gl_type,
                mipmap_size,
                texture_obj,
                location_flag,
                texture_format,
            },
        )
    }

    pub fn to_writer(&self, out: &mut Vec<u8>) -> (r: Result<(), CgfxError>)
        ensures
            r is Ok <==> encode_utf8(self.cgfx_object_header.magic@).len() == 4,
            r is Ok ==> final(out)@ == old(out)@ + texture_common_bytes(*self),
            r is Err ==> final(out)@ == old(out)@,
    {
        self.cgfx_object_header.to_writer(out)?;
        push_u32(out, self.height);
        push_u32(out, self.width);
        push_u32(out, self.gl_format);
        push_u32(out, self.gl_type);
        push_u32(out, self.mipmap_size);
        push_u32(out, self.texture_obj);
        push_u32(out, self.location_flag);
        push_u32(out, self.texture_format.code());
        assert(out@ =~= old(out)@ + texture_common_bytes(*self));
        Ok(())
    }
}

#[derive(Debug, Clone)]
pub enum CgfxTexture {
    /// The six faces of a cube map.
    Cube(CgfxTextureCommon, [ImageData; 6]),
    Image(CgfxTextureCommon, Option<ImageData>),
}

/// Whether cube face `k` of a texture at `p` can be read: its slot holds a
/// non-null pointer to a readable image record.
pub open spec fn cube_face_ok(s: Seq<u8>, p: int, k: int) -> bool {
    &&& fits(s, p + 56 + 4 * k, 4)
    &&& rel_ptr_at(s, p + 56 + 4 * k) matches Some(q) && image_data_ok(s, q.0 as int)
}

/// Whether cube face slot `k` of a texture at `p` can be read, null or not.
pub open spec fn cube_slot_ok(s: Seq<u8>, p: int, k: int) -> bool {
    image_slot_ok(s, p + 56 + 4 * k)
}

/// Whether a texture can be read at `p`.
pub open spec fn texture_ok(s: Seq<u8>, p: int) -> bool {
    &&& fits(s, p, 4)
    &&& texture_common_ok(s, p + 4)
    &&& (u32_at(s, p) == IMAGE_DISCRIMINANT || u32_at(s, p) == CUBE_DISCRIMINANT)
    &&& u32_at(s, p) == IMAGE_DISCRIMINANT ==> image_slot_ok(s, p + 56)
    &&& u32_at(s, p) == CUBE_DISCRIMINANT ==> forall|k: int| 0 <= k < 6 ==> #[trigger] cube_face_ok(s, p, k)
}

/// Whether `t` holds what the texture at `p` stores.
pub open spec fn texture_read_from(s: Seq<u8>, p: int, t: CgfxTexture) -> bool {
    match t {
        CgfxTexture::Image(c, d) => {
            &&& u32_at(s, p) == IMAGE_DISCRIMINANT
            &&& texture_common_read_from(s, p + 4, c)
            &&& image_slot_read_from(s, p + 56, d)
        },
        CgfxTexture::Cube(c, faces) => {
            &&& u32_at(s, p) == CUBE_DISCRIMINANT
            &&& texture_common_read_from(s, p + 4, c)
            &&& faces@.len() == 6
            &&& forall|k: int| 0 <= k < 6 ==> #[trigger] image_slot_read_from(
                s,
                p + 56 + 4 * k,
                Some(faces@[k]),
            )
        },
    }
}

/// The common fields of a texture.
pub open spec fn common_of(t: CgfxTexture) -> CgfxTextureCommon {
    match t {
        CgfxTexture::Image(c, _) => c,
        CgfxTexture::Cube(c, _) => c,
    }
}

/// The bytes that writing a texture appends to the image section: those of
/// a 2D texture's image.
pub open spec fn texture_image_bytes(t: CgfxTexture) -> Seq<u8> {
    match t {
        CgfxTexture::Image(_, Some(d)) => d.image_bytes@,
        _ => Seq::empty(),
    }
}

/// The texture with its common fields replaced by `c`.
pub open spec fn with_common(t: CgfxTexture, c: CgfxTextureCommon) -> CgfxTexture {
    match t {
        CgfxTexture::Image(_, d) => CgfxTexture::Image(c, d),
        CgfxTexture::Cube(_, faces) => CgfxTexture::Cube(c, faces),
    }
}

/// The total number of image bytes a texture holds.
pub open spec fn image_bytes_total(faces: Seq<ImageData>) -> int
    decreases faces.len(),
{
    if faces.len() == 0 {
        0
    } else {
        image_bytes_total(faces.drop_last()) + faces.last().image_bytes@.len()
    }
}

/// The number of image bytes a texture holds.
pub open spec fn texture_size(t: CgfxTexture) -> int {
    match t {
        CgfxTexture::Image(_, d) => match d {
            Some(x) => x.image_bytes@.len() as int,
            None => 0,
        },
        CgfxTexture::Cube(_, faces) => image_bytes_total(faces@),
    }
}

/// The bytes that writing a 2D texture emits in place.
pub open spec fn image_texture_bytes(c: CgfxTextureCommon, d: Option<ImageData>) -> Seq<u8> {
    le_u32(IMAGE_DISCRIMINANT) + texture_common_bytes(c) + le_u32(4) + match d {
        Some(x) => image_record_bytes(x),
        None => Seq::empty(),
    }
}

/// How registering an optional name at placeholder `at` changes the string
/// fields of a write context; the image fields stay as they are.
pub open spec fn name_registered(c0: WriteContext, c1: WriteContext, at: int, name: Option<String>) -> bool {
    &&& name matches Some(nm) ==> c1.string_references@ == insert_entry(
        c0.string_references@,
        Pointer(at as u32),
        nm,
    )
    &&& name is None ==> c1.string_references@ == c0.string_references@
    &&& (name is Some && find_sub(c0.string_section@, encode_utf8(name->Some_0@)) is None)
        ==> c1.string_section@ == c0.string_section@ + encode_utf8(name->Some_0@) + seq![0u8]
    &&& (name is None || find_sub(c0.string_section@, encode_utf8(name->Some_0@)) is Some)
        ==> c1.string_section@ == c0.string_section@
}

/// Whether the image fields of two write contexts agree.
pub open spec fn images_kept(c0: WriteContext, c1: WriteContext) -> bool {
    c1.image_section@ == c0.image_section@ && c1.image_references@ == c0.image_references@
}

/// Whether the string fields of two write contexts agree.
pub open spec fn strings_kept(c0: WriteContext, c1: WriteContext) -> bool {
    c1.string_section@ == c0.string_section@ && c1.string_references@ == c0.string_references@
}

/// How registering an optional image at placeholder `at` changes the image
/// fields of a write context; the string fields stay as they are.
pub open spec fn image_registered(c0: WriteContext, c1: WriteContext, at: int, d: Option<ImageData>) -> bool {
    &&& d matches Some(x) ==> c1.image_references@ == insert_entry(
        c0.image_references@,
        Pointer(at as u32),
        Pointer(c0.image_section@.len() as u32),
    ) && c1.image_section@ == c0.image_section@ + x.image_bytes@
    &&& d is None ==> c1.image_references@ == c0.image_references@ && c1.image_section@
        == c0.image_section@
}

/// Registers an optional name for the string section, against the
/// placeholder at `at`.
fn register_name(name: &Option<String>, at: Pointer, ctx: &mut WriteContext)
    ensures
        name_registered(*old(ctx), *final(ctx), at.0 as int, *name),
        images_kept(*old(ctx), *final(ctx)),
{
    match name {
        Some(nm) => {
            let _ = ctx.add_string(nm.as_str());
            ctx.add_string_reference(at, nm.clone());
        },
        None => {},
    }
}

/// Registers an optional image for the image section, against the
/// placeholder at `at`.
fn register_image(image: &Option<ImageData>, at: Pointer, ctx: &mut WriteContext)
    requires
        old(ctx).image_section@.len() <= u32::MAX,
    ensures
        image_registered(*old(ctx), *final(ctx), at.0 as int, *image),
        strings_kept(*old(ctx), *final(ctx)),
{
    match image {
        Some(data) => {
            let _ = ctx.add_image_reference_to_current_end(at);
            let _ = ctx.append_to_image_section(data.image_bytes.as_slice());
        },
        None => {},
    }
}

pub proof fn lemma_name_within(c0: WriteContext, c1: WriteContext, at: int, name: Option<String>, lo: int, hi: int)
    requires
        name_registered(c0, c1, at, name),
        images_kept(c0, c1),
        refs_within(c0, lo, hi),
        name is Some ==> lo <= at && at + 4 <= hi,
        0 <= at <= u32::MAX,
    ensures
        refs_within(c1, lo, hi),
{
    if name is Some {
        lemma_insert_within(c0.string_references@, Pointer(at as u32), name->Some_0, lo, hi);
    }
}

pub proof fn lemma_image_within(c0: WriteContext, c1: WriteContext, at: int, d: Option<ImageData>, lo: int, hi: int)
    requires
        image_registered(c0, c1, at, d),
        strings_kept(c0, c1),
        refs_within(c0, lo, hi),
        d is Some ==> lo <= at && at + 4 <= hi,
        0 <= at <= u32::MAX,
    ensures
        refs_within(c1, lo, hi),
{
    if d is Some {
        lemma_insert_within(
            c0.image_references@,
            Pointer(at as u32),
            Pointer(c0.image_section@.len() as u32),
            lo,
            hi,
        );
    }
}

impl CgfxTexture {
    pub fn from_reader(buf: &[u8], pos: &mut usize) -> (r: Result<CgfxTexture, CgfxError>)
        ensures
            fits(buf@, *old(pos) as int, 4) && u32_at(buf@, *old(pos) as int) == CUBE_DISCRIMINANT
                && texture_common_ok(buf@, *old(pos) + 4) && (forall|k: int|
                0 <= k < 6 ==> #[trigger] cube_slot_ok(buf@, *old(pos) as int, k)) && (exists|k: int|
                0 <= k < 6 && #[trigger] rel_ptr_at(buf@, *old(pos) + 56 + 4 * k) is None) ==> r
                == Err::<CgfxTexture, CgfxError>(CgfxError::UnexpectedNull),
            r is Ok <==> texture_ok(buf@, *old(pos) as int),
            r matches Ok(t) ==> texture_read_from(buf@, *old(pos) as int, t),
            r is Err ==> *final(pos) == *old(pos),
            fits(buf@, *old(pos) as int, 4) && texture_common_ok(buf@, *old(pos) + 4) && u32_at(
                buf@,
                *old(pos) as int,
            ) != IMAGE_DISCRIMINANT && u32_at(buf@, *old(pos) as int) != CUBE_DISCRIMINANT ==> r
                == Err::<CgfxTexture, CgfxError>(
                CgfxError::UnknownDiscriminant {
                    offset: *old(pos),
                    tag: u32_at(buf@, *old(pos) as int) as u32,
                },
            ),
    {
        let start = *pos;
        let mut p = *pos;
        let discriminant = read_u32(buf, &mut p)?;
        let common = CgfxTextureCommon::from_reader(buf, &mut p)?;
        if discriminant == CUBE_DISCRIMINANT {
            let mut faces: Vec<ImageData> = Vec::new();
            let mut k: usize = 0;
            while k < 6
                invariant
                    k <= 6,
                    start == *old(pos),
                    fits(buf@, start as int, 4),
                    discriminant == u32_at(buf@, start as int),
                    discriminant == CUBE_DISCRIMINANT,
                    texture_common_ok(buf@, start + 4),
                    forall|j: int| 0 <= j < k ==> #[trigger] rel_ptr_at(buf@, start + 56 + 4 * j) is Some,
                    p == start + 56 + 4 * k,
                    faces@.len() == k,
                    forall|j: int| 0 <= j < k ==> #[trigger] cube_face_ok(buf@, start as int, j),
                    forall|j: int|
                        0 <= j < k ==> #[trigger] image_slot_read_from(
                            buf@,
                            start + 56 + 4 * j,
                            Some(faces@[j]),
                        ),
                decreases 6 - k,
            {
                let slot = match image_data(buf, &mut p) {
                    Ok(slot) => slot,
                    Err(e) => {
                        assert(!cube_face_ok(buf@, start as int, k as int));
                        assert(!cube_slot_ok(buf@, start as int, k as int));
                        return Err(e);
                    },
                };
                match slot {
                    Some(face) => {
                        faces.push(face);
                    },
                    None => {
                        assert(!cube_face_ok(buf@, start as int, k as int));
                        return Err(CgfxError::UnexpectedNull);
                    },
                }
                k = k + 1;
            }
            let ghost all = faces@;
            let f5 = faces.pop().unwrap();
            let f4 = faces.pop().unwrap();
            let f3 = faces.pop().unwrap();
            let f2 = faces.pop().unwrap();
            let f1 = faces.pop().unwrap();
            let f0 = faces.pop().unwrap();
            let faces: [ImageData; 6] = [f0, f1, f2, f3, f4, f5];
            assert(faces@ =~= all);
            *pos = p;
            Ok(CgfxTexture::Cube(common, faces))
        } else if discriminant == IMAGE_DISCRIMINANT {
            let image = image_data(buf, &mut p)?;
            *pos = p;
            Ok(CgfxTexture::Image(common, image))
        } else {
            Err(CgfxError::UnknownDiscriminant { offset: start, tag: discriminant })
        }
    }

    /// Writes a 2D texture in place. Its name goes to the string section and
    /// its image bytes to the image section, each with a placeholder to patch;
    /// the image record follows right after its slot. Cube maps and
    /// textures with metadata cannot be written yet.
    #[verifier::rlimit(40)]
    pub fn to_writer(&self, out: &mut Vec<u8>, ctx: &mut WriteContext) -> (r: Result<(), CgfxError>)
        ensures
            extends(old(out)@, final(out)@),
            self is Cube ==> r == Err::<(), CgfxError>(CgfxError::Unsupported),
            r == Err::<(), CgfxError>(CgfxError::Unsupported) ==> self is Cube
                || common_of(*self).cgfx_object_header.metadata_pointer is Some,
            r is Ok ==> final(ctx).image_section@ == old(ctx).image_section@ + texture_image_bytes(*self),
            common_of(*self).cgfx_object_header.metadata_pointer is Some ==> r == Err::<
                (),
                CgfxError,
            >(CgfxError::Unsupported),
            forall|lo: int|
                lo <= old(out)@.len() && #[trigger] refs_within(*old(ctx), lo, old(out)@.len() as int)
                    ==> refs_within(*final(ctx), lo, final(out)@.len() as int),
            r is Ok <==> self is Image && common_of(*self).cgfx_object_header.metadata_pointer is None
                && encode_utf8(common_of(*self).cgfx_object_header.magic@).len() == 4
                && old(out)@.len() + 92 <= u32::MAX && old(ctx).image_section@.len() <= u32::MAX,
            r is Ok ==> (*self matches CgfxTexture::Image(c, d) && {
                &&& final(out)@ == old(out)@ + image_texture_bytes(c, d)
                &&& name_registered(*old(ctx), *final(ctx), (old(out)@.len() + 12) as int, c.cgfx_object_header.name)
                &&& image_registered(*old(ctx), *final(ctx), (old(out)@.len() + 72) as int, d)
            }),
    {
        proof {
            lemma_extends_refl(old(out)@);
        }
        let (common, image) = match self {
            CgfxTexture::Cube(_, _) => {
                return Err(CgfxError::Unsupported);
            },
            CgfxTexture::Image(common, image) => (common, image),
        };
        if common.cgfx_object_header.metadata_pointer.is_some() {
            return Err(CgfxError::Unsupported);
        }
        if common.cgfx_object_header.magic.as_str().as_bytes().len() != 4 {
            return Err(CgfxError::InvalidValue);
        }
        let start = out.len();
        if start > 0xFFFF_FFFF - 92 {
            return Err(CgfxError::InvalidValue);
        }
        if ctx.image_section.len() > 0xFFFF_FFFF {
            return Err(CgfxError::InvalidValue);
        }
        push_u32(out, IMAGE_DISCRIMINANT);
        let ghost ctx0 = *ctx;
        register_name(&common.cgfx_object_header.name, Pointer((start + 12) as u32), ctx);
        let ghost ctx1 = *ctx;
        let _ = common.to_writer(out);
        push_u32(out, 4);
        register_image(image, Pointer((start + 72) as u32), ctx);
        match image {
            Some(data) => data.to_writer(out),
            None => {},
        }
        assert(name_registered(*old(ctx), *ctx, start + 12, common.cgfx_object_header.name));
        assert(image_registered(*old(ctx), *ctx, start + 72, *image));
        proof {
            assert(out@ =~= old(out)@ + image_texture_bytes(*common, *image));
            lemma_extends_append(old(out)@, image_texture_bytes(*common, *image));
            assert forall|lo: int|
                lo <= old(out)@.len() && #[trigger] refs_within(*old(ctx), lo, old(out)@.len() as int)
                    implies refs_within(*ctx, lo, out@.len() as int) by {
                lemma_within_grow(ctx0, lo, old(out)@.len() as int, out@.len() as int);
                lemma_name_within(ctx0, ctx1, start + 12, common.cgfx_object_header.name, lo, out@.len() as int);
                lemma_image_within(ctx1, *ctx, start + 72, *image, lo, out@.len() as int);
            }
        }
        Ok(())
    }

    pub fn metadata(&self) -> (r: &CgfxTextureCommon)
        ensures
            *r == common_of(*self),
    {
        match self {
            CgfxTexture::Image(common, _) => common,
            CgfxTexture::Cube(common, _) => common,
        }
    }

    pub fn metadata_mut(&mut self) -> (r: &mut CgfxTextureCommon)
        ensures
            *r == common_of(*old(self)),
            *final(self) == with_common(*old(self), *final(r)),
    {
        match self {
            CgfxTexture::Image(common, _) => common,
            CgfxTexture::Cube(common, _) => common,
        }
    }

    /// The number of image bytes the texture holds, which must fit 32 bits.
    pub fn size(&self) -> (r: u32)
        requires
            texture_size(*self) <= u32::MAX,
        ensures
            r == texture_size(*self),
    {
        match self {
            CgfxTexture::Image(_, image) => match image {
                Some(data) => data.image_bytes.len() as u32,
                None => 0,
            },
            CgfxTexture::Cube(_, faces) => {
                let mut total: u64 = 0;
                let mut k: usize = 0;
                while k < faces.len()
                    invariant
                        k <= faces@.len(),
                        total == image_bytes_total(faces@.subrange(0, k as int)),
                        image_bytes_total(faces@) <= u32::MAX,
                    decreases faces@.len() - k,
                {
                    proof {
                        lemma_total_prefix(faces@, k as int + 1);
                        lemma_total_prefix(faces@, faces@.len() as int);
                        assert(faces@.subrange(0, k + 1).drop_last() =~= faces@.subrange(0, k as int));
                        assert(faces@.subrange(0, faces@.len() as int) =~= faces@);
                    }
                    total = total + faces[k].image_bytes.len() as u64;
                    k = k + 1;
                }
                assert(faces@.subrange(0, faces@.len() as int) =~= faces@);
                total as u32
            },
        }
    }
}

/// The image bytes of a prefix of the faces never exceed those of all faces.
pub proof fn lemma_total_prefix(faces: Seq<ImageData>, n: int)
    requires
        0 <= n <= faces.len(),
    ensures
        image_bytes_total(faces.subrange(0, n)) <= image_bytes_total(faces),
    decreases faces.len(),
{
    if n < faces.len() {
        lemma_total_prefix(faces.drop_last(), n);
        assert(faces.drop_last().subrange(0, n) =~= faces.subrange(0, n));
    } else {
        assert(faces.subrange(0, n) =~= faces);
    }
}

impl CgfxCollectionValue for CgfxTexture {
    open spec fn value_ok(buf: Seq<u8>, at: int) -> bool {
        texture_ok(buf, at)
    }

    open spec fn value_read_from(buf: Seq<u8>, at: int, v: CgfxTexture) -> bool {
        texture_read_from(buf, at, v)
    }

    open spec fn value_error(buf: Seq<u8>, at: int) -> Option<CgfxError> {
        if fits(buf, at, 4) && texture_common_ok(buf, at + 4) && u32_at(buf, at) != IMAGE_DISCRIMINANT && u32_at(buf, at) != CUBE_DISCRIMINANT {
            Some(CgfxError::UnknownDiscriminant { offset: at as usize, tag: u32_at(buf, at) as u32 })
        } else {
            None
        }
    }

    fn read_dict_value(buf: &[u8], at: usize) -> (r: Result<CgfxTexture, CgfxError>) {
        let mut pos = at;
        Self::from_reader(buf, &mut pos)
    }

    open spec fn image_bytes_of(&self) -> Seq<u8> {
        texture_image_bytes(*self)
    }

    open spec fn value_writable(&self) -> bool {
        self is Image && common_of(*self).cgfx_object_header.metadata_pointer is None
    }

    open spec fn value_bytes(&self) -> Seq<u8> {
        match *self {
            CgfxTexture::Image(c, d) => image_texture_bytes(c, d),
            CgfxTexture::Cube(_, _) => Seq::empty(),
        }
    }

    fn write_dict_value(&self, out: &mut Vec<u8>, ctx: &mut WriteContext) -> (r: Result<(), CgfxError>) {
        self.to_writer(out, ctx)
    }
}

} // verus!
