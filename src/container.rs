//! The container: a file header, a table of sixteen dictionary slots, the
//! dictionaries, a string section, padding, and an `IMAG` image section.
use vstd::prelude::*;
use vstd::utf8::encode_utf8;
use crate::bytes::{
    extends, fits, le_u16, le_u32, lemma_extends_append, lemma_extends_put,
    lemma_extends_refl, lemma_extends_trans, lemma_le_u16_of_u16_at, lemma_le_u32_of_u32_at, lemma_u16_at_le, lemma_u32_at_extends, lemma_u32_at_le, lemma_u32_at_put,
    push_bytes, push_u16, push_u32, push_zeros, read_u16,
    read_u32, rel_ptr_at, u16_at, u32_at, write_at_pointer, write_u32_at, put_u32,
};
use crate::context::{WriteContext, find_bytes, refs_within};
use crate::dict::{CgfxCollectionValue, CgfxDict, CgfxNode, node_unwritable, nodes_image_bytes, dict_magic, dict_ok, dict_read_from, is_sentinel};
use crate::error::CgfxError;
use crate::pointer::{Pointer, rel_target};
use crate::model::CgfxModel;
use crate::texture::{CgfxTexture, common_of, texture_size};

verus! {

broadcast use {crate::bytes::lemma_le_u32_len, crate::bytes::lemma_le_u16_len};

/// `DATA`, read as a little-endian 32-bit integer.
pub const DATA_MAGIC: u32 = 0x4154_4144;

/// The bytes `CGFX`.
pub open spec fn cgfx_magic() -> Seq<u8> {
    seq![0x43u8, 0x47u8, 0x46u8, 0x58u8]
}

/// The bytes `IMAG`.
pub open spec fn imag_magic() -> Seq<u8> {
    seq![0x49u8, 0x4Du8, 0x41u8, 0x47u8]
}

/// The length of a serialized container without dictionaries: header, slot
/// table, padding and an empty image section.
pub const EMPTY_FILE_LENGTH: u32 = 256;

/// The length of the file header.
pub const HEADER_LENGTH: usize = 28;

/// Where the main content starts: after the header and the slot table.
pub const CONTENT_START: usize = 156;

#[derive(Debug, Clone, Copy, PartialEq, Eq, Structural)]
pub struct CgfxHeader {
    pub byte_order_mark: u16,
    pub header_length: u16,
    pub revision: u32,
    pub file_length: u32,
    pub sections_count: u32,
    pub content_magic_number: u32,
    pub content_length: u32,
}

/// Whether the header at the start of `s` can be read: it is complete, opens
/// with `CGFX`, and its data section is tagged `DATA`.
pub open spec fn header_ok(s: Seq<u8>) -> bool {
    &&& fits(s, 0, 28)
    &&& s.subrange(0, 4) == cgfx_magic()
    &&& u32_at(s, 20) == DATA_MAGIC
}

/// The header stored at the start of `s`.
pub open spec fn header_at(s: Seq<u8>) -> CgfxHeader {
    CgfxHeader {
        byte_order_mark: u16_at(s, 4) as u16,
        header_length: u16_at(s, 6) as u16,
        revision: u32_at(s, 8) as u32,
        file_length: u32_at(s, 12) as u32,
        sections_count: u32_at(s, 16) as u32,
        content_magic_number: u32_at(s, 20) as u32,
        content_length: u32_at(s, 24) as u32,
    }
}

/// The header as written.
pub open spec fn header_bytes(h: CgfxHeader) -> Seq<u8> {
    cgfx_magic() + le_u16(h.byte_order_mark) + le_u16(h.header_length) + le_u32(h.revision)
        + le_u32(h.file_length) + le_u32(h.sections_count) + le_u32(h.content_magic_number)
        + le_u32(h.content_length)
}

impl CgfxHeader {
    pub fn from_buffer(buf: &[u8]) -> (r: Result<CgfxHeader, CgfxError>)
        ensures
            r is Ok <==> header_ok(buf@),
            r matches Ok(h) ==> h == header_at(buf@),
            fits(buf@, 0, 28) && !header_ok(buf@) ==> r == Err::<CgfxHeader, CgfxError>(
                CgfxError::MalformedHeader,
            ),
    {
        if buf.len() < 28 {
            return Err(CgfxError::TruncatedInput);
        }
        if !(buf[0] == 0x43 && buf[1] == 0x47 && buf[2] == 0x46 && buf[3] == 0x58) {
            assert(buf@.subrange(0, 4)[0] == buf@[0]);
            assert(buf@.subrange(0, 4)[1] == buf@[1]);
            assert(buf@.subrange(0, 4)[2] == buf@[2]);
            assert(buf@.subrange(0, 4)[3] == buf@[3]);
            return Err(CgfxError::MalformedHeader);
        }
        assert(buf@.subrange(0, 4) =~= cgfx_magic());
        let mut p: usize = 4;
        let byte_order_mark = read_u16(buf, &mut p)?;
        let header_length = read_u16(buf, &mut p)?;
        let revision = read_u32(buf, &mut p)?;
        let file_length = read_u32(buf, &mut p)?;
        let sections_count = read_u32(buf, &mut p)?;
        let content_magic_number = read_u32(buf, &mut p)?;
        let content_length = read_u32(buf, &mut p)?;
        if content_magic_number != DATA_MAGIC {
            return Err(CgfxError::MalformedHeader);
        }
        Ok(
            CgfxHeader {
                byte_order_mark,
                header_length,
                revision,
                file_length,
                sections_count,
                content_magic_number,
                content_length,
            },
        )
    }

    pub fn to_writer(&self, out: &mut Vec<u8>)
        ensures
            final(out)@ == old(out)@ + header_bytes(*self),
    {
        out.push(0x43u8);
        out.push(0x47u8);
        out.push(0x46u8);
        out.push(0x58u8);
        assert(out@ =~= old(out)@ + cgfx_magic());
        push_u16(out, self.byte_order_mark);
        push_u16(out, self.header_length);
        push_u32(out, self.revision);
        push_u32(out, self.file_length);
        push_u32(out, self.sections_count);
        push_u32(out, self.content_magic_number);
        push_u32(out, self.content_length);
        assert(out@ =~= old(out)@ + header_bytes(*self));
    }
}

} // verus!

verus! {

/// The count stored in slot `i` of the dictionary table.
pub open spec fn slot_count(s: Seq<u8>, i: int) -> int {
    u32_at(s, 28 + 8 * i)
}

/// The dictionary pointer stored in slot `i`, relative to its own position.
pub open spec fn slot_ptr(s: Seq<u8>, i: int) -> Option<Pointer> {
    rel_ptr_at(s, 32 + 8 * i)
}

/// Whether slot `i` can be read as a dictionary of `T`: a null pointer comes
/// with a zero count, and a dictionary holds exactly `count` entries.
pub open spec fn slot_ok<T: CgfxCollectionValue>(s: Seq<u8>, i: int) -> bool {
    &&& fits(s, 28 + 8 * i, 8)
    &&& slot_ptr(s, i) is None ==> slot_count(s, i) == 0
    &&& slot_ptr(s, i) matches Some(p) ==> dict_ok::<T>(s, p.0 as int) && u32_at(s, p.0 + 8)
        == slot_count(s, i)
}

/// Whether slot `i` and the dictionary it points to can be read, whatever
/// the counts say.
pub open spec fn slot_parsable<T: CgfxCollectionValue>(s: Seq<u8>, i: int) -> bool {
    &&& fits(s, 28 + 8 * i, 8)
    &&& slot_ptr(s, i) matches Some(p) ==> dict_ok::<T>(s, p.0 as int)
}

/// Whether slot `i`'s count agrees with what it points to: zero for a null
/// pointer, else the dictionary's entry count.
pub open spec fn slot_counts_agree(s: Seq<u8>, i: int) -> bool {
    match slot_ptr(s, i) {
        None => slot_count(s, i) == 0,
        Some(p) => u32_at(s, p.0 + 8) == slot_count(s, i),
    }
}

/// Whether `d` is what slot `i` stores.
pub open spec fn slot_read_from<T: CgfxCollectionValue>(s: Seq<u8>, i: int, d: Option<CgfxDict<T>>) -> bool {
    match slot_ptr(s, i) {
        None => d is None,
        Some(p) => d matches Some(x) && dict_read_from(s, p.0 as int, x) && x.nodes@.len()
            == slot_count(s, i) + 1,
    }
}

/// Reads slot `i` of the dictionary table and the dictionary it points to.
pub fn read_slot<T: CgfxCollectionValue>(buf: &[u8], i: usize) -> (r: Result<Option<CgfxDict<T>>, CgfxError>)
    requires
        i < 16,
    ensures
        r is Ok <==> slot_ok::<T>(buf@, i as int),
        r matches Ok(d) ==> slot_read_from(buf@, i as int, d),
        slot_parsable::<T>(buf@, i as int) ==> r is Ok || r == Err::<Option<CgfxDict<T>>, CgfxError>(
            CgfxError::CountMismatch,
        ),
        slot_parsable::<T>(buf@, i as int) && !slot_counts_agree(buf@, i as int) ==> r == Err::<
            Option<CgfxDict<T>>,
            CgfxError,
        >(CgfxError::CountMismatch),
{
    let mut p: usize = 28 + 8 * i;
    let count = read_u32(buf, &mut p)?;
    let pointer = crate::bytes::read_relative_pointer(buf, &mut p)?;
    match pointer {
        None => {
            if count != 0 {
                return Err(CgfxError::CountMismatch);
            }
            Ok(None)
        },
        Some(q) => {
            let dict = CgfxDict::<T>::from_buffer(buf, q)?;
            if dict.values_count != count {
                return Err(CgfxError::CountMismatch);
            }
            Ok(Some(dict))
        },
    }
}

/// The parsed contents of a container. Slot order follows the table on disk.
#[derive(Debug, Clone)]
pub struct CgfxContainer {
    pub header: CgfxHeader,
    pub models: Option<CgfxDict<CgfxModel>>,
    pub textures: Option<CgfxDict<CgfxTexture>>,
    pub luts: Option<CgfxDict<()>>,
    pub materials: Option<CgfxDict<()>>,
    pub shaders: Option<CgfxDict<()>>,
    pub cameras: Option<CgfxDict<()>>,
    pub lights: Option<CgfxDict<()>>,
    pub fogs: Option<CgfxDict<()>>,
    pub scenes: Option<CgfxDict<()>>,
    pub skeletal_animations: Option<CgfxDict<()>>,
    pub material_animations: Option<CgfxDict<()>>,
    pub visibility_animations: Option<CgfxDict<()>>,
    pub camera_animations: Option<CgfxDict<()>>,
    pub light_animations: Option<CgfxDict<()>>,
    pub fog_animations: Option<CgfxDict<()>>,
    pub emitters: Option<CgfxDict<()>>,
}

/// The dictionary of slot `i` for the slots whose entries are not read.
pub open spec fn unit_slot(c: CgfxContainer, i: int) -> Option<CgfxDict<()>> {
    if i == 2 {
        c.luts
    } else if i == 3 {
        c.materials
    } else if i == 4 {
        c.shaders
    } else if i == 5 {
        c.cameras
    } else if i == 6 {
        c.lights
    } else if i == 7 {
        c.fogs
    } else if i == 8 {
        c.scenes
    } else if i == 9 {
        c.skeletal_animations
    } else if i == 10 {
        c.material_animations
    } else if i == 11 {
        c.visibility_animations
    } else if i == 12 {
        c.camera_animations
    } else if i == 13 {
        c.light_animations
    } else if i == 14 {
        c.fog_animations
    } else {
        c.emitters
    }
}

/// Whether every part of a container can be read from `s`.
pub open spec fn container_ok(s: Seq<u8>) -> bool {
    &&& header_ok(s)
    &&& fits(s, 0, 156)
    &&& slot_ok::<CgfxModel>(s, 0)
    &&& slot_ok::<CgfxTexture>(s, 1)
    &&& forall|i: int| 2 <= i < 16 ==> #[trigger] slot_ok::<()>(s, i)
}

/// Whether `c` holds what the container `s` stores.
pub open spec fn container_read_from(s: Seq<u8>, c: CgfxContainer) -> bool {
    &&& c.header == header_at(s)
    &&& slot_read_from(s, 0, c.models)
    &&& slot_read_from(s, 1, c.textures)
    &&& forall|i: int| 2 <= i < 16 ==> #[trigger] slot_read_from(s, i, unit_slot(c, i))
}

impl CgfxContainer {
    /// Parses a whole container.
    pub fn new(buffer: &[u8]) -> (r: Result<CgfxContainer, CgfxError>)
        ensures
            r is Ok <==> container_ok(buffer@),
            r matches Ok(c) ==> container_read_from(buffer@, c),
            fits(buffer@, 0, 28) && !header_ok(buffer@) ==> r == Err::<CgfxContainer, CgfxError>(
                CgfxError::MalformedHeader,
            ),
            header_ok(buffer@) && fits(buffer@, 0, 156) && slot_parsable::<CgfxModel>(buffer@, 0)
                && slot_parsable::<CgfxTexture>(buffer@, 1) && (forall|i: int|
                2 <= i < 16 ==> #[trigger] slot_parsable::<()>(buffer@, i)) && (exists|i: int|
                0 <= i < 16 && !#[trigger] slot_counts_agree(buffer@, i)) ==> r == Err::<CgfxContainer, CgfxError>(
                CgfxError::CountMismatch,
            ),
    {
        let header = CgfxHeader::from_buffer(buffer)?;
        if buffer.len() < 156 {
            return Err(CgfxError::TruncatedInput);
        }
        let models = read_slot::<CgfxModel>(buffer, 0)?;
        let textures = read_slot::<CgfxTexture>(buffer, 1)?;
        let luts = read_slot::<()>(buffer, 2)?;
        let materials = read_slot::<()>(buffer, 3)?;
        let shaders = read_slot::<()>(buffer, 4)?;
        let cameras = read_slot::<()>(buffer, 5)?;
        let lights = read_slot::<()>(buffer, 6)?;
        let fogs = read_slot::<()>(buffer, 7)?;
        let scenes = read_slot::<()>(buffer, 8)?;
        let skeletal_animations = read_slot::<()>(buffer, 9)?;
        let material_animations = read_slot::<()>(buffer, 10)?;
        let visibility_animations = read_slot::<()>(buffer, 11)?;
        let camera_animations = read_slot::<()>(buffer, 12)?;
        let light_animations = read_slot::<()>(buffer, 13)?;
        let fog_animations = read_slot::<()>(buffer, 14)?;
        let emitters = read_slot::<()>(buffer, 15)?;
        let c = CgfxContainer {
            header,
            models,
            textures,
            luts,
            materials,
            shaders,
            cameras,
            lights,
            fogs,
            scenes,
            skeletal_animations,
            material_animations,
            visibility_animations,
            camera_animations,
            light_animations,
            fog_animations,
            emitters,
        };
        assert forall|i: int| 2 <= i < 16 implies #[trigger] slot_read_from(buffer@, i, unit_slot(c, i)) by {
            if i == 2 {
            } else if i == 3 {
            } else if i == 4 {
            } else if i == 5 {
            } else if i == 6 {
            } else if i == 7 {
            } else if i == 8 {
            } else if i == 9 {
            } else if i == 10 {
            } else if i == 11 {
            } else if i == 12 {
            } else if i == 13 {
            } else if i == 14 {
            } else {
            }
        }
        assert forall|i: int| 2 <= i < 16 implies #[trigger] slot_ok::<()>(buffer@, i) by {
            if i == 2 {
            } else if i == 3 {
            } else if i == 4 {
            } else if i == 5 {
            } else if i == 6 {
            } else if i == 7 {
            } else if i == 8 {
            } else if i == 9 {
            } else if i == 10 {
            } else if i == 11 {
            } else if i == 12 {
            } else if i == 13 {
            } else if i == 14 {
            } else {
            }
        }
        Ok(c)
    }
}

} // verus!

verus! {

/// Whether `out` agrees with the reference bytes `b` over its whole length.
pub open spec fn prefix_matches(out: Seq<u8>, reference: Option<Seq<u8>>) -> bool {
    reference matches Some(b) ==> out.len() <= b.len() && out == b.subrange(0, out.len() as int)
}

/// The reference bytes of a debug serialization, as a sequence.
pub open spec fn reference_view(reference: Option<&[u8]>) -> Option<Seq<u8>> {
    match reference {
        Some(b) => Some(b@),
        None => None,
    }
}

/// Compares what was written so far with the reference bytes, if any.
fn check_prefix(out: &Vec<u8>, reference: Option<&[u8]>) -> (r: Result<(), CgfxError>)
    ensures
        r is Ok <==> prefix_matches(out@, reference_view(reference)),
        r is Err ==> r->Err_0 is PrefixMismatch,
{
    match reference {
        None => Ok(()),
        Some(b) => {
            if out.len() > b.len() {
                assert(!prefix_matches(out@, reference_view(reference)));
                return Err(CgfxError::PrefixMismatch { offset: b.len() });
            }
            let mut i: usize = 0;
            while i < out.len()
                invariant
                    i <= out@.len(),
                    out@.len() <= b@.len(),
                    reference_view(reference) == Some(b@),
                    forall|k: int| 0 <= k < i ==> out@[k] == b@[k],
                decreases out@.len() - i,
            {
                if out[i] != b[i] {
                    assert(b@.subrange(0, out@.len() as int)[i as int] != out@[i as int]);
                    assert(!prefix_matches(out@, reference_view(reference)));
                    return Err(CgfxError::PrefixMismatch { offset: i });
                }
                i = i + 1;
            }
            assert(out@ =~= b@.subrange(0, out@.len() as int));
            Ok(())
        },
    }
}

/// The padding that puts the image section's tag at an offset `k` with
/// `(k + 8) % 128 == 0`, after `size` bytes.
pub open spec fn padding_for(size: int) -> int {
    (128 - (size + 8) % 128) % 128
}

/// Points each registered name placeholder at its string, found by substring
/// search in the string section, which will start at `start`.
fn patch_string_references(out: &mut Vec<u8>, ctx: &WriteContext, start: usize) -> (r: Result<(), CgfxError>)
    requires
        refs_within(*ctx, CONTENT_START as int, old(out)@.len() as int),
        old(out)@.len() >= CONTENT_START,
    ensures
        final(out)@.len() == old(out)@.len(),
        final(out)@.subrange(0, CONTENT_START as int) == old(out)@.subrange(0, CONTENT_START as int),
        ctx.string_references@.len() == 0 ==> r is Ok && final(out)@ == old(out)@,
        r is Err ==> r == Err::<(), CgfxError>(CgfxError::InvalidValue),
{
    let ghost front = out@.subrange(0, CONTENT_START as int);
    proof {
        assert(out@.subrange(0, front.len() as int) =~= front);
    }
    let mut i: usize = 0;
    while i < ctx.string_references.len()
        invariant
            out@.len() == old(out)@.len(),
            front == old(out)@.subrange(0, CONTENT_START as int),
            front.len() == CONTENT_START,
            extends(front, out@),
            refs_within(*ctx, CONTENT_START as int, old(out)@.len() as int),
            ctx.string_references@.len() == 0 ==> out@ == old(out)@,
        decreases ctx.string_references@.len() - i,
    {
        let location = ctx.string_references[i].0;
        let target = ctx.string_references[i].1.as_str().as_bytes();
        assert(CONTENT_START <= ctx.string_references@[i as int].0.0);
        match find_bytes(ctx.string_section.as_slice(), target) {
            Some(index) => {
                if start > 0xFFFF_FFFF || index > 0xFFFF_FFFF {
                    return Err(CgfxError::InvalidValue);
                }
                let absolute = start as u64 + index as u64;
                if absolute > 0xFFFF_FFFF {
                    return Err(CgfxError::InvalidValue);
                }
                let relative = Pointer(absolute as u32).relative_to(location.0 as usize);
                let ghost before = out@;
                write_at_pointer(out, location, relative)?;
                proof {
                    lemma_extends_put(front, before, location.0 as int, relative);
                }
            },
            None => {},
        }
        i = i + 1;
    }
    Ok(())
}

/// Points each registered image placeholder into the image section, whose
/// bytes will start at `image_start`.
fn patch_image_references(out: &mut Vec<u8>, ctx: &WriteContext, image_start: usize) -> (r: Result<(), CgfxError>)
    requires
        refs_within(*ctx, CONTENT_START as int, old(out)@.len() as int),
        old(out)@.len() >= CONTENT_START,
    ensures
        final(out)@.len() == old(out)@.len(),
        final(out)@.subrange(0, CONTENT_START as int) == old(out)@.subrange(0, CONTENT_START as int),
        ctx.image_references@.len() == 0 ==> r is Ok && final(out)@ == old(out)@,
        r is Err ==> r == Err::<(), CgfxError>(CgfxError::InvalidValue),
{
    let ghost front = out@.subrange(0, CONTENT_START as int);
    proof {
        assert(out@.subrange(0, front.len() as int) =~= front);
    }
    let mut i: usize = 0;
    while i < ctx.image_references.len()
        invariant
            out@.len() == old(out)@.len(),
            front == old(out)@.subrange(0, CONTENT_START as int),
            front.len() == CONTENT_START,
            extends(front, out@),
            refs_within(*ctx, CONTENT_START as int, old(out)@.len() as int),
            ctx.image_references@.len() == 0 ==> out@ == old(out)@,
        decreases ctx.image_references@.len() - i,
    {
        let location = ctx.image_references[i].0;
        let offset = ctx.image_references[i].1;
        assert(CONTENT_START <= ctx.image_references@[i as int].0.0);
        if image_start > 0xFFFF_FFFF {
            return Err(CgfxError::InvalidValue);
        }
        let absolute = image_start as u64 + offset.0 as u64;
        if absolute > 0xFFFF_FFFF {
            return Err(CgfxError::InvalidValue);
        }
        let relative = Pointer(absolute as u32).relative_to(location.0 as usize);
        let ghost before = out@;
        write_at_pointer(out, location, relative)?;
        proof {
            lemma_extends_put(front, before, location.0 as int, relative);
        }
        i = i + 1;
    }
    Ok(())
}

impl CgfxContainer {
    pub fn to_buffer(&self) -> (r: Result<Vec<u8>, CgfxError>)
        ensures
            r matches Ok(out) ==> serialized(*self, out@),
            self.textures is None && self.header.file_length == EMPTY_FILE_LENGTH && self.header.content_length
                == EMPTY_FILE_LENGTH - HEADER_LENGTH ==> r is Ok,
            self.textures is None ==> (r matches Ok(out) ==> out@ == empty_container_bytes(self.header)),
    {
        self.to_buffer_debug(None)
    }

    /// Serializes the container. Only the texture dictionary is written; the
    /// other slots stay empty. With reference bytes, each completed part of
    /// the output is compared with them and the first difference is an error.
    #[verifier::rlimit(100)]
    pub fn to_buffer_debug(&self, reference: Option<&[u8]>) -> (r: Result<Vec<u8>, CgfxError>)
        ensures
            r matches Ok(out) ==> serialized(*self, out@),
            r matches Ok(out) ==> prefix_matches(out@, reference_view(reference)),
            self.textures matches Some(t) && t.values_count + 1 != t.nodes@.len() ==> r is Err,
            self.textures is None && self.header.file_length == EMPTY_FILE_LENGTH && self.header.content_length
                == EMPTY_FILE_LENGTH - HEADER_LENGTH && reference is None ==> r is Ok,
            r matches Ok(out) ==> image_section_placed(out@, textures_image_bytes(*self), self.header),
            r == Err::<Vec<u8>, CgfxError>(CgfxError::Unsupported) ==> self.textures is Some && exists|i: int|
                0 <= i < self.textures->Some_0.nodes@.len() && #[trigger] node_unwritable(self.textures->Some_0.nodes@[i]),
            self.textures is None ==> (r matches Ok(out) ==> out@ == empty_container_bytes(self.header)),
    {
        let mut out: Vec<u8> = Vec::new();
        self.header.to_writer(&mut out);
        check_prefix(&out, reference)?;
        push_zeros(&mut out, 128);
        let ghost z = out@;
        proof {
            assert(z =~= header_bytes(self.header) + Seq::new(128, |_i: int| 0u8));
        }
        let mut ctx = WriteContext::new();
        let ghost empty_ctx = ctx;
        let ghost tc: Option<u32> = match &self.textures {
            Some(t) => Some((t.nodes@.len() - 1) as u32),
            None => None,
        };
        match &self.textures {
            Some(textures) => {
                if textures.nodes.len() == 0 || textures.nodes.len() - 1 > 0xFFFF_FFFF {
                    return Err(CgfxError::CountMismatch);
                }
                let count = (textures.nodes.len() - 1) as u32;
                write_u32_at(&mut out, 36, count);
                write_u32_at(&mut out, 40, 116);
            },
            None => {},
        }
        let ghost front = out@;
        proof {
            lemma_front(self.header, z, front, tc);
            lemma_extends_refl(front);
        }
        match &self.textures {
            Some(textures) => {
                let written = textures.to_writer(&mut out, &mut ctx);
                if written.is_err() {
                    return Err(written.unwrap_err());
                }
                assert(refs_within(empty_ctx, CONTENT_START as int, CONTENT_START as int));
            },
            None => {},
        }
        assert(refs_within(ctx, CONTENT_START as int, out@.len() as int));
        assert(ctx.image_section@ =~= textures_image_bytes(*self));
        assert(self.textures is None ==> ctx.string_references@.len() == 0 && ctx.image_references@.len() == 0
            && ctx.string_section@.len() == 0 && ctx.image_section@.len() == 0 && out@.len() == CONTENT_START);
        let string_section_start = out.len();
        let ghost o1 = out@;
        patch_string_references(&mut out, &ctx, string_section_start)?;
        proof {
            lemma_same_front(front, o1, out@);
        }
        let ghost o2 = out@;
        push_bytes(&mut out, ctx.string_section.as_slice());
        let size = out.len();
        let padding = (128 - (size % 128 + 8) % 128) % 128;
        push_zeros(&mut out, padding);
        proof {
            if self.textures is None {
                assert(size == CONTENT_START);
                assert(padding == 92);
                assert(out@ =~= header_bytes(self.header) + Seq::new(220, |_i: int| 0u8));
            }
        }
        proof {
            lemma_extends_append(o2, ctx.string_section@);
            lemma_extends_trans(front, o2, o2 + ctx.string_section@);
            lemma_extends_append(o2 + ctx.string_section@, Seq::new(padding as nat, |_i: int| 0u8));
            lemma_extends_trans(front, o2 + ctx.string_section@, out@);
            lemma_padding(size as int);
        }
        let imag = out.len();
        if imag > 0xFFFF_FFFF - 8 {
            return Err(CgfxError::InvalidValue);
        }
        let ghost o3 = out@;
        patch_image_references(&mut out, &ctx, imag + 8)?;
        proof {
            lemma_same_front(front, o3, out@);
        }
        check_prefix(&out, reference)?;
        let image_length = ctx.image_section.len();
        if image_length > 0xFFFF_FFFF - 8 {
            return Err(CgfxError::InvalidValue);
        }
        if self.header.content_length as usize != imag + 8 - HEADER_LENGTH {
            return Err(CgfxError::MalformedHeader);
        }
        let ghost o4 = out@;
        push_image_section(&mut out, &ctx.image_section);
        check_prefix(&out, reference)?;
        if out.len() != self.header.file_length as usize {
            return Err(CgfxError::MalformedHeader);
        }
        proof {
            let tail = imag_magic() + le_u32((image_length + 8) as u32) + ctx.image_section@;
            assert(out@ =~= o4 + tail);
            if self.textures is None {
                assert(out@ =~= empty_container_bytes(self.header));
            }
            lemma_serialized(*self, front, o4, out@, tc, ctx.image_section@);
            lemma_image_placed(o4, out@, ctx.image_section@, self.header);
        }
        Ok(out)
    }
}

/// Appends the image section: the `IMAG` tag, its length counting the
/// eight header bytes, and the image bytes.
fn push_image_section(out: &mut Vec<u8>, images: &Vec<u8>)
    requires
        images@.len() + 8 <= u32::MAX,
    ensures
        final(out)@ == old(out)@ + (imag_magic() + le_u32((images@.len() + 8) as u32) + images@),
{
    out.push(0x49u8);
    out.push(0x4Du8);
    out.push(0x41u8);
    out.push(0x47u8);
    push_u32(out, (images.len() + 8) as u32);
    push_bytes(out, images.as_slice());
    assert(out@ =~= old(out)@ + (imag_magic() + le_u32((images@.len() + 8) as u32) + images@));
}

/// An image section appended at an aligned offset is placed as stated.
proof fn lemma_image_placed(o4: Seq<u8>, out: Seq<u8>, images: Seq<u8>, h: CgfxHeader)
    requires
        CONTENT_START <= o4.len(),
        (o4.len() + 8) % 128 == 0,
        images.len() + 8 <= u32::MAX,
        out == o4 + (imag_magic() + le_u32((images.len() + 8) as u32) + images),
        h.content_length == o4.len() + 8 - HEADER_LENGTH,
    ensures
        image_section_placed(out, images, h),
{
    let k = o4.len() as int;
    assert(out.subrange(k, k + 4) =~= imag_magic());
    assert(out.subrange(k + 4, k + 8) =~= le_u32((images.len() + 8) as u32));
    lemma_u32_at_le(out, k + 4, (images.len() + 8) as u32);
    assert(out.subrange(k + 8, out.len() as int) =~= images);
}

/// Assembles the facts that make a finished buffer a serialized container.
proof fn lemma_serialized(c: CgfxContainer, front: Seq<u8>, o4: Seq<u8>, out: Seq<u8>, tc: Option<u32>, images: Seq<u8>)
    requires
        front.len() == CONTENT_START,
        front.subrange(0, 28) == header_bytes(c.header),
        forall|i: int| 0 <= i < 16 && i != 1 ==> #[trigger] slot_count(front, i) == 0 && u32_at(front, 32 + 8 * i) == 0,
        tc is None ==> u32_at(front, 36) == 0 && u32_at(front, 40) == 0,
        tc matches Some(n) ==> u32_at(front, 36) == n && u32_at(front, 40) == 116,
        tc is None <==> c.textures is None,
        c.textures matches Some(t) ==> tc == Some((t.nodes@.len() - 1) as u32) && 1 <= t.nodes@.len() <= u32::MAX + 1,
        extends(front, o4),
        (o4.len() + 8) % 128 == 0,
        images.len() + 8 <= u32::MAX,
        out == o4 + (imag_magic() + le_u32((images.len() + 8) as u32) + images),
        out.len() == c.header.file_length,
    ensures
        serialized(c, out),
{
    let imag = o4.len() as int;
    let tail = imag_magic() + le_u32((images.len() + 8) as u32) + images;
    lemma_extends_append(o4, tail);
    lemma_extends_trans(front, o4, out);
    assert(out.subrange(imag, imag + 4) =~= imag_magic());
    assert(out.subrange(imag + 4, imag + 8) =~= le_u32((images.len() + 8) as u32));
    lemma_u32_at_le(out, imag + 4, (images.len() + 8) as u32);
    assert(out.subrange(0, 28) =~= front.subrange(0, 28));
    assert forall|i: int| 0 <= i < 16 && i != 1 implies #[trigger] slot_count(out, i) == 0 && slot_ptr(
        out,
        i,
    ) is None by {
        lemma_u32_at_extends(front, out, 28 + 8 * i);
        lemma_u32_at_extends(front, out, 32 + 8 * i);
        assert(slot_count(front, i) == 0);
    }
    lemma_u32_at_extends(front, out, 36);
    lemma_u32_at_extends(front, out, 40);
    assert(out.subrange(imag, imag + 4) == imag_magic());
    assert(rel_target(40, 116) == 156);
    assert(out.len() == c.header.file_length);
    assert(out.len() >= CONTENT_START);
    assert(out.subrange(0, 28) == header_bytes(c.header));
    assert(c.textures is None ==> slot_count(out, 1) == 0 && slot_ptr(out, 1) is None);
    assert(c.textures matches Some(t) ==> slot_count(out, 1) + 1 == t.nodes@.len() && slot_ptr(out, 1)
        == Some(Pointer(CONTENT_START as u32)));
    assert(CONTENT_START <= imag && imag + 8 <= out.len() && (imag + 8) % 128 == 0 && out.subrange(imag, imag + 4)
            == imag_magic() && u32_at(out, imag + 4) == out.len() - imag);
}

/// Equal first parts keep the same prefix.
proof fn lemma_same_front(front: Seq<u8>, a: Seq<u8>, b: Seq<u8>)
    requires
        front.len() == CONTENT_START,
        extends(front, a),
        b.len() == a.len(),
        b.subrange(0, CONTENT_START as int) == a.subrange(0, CONTENT_START as int),
    ensures
        extends(front, b),
{
}

/// The padding rule puts the image tag eight bytes before a multiple of 128.
proof fn lemma_padding(size: int)
    requires
        size >= 0,
    ensures
        (size + (128 - (size % 128 + 8) % 128) % 128 + 8) % 128 == 0,
{
}

/// The header and slot table as written before the main content.
proof fn lemma_front(h: CgfxHeader, z: Seq<u8>, f: Seq<u8>, tc: Option<u32>)
    requires
        z == header_bytes(h) + Seq::new(128, |_i: int| 0u8),
        tc is None ==> f == z,
        tc matches Some(n) ==> f == put_u32(put_u32(z, 36, n), 40, 116),
    ensures
        f.len() == CONTENT_START,
        f.subrange(0, 28) == header_bytes(h),
        forall|i: int| 0 <= i < 16 && i != 1 ==> #[trigger] slot_count(f, i) == 0 && u32_at(f, 32 + 8 * i) == 0,
        tc is None ==> u32_at(f, 36) == 0 && u32_at(f, 40) == 0,
        tc matches Some(n) ==> u32_at(f, 36) == n && u32_at(f, 40) == 116,
{
    assert(header_bytes(h).len() == 28);
    assert forall|j: int| 28 <= j < 156 implies z[j] == 0 by {}
    match tc {
        Some(n) => {
            let z1 = put_u32(z, 36, n);
            assert forall|i: int| 0 <= i < 16 && i != 1 implies #[trigger] slot_count(f, i) == 0 && u32_at(
                f,
                32 + 8 * i,
            ) == 0 by {
                lemma_u32_at_put(z, 36, n, 28 + 8 * i);
                lemma_u32_at_put(z, 36, n, 32 + 8 * i);
                lemma_u32_at_put(z1, 40, 116, 28 + 8 * i);
                lemma_u32_at_put(z1, 40, 116, 32 + 8 * i);
            }
            lemma_u32_at_put(z, 36, n, 36);
            lemma_u32_at_put(z1, 40, 116, 36);
            lemma_u32_at_put(z, 36, n, 40);
            lemma_u32_at_put(z1, 40, 116, 40);
            reveal(crate::bytes::le_u32);
            assert(f.subrange(0, 28) =~= header_bytes(h));
        },
        None => {
            assert(f.subrange(0, 28) =~= header_bytes(h));
        },
    }
}

/// The image bytes of a container's textures, in dictionary order.
pub open spec fn textures_image_bytes(c: CgfxContainer) -> Seq<u8> {
    match c.textures {
        Some(t) => nodes_image_bytes(t.nodes@, t.nodes@.len() as int),
        None => Seq::empty(),
    }
}

/// Whether `out` ends with the image section holding `images`: the `IMAG`
/// tag at `k = out.len() - images.len() - 8`, eight bytes before a multiple
/// of 128, its length field `images.len() + 8`, then the image bytes; the
/// header's content length counts everything from the end of the header to
/// the start of the image bytes.
pub open spec fn image_section_placed(out: Seq<u8>, images: Seq<u8>, h: CgfxHeader) -> bool {
    let k = out.len() - images.len() - 8;
    &&& CONTENT_START <= k
    &&& (k + 8) % 128 == 0
    &&& out.subrange(k, k + 4) == imag_magic()
    &&& u32_at(out, k + 4) == images.len() + 8
    &&& out.subrange(k + 8, out.len() as int) == images
    &&& h.content_length == k + 8 - HEADER_LENGTH
}

/// What every serialized container satisfies: it has the header's declared
/// length, starts with the header, has an empty slot table but for the
/// texture slot, and ends with an `IMAG` section whose tag stands at an
/// offset `k` with `(k + 8) % 128 == 0` and whose length field counts the
/// tag and itself.
pub open spec fn serialized(c: CgfxContainer, out: Seq<u8>) -> bool {
    &&& out.len() == c.header.file_length
    &&& out.len() >= CONTENT_START
    &&& out.subrange(0, 28) == header_bytes(c.header)
    &&& forall|i: int| 0 <= i < 16 && i != 1 ==> #[trigger] slot_count(out, i) == 0 && slot_ptr(out, i) is None
    &&& c.textures is None ==> slot_count(out, 1) == 0 && slot_ptr(out, 1) is None
    &&& c.textures matches Some(t) ==> slot_count(out, 1) + 1 == t.nodes@.len() && slot_ptr(out, 1)
        == Some(Pointer(CONTENT_START as u32))
    &&& exists|k: int|
        #![trigger out.subrange(k, k + 4)]
        CONTENT_START <= k && k + 8 <= out.len() && (k + 8) % 128 == 0 && out.subrange(k, k + 4)
            == imag_magic() && u32_at(out, k + 4) == out.len() - k
}

/// The byte length of a texture's own name; zero without one.
pub open spec fn texture_name_len(t: CgfxTexture) -> int {
    match common_of(t).cgfx_object_header.name {
        Some(n) => encode_utf8(n@).len() as int,
        None => 0,
    }
}

impl CgfxContainer {
    /// A minimal container that holds one texture under `name`: a texture
    /// dictionary of a sentinel and one entry, and a fixed header whose file
    /// length counts the texture's image bytes. The entry's reference bit is
    /// derived from the byte length of the texture's own name, which must be
    /// present; `expected_reference_bit` is accepted for callers that know
    /// the bit and is not consulted.
    pub fn from_single_texture(name: String, expected_reference_bit: u32, texture: CgfxTexture) -> (r: CgfxContainer)
        requires
            texture_size(texture) + 0x180 <= u32::MAX,
            1 <= texture_name_len(texture),
            8 * texture_name_len(texture) - 2 <= u32::MAX,
        ensures
            r.header == (CgfxHeader {
                byte_order_mark: 0xFEFF,
                header_length: 20,
                revision: 0x0500_0000,
                file_length: (0x180 + texture_size(texture)) as u32,
                sections_count: 2,
                content_magic_number: DATA_MAGIC,
                content_length: 356,
            }),
            r.textures matches Some(d) && {
                &&& d.magic_number@ == seq!['D', 'I', 'C', 'T']
                &&& d.tree_length == 44
                &&& d.values_count == 1
                &&& d.nodes@.len() == 2
                &&& is_sentinel(d.nodes@[0])
                &&& d.nodes@[0].left_node_index == 1 && d.nodes@[0].right_node_index == 0
                &&& d.nodes@[0].value_pointer is None
                &&& d.nodes@[1].reference_bit == 8 * texture_name_len(texture) - 2
                &&& d.nodes@[1].left_node_index == 0 && d.nodes@[1].right_node_index == 1
                &&& d.nodes@[1].name == Some(name)
                &&& d.nodes@[1].value_pointer is None
                &&& d.nodes@[1].value == Some(texture)
            },
            r.models is None,
            forall|i: int| 2 <= i < 16 ==> #[trigger] unit_slot(r, i) is None,
    {
        let file_length = 0x180 + texture.size();
        let name_len = match &texture.metadata().cgfx_object_header.name {
            Some(n) => n.as_str().len(),
            None => 0,
        };
        let reference_bit = (name_len as u64 * 8 - 2) as u32;
        let header = CgfxHeader {
            byte_order_mark: 0xFEFF,
            header_length: 20,
            revision: 0x0500_0000,
            file_length,
            sections_count: 2,
            content_magic_number: DATA_MAGIC,
            content_length: 356,
        };
        let sentinel = CgfxNode::<CgfxTexture> {
            reference_bit: 0xFFFF_FFFF,
            left_node_index: 1,
            right_node_index: 0,
            name: None,
            value_pointer: None,
            value: None,
        };
        let entry = CgfxNode::<CgfxTexture> {
            reference_bit,
            left_node_index: 0,
            right_node_index: 1,
            name: Some(name),
            value_pointer: None,
            value: Some(texture),
        };
        let mut nodes: Vec<CgfxNode<CgfxTexture>> = Vec::new();
        nodes.push(sentinel);
        nodes.push(entry);
        let magic_number = dict_magic();
        let textures = CgfxDict { magic_number, tree_length: 44, values_count: 1, nodes };
        CgfxContainer {
            header,
            models: None,
            textures: Some(textures),
            luts: None,
            materials: None,
            shaders: None,
            cameras: None,
            lights: None,
            fogs: None,
            scenes: None,
            skeletal_animations: None,
            material_animations: None,
            visibility_animations: None,
            camera_animations: None,
            light_animations: None,
            fog_animations: None,
            emitters: None,
        }
    }
}

/// In a parsed container, a slot whose count is positive holds a dictionary,
/// a present dictionary has one node more than its slot counts, and an
/// absent one is counted as empty.
pub proof fn lemma_slot_invariant<T: CgfxCollectionValue>(s: Seq<u8>, i: int, d: Option<CgfxDict<T>>)
    requires
        0 <= i < 16,
        slot_ok::<T>(s, i),
        slot_read_from(s, i, d),
    ensures
        slot_count(s, i) > 0 ==> d is Some,
        d matches Some(x) ==> x.nodes@.len() == slot_count(s, i) + 1,
        d is None ==> slot_count(s, i) == 0,
{
}

/// A written header reads back as the same header, whatever follows it,
/// when its data section is tagged `DATA`.
pub proof fn lemma_header_round_trip(h: CgfxHeader, rest: Seq<u8>)
    requires
        h.content_magic_number == DATA_MAGIC,
    ensures
        header_ok(header_bytes(h) + rest),
        header_at(header_bytes(h) + rest) == h,
{
    let s = header_bytes(h) + rest;
    assert(header_bytes(h).len() == 28);
    assert(s.subrange(0, 4) =~= cgfx_magic());
    assert(s.subrange(4, 6) =~= le_u16(h.byte_order_mark));
    assert(s.subrange(6, 8) =~= le_u16(h.header_length));
    assert(s.subrange(8, 12) =~= le_u32(h.revision));
    assert(s.subrange(12, 16) =~= le_u32(h.file_length));
    assert(s.subrange(16, 20) =~= le_u32(h.sections_count));
    assert(s.subrange(20, 24) =~= le_u32(h.content_magic_number));
    assert(s.subrange(24, 28) =~= le_u32(h.content_length));
    lemma_u16_at_le(s, 4, h.byte_order_mark);
    lemma_u16_at_le(s, 6, h.header_length);
    lemma_u32_at_le(s, 8, h.revision);
    lemma_u32_at_le(s, 12, h.file_length);
    lemma_u32_at_le(s, 16, h.sections_count);
    lemma_u32_at_le(s, 20, h.content_magic_number);
    lemma_u32_at_le(s, 24, h.content_length);
}

/// The bytes of a container without dictionaries: its header, the zeroed
/// slot table and padding, and an empty image section.
pub open spec fn empty_container_bytes(h: CgfxHeader) -> Seq<u8> {
    header_bytes(h) + Seq::new(220, |_i: int| 0u8) + imag_magic() + le_u32(8)
}

/// A file without dictionaries that is laid out as this library writes one
/// parses, and what it parses to is written back byte for byte.
pub proof fn lemma_empty_round_trip(b: Seq<u8>)
    requires
        b.len() == EMPTY_FILE_LENGTH,
        header_ok(b),
        u32_at(b, 12) == EMPTY_FILE_LENGTH,
        u32_at(b, 24) == EMPTY_FILE_LENGTH - HEADER_LENGTH,
        forall|i: int| 28 <= i < 248 ==> b[i] == 0,
        b.subrange(248, 252) == imag_magic(),
        u32_at(b, 252) == 8,
    ensures
        container_ok(b),
        forall|c: CgfxContainer|
            #[trigger] container_read_from(b, c) ==> c.textures is None && c.header.file_length
                == EMPTY_FILE_LENGTH && c.header.content_length == EMPTY_FILE_LENGTH - HEADER_LENGTH
                && empty_container_bytes(c.header) == b,
{
    assert forall|i: int| 0 <= i < 16 implies slot_count(b, i) == 0 && slot_ptr(b, i) is None by {
        assert(b[28 + 8 * i] == 0 && b[29 + 8 * i] == 0 && b[30 + 8 * i] == 0 && b[31 + 8 * i] == 0);
        assert(b[32 + 8 * i] == 0 && b[33 + 8 * i] == 0 && b[34 + 8 * i] == 0 && b[35 + 8 * i] == 0);
    }
    assert(slot_ok::<CgfxModel>(b, 0));
    assert(slot_ok::<CgfxTexture>(b, 1));
    assert forall|i: int| 2 <= i < 16 implies #[trigger] slot_ok::<()>(b, i) by {
        assert(slot_count(b, i) == 0 && slot_ptr(b, i) is None);
    }
    lemma_le_u16_of_u16_at(b, 4);
    lemma_le_u16_of_u16_at(b, 6);
    lemma_le_u32_of_u32_at(b, 8);
    lemma_le_u32_of_u32_at(b, 12);
    lemma_le_u32_of_u32_at(b, 16);
    lemma_le_u32_of_u32_at(b, 20);
    lemma_le_u32_of_u32_at(b, 24);
    lemma_le_u32_of_u32_at(b, 252);
    let h = header_at(b);
    assert(header_bytes(h) =~= b.subrange(0, 28));
    assert(empty_container_bytes(h) =~= b);
    assert forall|c: CgfxContainer|
        #[trigger] container_read_from(b, c) implies c.textures is None && c.header.file_length
            == EMPTY_FILE_LENGTH && c.header.content_length == EMPTY_FILE_LENGTH - HEADER_LENGTH
            && empty_container_bytes(c.header) == b by {
        assert(slot_ptr(b, 1) is None);
    }
}

} // verus!
