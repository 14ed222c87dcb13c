//! Vectors and matrices with a fixed little-endian layout. Each component is
//! kept as the IEEE-754 bit pattern of a 32-bit float, exactly as stored.
use vstd::prelude::*;
use crate::bytes::{fits, le_u32, push_u32, read_u32, u32_at};
use crate::error::CgfxError;

verus! {

broadcast use {crate::bytes::lemma_le_u32_len, crate::bytes::lemma_le_u16_len};

/// The float component stored at word `k` after `p`.
pub open spec fn word(s: Seq<u8>, p: int, k: int) -> u32 {
    u32_at(s, p + 4 * k) as u32
}

/// Whether a float bit pattern compares equal to zero (positive or negative zero).
pub open spec fn is_float_zero(bits: u32) -> bool {
    bits == 0 || bits == 0x8000_0000
}

#[derive(Debug, Clone, Copy, PartialEq, Eq, Structural)]
pub struct Vec2 {
    pub x: u32,
    pub y: u32,
}

#[derive(Debug, Clone, Copy, PartialEq, Eq, Structural)]
pub struct Vec3 {
    pub x: u32,
    pub y: u32,
    pub z: u32,
}

#[derive(Debug, Clone, Copy, PartialEq, Eq, Structural)]
pub struct Vec4 {
    pub x: u32,
    pub y: u32,
    pub z: u32,
    pub w: u32,
}

/// A 3x3 matrix as three stored columns.
#[derive(Debug, Clone, Copy, PartialEq, Eq, Structural)]
pub struct Mat3 {
    pub c0: Vec3,
    pub c1: Vec3,
    pub c2: Vec3,
}

/// A 3x4 matrix as four stored columns of three.
#[derive(Debug, Clone, Copy, PartialEq, Eq, Structural)]
pub struct Mat3x4 {
    pub c0: Vec3,
    pub c1: Vec3,
    pub c2: Vec3,
    pub c3: Vec3,
}

pub open spec fn vec2_at(s: Seq<u8>, p: int) -> Vec2 {
    Vec2 { x: word(s, p, 0), y: word(s, p, 1) }
}

pub open spec fn vec3_at(s: Seq<u8>, p: int) -> Vec3 {
    Vec3 { x: word(s, p, 0), y: word(s, p, 1), z: word(s, p, 2) }
}

pub open spec fn vec4_at(s: Seq<u8>, p: int) -> Vec4 {
    Vec4 { x: word(s, p, 0), y: word(s, p, 1), z: word(s, p, 2), w: word(s, p, 3) }
}

pub open spec fn mat3_at(s: Seq<u8>, p: int) -> Mat3 {
    Mat3 { c0: vec3_at(s, p), c1: vec3_at(s, p + 12), c2: vec3_at(s, p + 24) }
}

pub open spec fn mat3x4_at(s: Seq<u8>, p: int) -> Mat3x4 {
    Mat3x4 {
        c0: vec3_at(s, p),
        c1: vec3_at(s, p + 12),
        c2: vec3_at(s, p + 24),
        c3: vec3_at(s, p + 36),
    }
}

impl Vec2 {
    pub fn new(x: u32, y: u32) -> (r: Vec2)
        ensures
            r == (Vec2 { x, y }),
    {
        Vec2 { x, y }
    }

    pub fn from_reader(buf: &[u8], pos: &mut usize) -> (r: Result<Vec2, CgfxError>)
        ensures
            r is Ok <==> fits(buf@, *old(pos) as int, 8),
            r matches Ok(v) ==> v == vec2_at(buf@, *old(pos) as int) && *final(pos) == *old(pos) + 8,
            r is Err ==> *final(pos) == *old(pos),
    {
        let mut p = *pos;
        if p > buf.len() || buf.len() - p < 8 {
            return Err(CgfxError::TruncatedInput);
        }
        let x = read_u32(buf, &mut p)?;
        let y = read_u32(buf, &mut p)?;
        *pos = p;
        Ok(Vec2 { x, y })
    }
}

impl Vec3 {
    pub fn new(x: u32, y: u32, z: u32) -> (r: Vec3)
        ensures
            r == (Vec3 { x, y, z }),
    {
        Vec3 { x, y, z }
    }

    /// Whether every component compares equal to the float zero.
    pub fn is_zero(&self) -> (r: bool)
        ensures
            r == (is_float_zero(self.x) && is_float_zero(self.y) && is_float_zero(self.z)),
    {
        (self.x == 0 || self.x == 0x8000_0000) && (self.y == 0 || self.y == 0x8000_0000) && (self.z
            == 0 || self.z == 0x8000_0000)
    }

    pub fn from_reader(buf: &[u8], pos: &mut usize) -> (r: Result<Vec3, CgfxError>)
        ensures
            r is Ok <==> fits(buf@, *old(pos) as int, 12),
            r matches Ok(v) ==> v == vec3_at(buf@, *old(pos) as int) && *final(pos) == *old(pos) + 12,
            r is Err ==> *final(pos) == *old(pos),
    {
        let mut p = *pos;
        if p > buf.len() || buf.len() - p < 12 {
            return Err(CgfxError::TruncatedInput);
        }
        let x = read_u32(buf, &mut p)?;
        let y = read_u32(buf, &mut p)?;
        let z = read_u32(buf, &mut p)?;
        *pos = p;
        Ok(Vec3 { x, y, z })
    }

    pub fn to_writer(&self, out: &mut Vec<u8>)
        ensures
            final(out)@ == old(out)@ + le_u32(self.x) + le_u32(self.y) + le_u32(self.z),
    {
        push_u32(out, self.x);
        push_u32(out, self.y);
        push_u32(out, self.z);
        assert(final(out)@ =~= old(out)@ + le_u32(self.x) + le_u32(self.y) + le_u32(self.z));
    }
}

impl Vec4 {
    pub fn new(x: u32, y: u32, z: u32, w: u32) -> (r: Vec4)
        ensures
            r == (Vec4 { x, y, z, w }),
    {
        Vec4 { x, y, z, w }
    }

    pub fn from_reader(buf: &[u8], pos: &mut usize) -> (r: Result<Vec4, CgfxError>)
        ensures
            r is Ok <==> fits(buf@, *old(pos) as int, 16),
            r matches Ok(v) ==> v == vec4_at(buf@, *old(pos) as int) && *final(pos) == *old(pos) + 16,
            r is Err ==> *final(pos) == *old(pos),
    {
        let mut p = *pos;
        if p > buf.len() || buf.len() - p < 16 {
            return Err(CgfxError::TruncatedInput);
        }
        let x = read_u32(buf, &mut p)?;
        let y = read_u32(buf, &mut p)?;
        let z = read_u32(buf, &mut p)?;
        let w = read_u32(buf, &mut p)?;
        *pos = p;
        Ok(Vec4 { x, y, z, w })
    }
}

impl Mat3 {
    pub fn from_reader(buf: &[u8], pos: &mut usize) -> (r: Result<Mat3, CgfxError>)
        ensures
            r is Ok <==> fits(buf@, *old(pos) as int, 36),
            r matches Ok(m) ==> m == mat3_at(buf@, *old(pos) as int) && *final(pos) == *old(pos) + 36,
            r is Err ==> *final(pos) == *old(pos),
    {
        let mut p = *pos;
        if p > buf.len() || buf.len() - p < 36 {
            return Err(CgfxError::TruncatedInput);
        }
        let c0 = Vec3::from_reader(buf, &mut p)?;
        let c1 = Vec3::from_reader(buf, &mut p)?;
        let c2 = Vec3::from_reader(buf, &mut p)?;
        *pos = p;
        Ok(Mat3 { c0, c1, c2 })
    }
}

impl Mat3x4 {
    pub fn from_reader(buf: &[u8], pos: &mut usize) -> (r: Result<Mat3x4, CgfxError>)
        ensures
            r is Ok <==> fits(buf@, *old(pos) as int, 48),
            r matches Ok(m) ==> m == mat3x4_at(buf@, *old(pos) as int) && *final(pos) == *old(pos) + 48,
            r is Err ==> *final(pos) == *old(pos),
    {
        let mut p = *pos;
        if p > buf.len() || buf.len() - p < 48 {
            return Err(CgfxError::TruncatedInput);
        }
        let c0 = Vec3::from_reader(buf, &mut p)?;
        let c1 = Vec3::from_reader(buf, &mut p)?;
        let c2 = Vec3::from_reader(buf, &mut p)?;
        let c3 = Vec3::from_reader(buf, &mut p)?;
        *pos = p;
        Ok(Mat3x4 { c0, c1, c2, c3 })
    }
}

} // verus!
