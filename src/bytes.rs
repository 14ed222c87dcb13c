//! Little-endian integers, null-terminated strings and relative pointers on a
//! byte buffer, read at an explicit cursor.
use vstd::prelude::*;
use vstd::utf8::*;
use crate::error::CgfxError;
use crate::pointer::{Pointer, rel_target};

verus! {

/// Whether `n` bytes starting at `pos` lie inside `s`.
pub open spec fn fits(s: Seq<u8>, pos: int, n: int) -> bool {
    0 <= pos && pos + n <= s.len()
}

/// The little-endian 16-bit integer at `i`.
pub open spec fn u16_at(s: Seq<u8>, i: int) -> int {
    s[i] + 256 * s[i + 1]
}

/// The little-endian 32-bit integer at `i`.
pub open spec fn u32_at(s: Seq<u8>, i: int) -> int {
    s[i] + 256 * s[i + 1] + 65536 * s[i + 2] + 16777216 * s[i + 3]
}

/// The four little-endian bytes of `v`.
#[verifier::opaque]
pub open spec fn le_u32(v: u32) -> Seq<u8> {
    seq![(v % 256) as u8, ((v / 256) % 256) as u8, ((v / 65536) % 256) as u8, (v / 16777216) as u8]
}

/// The two little-endian bytes of `v`.
#[verifier::opaque]
pub open spec fn le_u16(v: u16) -> Seq<u8> {
    seq![(v % 256) as u8, (v / 256) as u8]
}

/// `s` with the four bytes at `at` replaced by the little-endian bytes of `v`.
pub open spec fn put_u32(s: Seq<u8>, at: int, v: u32) -> Seq<u8> {
    s.update(at, le_u32(v)[0]).update(at + 1, le_u32(v)[1]).update(at + 2, le_u32(v)[2]).update(
        at + 3,
        le_u32(v)[3],
    )
}

/// The position of the first zero byte at or after `p`, if there is one.
pub open spec fn terminator_from(s: Seq<u8>, p: int) -> Option<int>
    decreases s.len() - p,
{
    if p < 0 || p >= s.len() {
        None
    } else if s[p] == 0 {
        Some(p)
    } else {
        terminator_from(s, p + 1)
    }
}

/// The string stored null-terminated at `p`: `None` without a terminator or
/// when the bytes before it are not UTF-8.
pub open spec fn cstr_at(s: Seq<u8>, p: int) -> Option<Seq<char>> {
    match terminator_from(s, p) {
        Some(e) => if valid_utf8(s.subrange(p, e)) {
            Some(decode_utf8(s.subrange(p, e)))
        } else {
            None
        },
        None => None,
    }
}

/// The error that reading a null-terminated string at `p` reports.
pub open spec fn cstr_error(s: Seq<u8>, p: int) -> CgfxError {
    if terminator_from(s, p) is None {
        CgfxError::TruncatedInput
    } else {
        CgfxError::InvalidValue
    }
}

/// Reading a relative pointer stored at `loc`: `None` for a zero raw value.
pub open spec fn rel_ptr_at(s: Seq<u8>, loc: int) -> Option<Pointer> {
    if u32_at(s, loc) == 0 {
        None
    } else {
        Some(Pointer(rel_target(loc, u32_at(s, loc)) as u32))
    }
}

pub proof fn lemma_le_u32(v: u32)
    ensures
        u32_at(le_u32(v), 0) == v,
        le_u32(v).len() == 4,
{
    reveal(le_u32);
}

pub proof fn lemma_le_u16(v: u16)
    ensures
        u16_at(le_u16(v), 0) == v,
        le_u16(v).len() == 2,
{
    reveal(le_u16);
}

pub broadcast proof fn lemma_le_u32_len(v: u32)
    ensures
        #[trigger] le_u32(v).len() == 4,
{
    reveal(le_u32);
}

pub broadcast proof fn lemma_le_u16_len(v: u16)
    ensures
        #[trigger] le_u16(v).len() == 2,
{
    reveal(le_u16);
}

pub fn read_u8(buf: &[u8], pos: &mut usize) -> (r: Result<u8, CgfxError>)
    ensures
        r is Ok <==> fits(buf@, *old(pos) as int, 1),
        r matches Ok(v) ==> v == buf@[*old(pos) as int] && *final(pos) == *old(pos) + 1,
        r is Err ==> r == Err::<u8, CgfxError>(CgfxError::TruncatedInput) && *final(pos) == *old(pos),
{
    if *pos >= buf.len() {
        return Err(CgfxError::TruncatedInput);
    }
    let v = buf[*pos];
    *pos = *pos + 1;
    Ok(v)
}

pub fn read_u16(buf: &[u8], pos: &mut usize) -> (r: Result<u16, CgfxError>)
    ensures
        r is Ok <==> fits(buf@, *old(pos) as int, 2),
        r matches Ok(v) ==> v == u16_at(buf@, *old(pos) as int) && *final(pos) == *old(pos) + 2,
        r is Err ==> r == Err::<u16, CgfxError>(CgfxError::TruncatedInput) && *final(pos) == *old(pos),
{
    if *pos > buf.len() || buf.len() - *pos < 2 {
        return Err(CgfxError::TruncatedInput);
    }
    let p = *pos;
    let v: u16 = buf[p] as u16 + (buf[p + 1] as u16) * 256;
    *pos = p + 2;
    Ok(v)
}

pub fn read_u32(buf: &[u8], pos: &mut usize) -> (r: Result<u32, CgfxError>)
    ensures
        r is Ok <==> fits(buf@, *old(pos) as int, 4),
        r matches Ok(v) ==> v == u32_at(buf@, *old(pos) as int) && *final(pos) == *old(pos) + 4,
        r is Err ==> r == Err::<u32, CgfxError>(CgfxError::TruncatedInput) && *final(pos) == *old(pos),
{
    if *pos > buf.len() || buf.len() - *pos < 4 {
        return Err(CgfxError::TruncatedInput);
    }
    let p = *pos;
    let v: u32 = buf[p] as u32 + (buf[p + 1] as u32) * 256 + (buf[p + 2] as u32) * 65536 + (
    buf[p + 3] as u32) * 16777216;
    *pos = p + 4;
    Ok(v)
}

/// Reads the 32-bit integer at `at` without a cursor.
pub fn u32_at_pos(buf: &[u8], at: usize) -> (r: Result<u32, CgfxError>)
    ensures
        r is Ok <==> fits(buf@, at as int, 4),
        r matches Ok(v) ==> v == u32_at(buf@, at as int),
        r is Err ==> r == Err::<u32, CgfxError>(CgfxError::TruncatedInput),
{
    let mut p = at;
    read_u32(buf, &mut p)
}

/// Reads a relative pointer: the raw value is an offset from the pointer's
/// own position, and zero stands for no pointer.
pub fn read_relative_pointer(buf: &[u8], pos: &mut usize) -> (r: Result<Option<Pointer>, CgfxError>)
    ensures
        r is Ok <==> fits(buf@, *old(pos) as int, 4),
        r matches Ok(p) ==> p == rel_ptr_at(buf@, *old(pos) as int) && *final(pos) == *old(pos) + 4,
        r is Err ==> r == Err::<Option<Pointer>, CgfxError>(CgfxError::TruncatedInput) && *final(pos) == *old(pos),
{
    let loc = *pos;
    let raw = read_u32(buf, pos)?;
    if raw == 0 {
        Ok(None)
    } else {
        Ok(Some(Pointer::from_relative(loc, raw)))
    }
}

/// Copies the `n` bytes at `at`.
pub fn read_bytes(buf: &[u8], at: usize, n: usize) -> (r: Result<Vec<u8>, CgfxError>)
    ensures
        r is Ok <==> fits(buf@, at as int, n as int),
        r matches Ok(v) ==> v@ == buf@.subrange(at as int, at + n),
        r is Err ==> r == Err::<Vec<u8>, CgfxError>(CgfxError::TruncatedInput),
{
    if at > buf.len() || buf.len() - at < n {
        return Err(CgfxError::TruncatedInput);
    }
    let mut out: Vec<u8> = Vec::with_capacity(n);
    let len = buf.len();
    let mut i: usize = 0;
    while i < n
        invariant
            i <= n,
            len == buf@.len(),
            at + n <= buf@.len(),
            out@ == buf@.subrange(at as int, at + i),
        decreases n - i,
    {
        out.push(buf[at + i]);
        i = i + 1;
        assert(out@ =~= buf@.subrange(at as int, at + i));
    }
    Ok(out)
}

/// Relies on String::from_utf8: it accepts exactly the valid UTF-8 byte
/// sequences and keeps the characters they encode.
#[verifier::external_body]
fn string_from_utf8(bytes: Vec<u8>) -> (r: Option<String>)
    ensures
        r is Some <==> valid_utf8(bytes@),
        r matches Some(s) ==> s@ == decode_utf8(bytes@),
{
    String::from_utf8(bytes).ok()
}

/// Decodes `bytes` as UTF-8; a sequence that is not UTF-8 is an invalid value.
pub fn utf8_string(bytes: Vec<u8>) -> (r: Result<String, CgfxError>)
    ensures
        r is Ok <==> valid_utf8(bytes@),
        r matches Ok(s) ==> s@ == decode_utf8(bytes@),
        r is Err ==> r == Err::<String, CgfxError>(CgfxError::InvalidValue),
{
    match string_from_utf8(bytes) {
        Some(s) => Ok(s),
        None => Err(CgfxError::InvalidValue),
    }
}

/// Reads the null-terminated UTF-8 string at the absolute offset `at`.
pub fn read_string(buf: &[u8], at: usize) -> (r: Result<String, CgfxError>)
    ensures
        r is Ok <==> cstr_at(buf@, at as int) is Some,
        r matches Ok(s) ==> s@ == cstr_at(buf@, at as int)->Some_0,
        r matches Err(e) ==> e == cstr_error(buf@, at as int),
{
    let mut i: usize = at;
    while i < buf.len() && buf[i] != 0
        invariant
            at <= i,
            terminator_from(buf@, at as int) == terminator_from(buf@, i as int),
        decreases buf.len() - i,
    {
        i = i + 1;
    }
    if i >= buf.len() {
        return Err(CgfxError::TruncatedInput);
    }
    let bytes = read_bytes(buf, at, i - at)?;
    utf8_string(bytes)
}

/// Appends the little-endian bytes of `v`.
pub fn push_u32(out: &mut Vec<u8>, v: u32)
    ensures
        final(out)@ == old(out)@ + le_u32(v),
{
    reveal(le_u32);
    out.push((v % 256) as u8);
    out.push(((v / 256) % 256) as u8);
    out.push(((v / 65536) % 256) as u8);
    out.push((v / 16777216) as u8);
    assert(final(out)@ =~= old(out)@ + le_u32(v));
}

/// Appends the little-endian bytes of `v`.
pub fn push_u16(out: &mut Vec<u8>, v: u16)
    ensures
        final(out)@ == old(out)@ + le_u16(v),
{
    reveal(le_u16);
    out.push((v % 256) as u8);
    out.push((v / 256) as u8);
    assert(final(out)@ =~= old(out)@ + le_u16(v));
}

/// Appends all of `bytes`.
pub fn push_bytes(out: &mut Vec<u8>, bytes: &[u8])
    ensures
        final(out)@ == old(out)@ + bytes@,
{
    let mut i: usize = 0;
    while i < bytes.len()
        invariant
            i <= bytes@.len(),
            out@ == old(out)@ + bytes@.subrange(0, i as int),
        decreases bytes.len() - i,
    {
        out.push(bytes[i]);
        i = i + 1;
        assert(out@ =~= old(out)@ + bytes@.subrange(0, i as int));
    }
    assert(bytes@.subrange(0, bytes@.len() as int) =~= bytes@);
}

/// Appends `n` zero bytes.
pub fn push_zeros(out: &mut Vec<u8>, n: usize)
    ensures
        final(out)@ == old(out)@ + Seq::new(n as nat, |_i: int| 0u8),
{
    let mut i: usize = 0;
    while i < n
        invariant
            i <= n,
            out@ == old(out)@ + Seq::new(i as nat, |_i: int| 0u8),
        decreases n - i,
    {
        out.push(0u8);
        i = i + 1;
        assert(out@ =~= old(out)@ + Seq::new(i as nat, |_i: int| 0u8));
    }
}

/// Overwrites the four bytes at `at` with the little-endian bytes of `v`.
pub fn write_u32_at(out: &mut Vec<u8>, at: usize, v: u32)
    requires
        at + 4 <= old(out)@.len(),
    ensures
        final(out)@ == put_u32(old(out)@, at as int, v),
{
    reveal(le_u32);
    let _len = out.len();
    out.set(at, (v % 256) as u8);
    out.set(at + 1, ((v / 256) % 256) as u8);
    out.set(at + 2, ((v / 65536) % 256) as u8);
    out.set(at + 3, (v / 16777216) as u8);
}

/// Whether a string pointer stored at `loc` can be read: it is null, or it
/// designates a terminated UTF-8 string.
pub open spec fn string_ptr_ok(s: Seq<u8>, loc: int) -> bool {
    &&& fits(s, loc, 4)
    &&& rel_ptr_at(s, loc) matches Some(p) ==> cstr_at(s, p.0 as int) is Some
}

/// Whether `n` is what the string pointer stored at `loc` designates.
pub open spec fn string_ptr_is(s: Seq<u8>, loc: int, n: Option<String>) -> bool {
    match rel_ptr_at(s, loc) {
        None => n is None,
        Some(p) => n matches Some(x) && cstr_at(s, p.0 as int) == Some(x@),
    }
}

/// An absolute pointer stored at `loc`: `None` for zero.
pub open spec fn abs_ptr_at(s: Seq<u8>, loc: int) -> Option<Pointer> {
    if u32_at(s, loc) == 0 {
        None
    } else {
        Some(Pointer(u32_at(s, loc) as u32))
    }
}

/// Reads four bytes as a UTF-8 string (a magic number such as `DICT`).
pub fn get_4_byte_string(buf: &[u8], pos: &mut usize) -> (r: Result<String, CgfxError>)
    ensures
        r is Ok <==> fits(buf@, *old(pos) as int, 4) && valid_utf8(
            buf@.subrange(*old(pos) as int, *old(pos) + 4),
        ),
        r matches Ok(m) ==> m@ == decode_utf8(buf@.subrange(*old(pos) as int, *old(pos) + 4))
            && *final(pos) == *old(pos) + 4,
        r is Err ==> *final(pos) == *old(pos),
{
    if *pos > buf.len() || buf.len() - *pos < 4 {
        return Err(CgfxError::TruncatedInput);
    }
    let bytes = read_bytes(buf, *pos, 4)?;
    let m = utf8_string(bytes)?;
    *pos = *pos + 4;
    Ok(m)
}

/// Reads a relative pointer to a null-terminated string and the string it
/// designates; a null pointer gives `None`.
pub fn read_string_pointer(buf: &[u8], pos: &mut usize) -> (r: Result<Option<String>, CgfxError>)
    ensures
        r is Ok <==> string_ptr_ok(buf@, *old(pos) as int),
        r matches Ok(n) ==> string_ptr_is(buf@, *old(pos) as int, n) && *final(pos) == *old(pos) + 4,
        r is Err ==> *final(pos) == *old(pos),
{
    let mut p = *pos;
    let ptr = read_relative_pointer(buf, &mut p)?;
    let name = match ptr {
        Some(q) => Some(read_string(buf, q.0 as usize)?),
        None => None,
    };
    *pos = p;
    Ok(name)
}

/// Overwrites the placeholder at `pointer` with `value`; the placeholder must
/// lie inside what was written.
pub fn write_at_pointer(out: &mut Vec<u8>, pointer: Pointer, value: u32) -> (r: Result<(), CgfxError>)
    ensures
        r is Ok <==> pointer.0 + 4 <= old(out)@.len(),
        r is Ok ==> final(out)@ == put_u32(old(out)@, pointer.0 as int, value),
        r is Err ==> final(out)@ == old(out)@ && r == Err::<(), CgfxError>(CgfxError::InvalidValue),
{
    let at = pointer.0 as usize;
    if at > out.len() || out.len() - at < 4 {
        return Err(CgfxError::InvalidValue);
    }
    write_u32_at(out, at, value);
    Ok(())
}

/// Whether `b` begins with all of `a`.
pub open spec fn extends(a: Seq<u8>, b: Seq<u8>) -> bool {
    a.len() <= b.len() && b.subrange(0, a.len() as int) == a
}

pub proof fn lemma_extends_refl(a: Seq<u8>)
    ensures
        extends(a, a),
{
    assert(a.subrange(0, a.len() as int) =~= a);
}

pub proof fn lemma_extends_trans(a: Seq<u8>, b: Seq<u8>, c: Seq<u8>)
    requires
        extends(a, b),
        extends(b, c),
    ensures
        extends(a, c),
{
    assert(c.subrange(0, a.len() as int) =~= b.subrange(0, a.len() as int));
}

pub proof fn lemma_extends_append(a: Seq<u8>, b: Seq<u8>)
    ensures
        extends(a, a + b),
{
    assert((a + b).subrange(0, a.len() as int) =~= a);
}

/// Patching four bytes at or after the end of `a` leaves `a` in front.
pub proof fn lemma_extends_put(a: Seq<u8>, b: Seq<u8>, at: int, v: u32)
    requires
        extends(a, b),
        a.len() <= at,
        at + 4 <= b.len(),
    ensures
        extends(a, put_u32(b, at, v)),
        put_u32(b, at, v).len() == b.len(),
{
    reveal(le_u32);
    assert(put_u32(b, at, v).subrange(0, a.len() as int) =~= b.subrange(0, a.len() as int));
}

/// Four bytes that spell `v` in little-endian order read back as `v`.
pub proof fn lemma_u32_at_le(s: Seq<u8>, j: int, v: u32)
    requires
        0 <= j,
        j + 4 <= s.len(),
        s.subrange(j, j + 4) == le_u32(v),
    ensures
        u32_at(s, j) == v,
{
    reveal(le_u32);
    assert(s[j] == s.subrange(j, j + 4)[0]);
    assert(s[j + 1] == s.subrange(j, j + 4)[1]);
    assert(s[j + 2] == s.subrange(j, j + 4)[2]);
    assert(s[j + 3] == s.subrange(j, j + 4)[3]);
}

/// Reading back a patched integer gives the patch; integers elsewhere keep
/// their values.
pub proof fn lemma_u32_at_put(s: Seq<u8>, at: int, v: u32, j: int)
    requires
        0 <= at,
        at + 4 <= s.len(),
        0 <= j,
        j + 4 <= s.len(),
    ensures
        j == at ==> u32_at(put_u32(s, at, v), j) == v,
        j + 4 <= at || at + 4 <= j ==> u32_at(put_u32(s, at, v), j) == u32_at(s, j),
{
    reveal(le_u32);
}

/// An integer inside a prefix reads the same in the longer sequence.
pub proof fn lemma_u32_at_extends(a: Seq<u8>, b: Seq<u8>, j: int)
    requires
        extends(a, b),
        0 <= j,
        j + 4 <= a.len(),
    ensures
        u32_at(b, j) == u32_at(a, j),
{
    assert(b[j] == b.subrange(0, a.len() as int)[j]);
    assert(b[j + 1] == b.subrange(0, a.len() as int)[j + 1]);
    assert(b[j + 2] == b.subrange(0, a.len() as int)[j + 2]);
    assert(b[j + 3] == b.subrange(0, a.len() as int)[j + 3]);
}

/// A relative pointer whose stored value is zero is null wherever it is
/// stored, and a non-zero one is not.
pub proof fn lemma_pointer_nullity(s: Seq<u8>, loc: int)
    ensures
        rel_ptr_at(s, loc) is None <==> u32_at(s, loc) == 0,
{
}

/// Two bytes that spell `v` in little-endian order read back as `v`.
pub proof fn lemma_u16_at_le(s: Seq<u8>, j: int, v: u16)
    requires
        0 <= j,
        j + 2 <= s.len(),
        s.subrange(j, j + 2) == le_u16(v),
    ensures
        u16_at(s, j) == v,
{
    reveal(le_u16);
    assert(s[j] == s.subrange(j, j + 2)[0]);
    assert(s[j + 1] == s.subrange(j, j + 2)[1]);
}

/// Writing an integer read from four bytes gives those bytes back.
pub proof fn lemma_le_u32_of_u32_at(s: Seq<u8>, j: int)
    requires
        0 <= j,
        j + 4 <= s.len(),
    ensures
        le_u32(u32_at(s, j) as u32) == s.subrange(j, j + 4),
{
    reveal(le_u32);
    let v = u32_at(s, j);
    let (b0, b1, b2, b3) = (s[j] as int, s[j + 1] as int, s[j + 2] as int, s[j + 3] as int);
    assert(v % 256 == b0 && (v / 256) % 256 == b1 && (v / 65536) % 256 == b2 && v / 16777216 == b3) by (nonlinear_arith)
        requires
            v == b0 + 256 * b1 + 65536 * b2 + 16777216 * b3,
            0 <= b0 < 256,
            0 <= b1 < 256,
            0 <= b2 < 256,
            0 <= b3 < 256,
    ;
    assert(le_u32(v as u32) =~= s.subrange(j, j + 4));
}

/// Writing a 16-bit integer read from two bytes gives those bytes back.
pub proof fn lemma_le_u16_of_u16_at(s: Seq<u8>, j: int)
    requires
        0 <= j,
        j + 2 <= s.len(),
    ensures
        le_u16(u16_at(s, j) as u16) == s.subrange(j, j + 2),
{
    reveal(le_u16);
    let v = u16_at(s, j);
    let (b0, b1) = (s[j] as int, s[j + 1] as int);
    assert(v % 256 == b0 && v / 256 == b1) by (nonlinear_arith)
        requires
            v == b0 + 256 * b1,
            0 <= b0 < 256,
            0 <= b1 < 256,
    ;
    assert(le_u16(v as u16) =~= s.subrange(j, j + 2));
}

/// Patching the last four bytes of a sequence replaces them.
pub proof fn lemma_put_last(a: Seq<u8>, w: u32, v: u32)
    ensures
        put_u32(a + le_u32(w), a.len() as int, v) == a + le_u32(v),
{
    reveal(le_u32);
    assert(put_u32(a + le_u32(w), a.len() as int, v) =~= a + le_u32(v));
}

} // verus!
