//! The two list encodings: a pointer list (a count and a relative pointer to
//! an array of relative pointers, one per element) and an inline list (a
//! count and a relative pointer to the packed elements).
use vstd::prelude::*;
use crate::bytes::{fits, read_bytes, read_relative_pointer, read_u32, rel_ptr_at, u32_at};
use crate::dict::CgfxCollectionValue;
use crate::error::CgfxError;
use crate::pointer::Pointer;

verus! {

/// The targets of the first `k` element pointers of the array at `l`, with
/// the null ones left out.
pub open spec fn list_targets(s: Seq<u8>, l: int, k: int) -> Seq<Pointer>
    decreases k,
{
    if k <= 0 {
        Seq::empty()
    } else {
        match rel_ptr_at(s, l + 4 * (k - 1)) {
            Some(q) => list_targets(s, l, k - 1).push(q),
            None => list_targets(s, l, k - 1),
        }
    }
}

/// Whether the header of the pointer list at `pos` and its array can be read.
pub open spec fn pointer_list_ok(s: Seq<u8>, pos: int) -> bool {
    &&& fits(s, pos, 8)
    &&& rel_ptr_at(s, pos + 4) matches Some(l) ==> fits(s, l.0 as int, 4 * u32_at(s, pos))
}

/// The element targets of the pointer list at `pos`, null elements left out.
pub open spec fn pointer_list_targets(s: Seq<u8>, pos: int) -> Seq<Pointer> {
    match rel_ptr_at(s, pos + 4) {
        Some(l) => list_targets(s, l.0 as int, u32_at(s, pos)),
        None => Seq::empty(),
    }
}

/// Reads the header of the pointer list at the cursor and the array it
/// points to, and returns the targets of the non-null element pointers.
pub fn read_pointer_list_targets(buf: &[u8], pos: &mut usize) -> (r: Result<Vec<Pointer>, CgfxError>)
    ensures
        r is Ok <==> pointer_list_ok(buf@, *old(pos) as int),
        r matches Ok(t) ==> t@ == pointer_list_targets(buf@, *old(pos) as int) && *final(pos)
            == *old(pos) + 8,
        r is Err ==> *final(pos) == *old(pos),
{
    let mut p = *pos;
    if p > buf.len() || buf.len() - p < 8 {
        return Err(CgfxError::TruncatedInput);
    }
    let count = read_u32(buf, &mut p)?;
    let list = read_relative_pointer(buf, &mut p)?;
    let mut targets: Vec<Pointer> = Vec::new();
    match list {
        None => {},
        Some(l) => {
            let start = l.0 as usize;
            if start > buf.len() || (buf.len() - start) / 4 < count as usize {
                return Err(CgfxError::TruncatedInput);
            }
            let blen = buf.len();
            let mut k: usize = 0;
            while k < count as usize
                invariant
                    blen == buf@.len(),
                    k <= count,
                    start + 4 * count <= buf@.len(),
                    targets@ == list_targets(buf@, start as int, k as int),
                decreases count - k,
            {
                let mut q = start + 4 * k;
                let element = read_relative_pointer(buf, &mut q)?;
                match element {
                    Some(t) => targets.push(t),
                    None => {},
                }
                k = k + 1;
            }
        },
    }
    *pos = p;
    Ok(targets)
}

/// Whether each target, after skipping `skip` leading bytes, holds a
/// readable value of `T`.
pub open spec fn targets_ok<T: CgfxCollectionValue>(s: Seq<u8>, t: Seq<Pointer>, skip: int) -> bool {
    forall|j: int| 0 <= j < t.len() ==> #[trigger] T::value_ok(s, t[j].0 + skip)
}

/// Whether `v` holds the values read at the targets, in order.
pub open spec fn values_read_from<T: CgfxCollectionValue>(s: Seq<u8>, t: Seq<Pointer>, skip: int, v: Seq<T>) -> bool {
    &&& v.len() == t.len()
    &&& forall|j: int| 0 <= j < t.len() ==> #[trigger] T::value_read_from(s, t[j].0 + skip, v[j])
}

/// Reads a value of `T` at each target.
pub fn read_values<T: CgfxCollectionValue>(buf: &[u8], targets: &Vec<Pointer>) -> (r: Result<Vec<T>, CgfxError>)
    ensures
        r is Ok <==> targets_ok::<T>(buf@, targets@, 0),
        r matches Ok(v) ==> values_read_from(buf@, targets@, 0, v@),
{
    let mut values: Vec<T> = Vec::new();
    let mut j: usize = 0;
    while j < targets.len()
        invariant
            j <= targets@.len(),
            values@.len() == j,
            forall|i: int| 0 <= i < j ==> #[trigger] T::value_ok(buf@, targets@[i].0 + 0),
            forall|i: int| 0 <= i < j ==> #[trigger] T::value_read_from(buf@, targets@[i].0 + 0, values@[i]),
        decreases targets@.len() - j,
    {
        let v = match T::read_dict_value(buf, targets[j].0 as usize) {
            Ok(v) => v,
            Err(e) => {
                assert(!T::value_ok(buf@, targets@[j as int].0 + 0));
                assert(!targets_ok::<T>(buf@, targets@, 0));
                return Err(e);
            },
        };
        values.push(v);
        j = j + 1;
    }
    Ok(values)
}

/// Reads a pointer list of values of `T`.
pub fn read_pointer_list<T: CgfxCollectionValue>(buf: &[u8], pos: &mut usize) -> (r: Result<Vec<T>, CgfxError>)
    ensures
        r is Ok <==> pointer_list_ok(buf@, *old(pos) as int) && targets_ok::<T>(
            buf@,
            pointer_list_targets(buf@, *old(pos) as int),
            0,
        ),
        r matches Ok(v) ==> values_read_from(
            buf@,
            pointer_list_targets(buf@, *old(pos) as int),
            0,
            v@,
        ) && *final(pos) == *old(pos) + 8,
        r is Err ==> *final(pos) == *old(pos),
{
    let mut p = *pos;
    let targets = read_pointer_list_targets(buf, &mut p)?;
    let values = read_values::<T>(buf, &targets)?;
    *pos = p;
    Ok(values)
}

/// Whether the inline list of `n`-byte elements at `pos` can be read.
pub open spec fn inline_list_ok(s: Seq<u8>, pos: int, n: int) -> bool {
    &&& fits(s, pos, 8)
    &&& rel_ptr_at(s, pos + 4) matches Some(l) ==> fits(s, l.0 as int, n * u32_at(s, pos))
}

/// The bytes that the inline list of `n`-byte elements at `pos` covers.
pub open spec fn inline_list_bytes(s: Seq<u8>, pos: int, n: int) -> Seq<u8> {
    match rel_ptr_at(s, pos + 4) {
        Some(l) => s.subrange(l.0 as int, l.0 + n * u32_at(s, pos)),
        None => Seq::empty(),
    }
}

/// Reads an inline list of bytes.
pub fn read_inline_bytes(buf: &[u8], pos: &mut usize) -> (r: Result<Vec<u8>, CgfxError>)
    ensures
        r is Ok <==> inline_list_ok(buf@, *old(pos) as int, 1),
        r matches Ok(v) ==> v@ == inline_list_bytes(buf@, *old(pos) as int, 1) && *final(pos)
            == *old(pos) + 8,
        r is Err ==> *final(pos) == *old(pos),
{
    let mut p = *pos;
    if p > buf.len() || buf.len() - p < 8 {
        return Err(CgfxError::TruncatedInput);
    }
    let count = read_u32(buf, &mut p)?;
    let list = read_relative_pointer(buf, &mut p)?;
    let bytes = match list {
        Some(l) => read_bytes(buf, l.0 as usize, count as usize)?,
        None => Vec::new(),
    };
    *pos = p;
    Ok(bytes)
}

/// The `k`-th 32-bit element of the inline list at `pos`.
pub open spec fn inline_word(s: Seq<u8>, pos: int, k: int) -> u32 {
    u32_at(s, rel_ptr_at(s, pos + 4)->Some_0.0 + 4 * k) as u32
}

/// Whether `v` holds the 32-bit elements of the inline list at `pos`.
pub open spec fn inline_words_read_from(s: Seq<u8>, pos: int, v: Seq<u32>) -> bool {
    &&& rel_ptr_at(s, pos + 4) is None ==> v.len() == 0
    &&& rel_ptr_at(s, pos + 4) is Some ==> v.len() == u32_at(s, pos) && forall|k: int|
        0 <= k < v.len() ==> #[trigger] v[k] == inline_word(s, pos, k)
}

/// Reads an inline list of 32-bit integers (or float bit patterns).
pub fn read_inline_words(buf: &[u8], pos: &mut usize) -> (r: Result<Vec<u32>, CgfxError>)
    ensures
        r is Ok <==> inline_list_ok(buf@, *old(pos) as int, 4),
        r matches Ok(v) ==> *final(pos) == *old(pos) + 8 && (rel_ptr_at(buf@, *old(pos) + 4) is None
            ==> v@.len() == 0) && (rel_ptr_at(buf@, *old(pos) + 4) is Some ==> v@.len() == u32_at(
            buf@,
            *old(pos) as int,
        ) && forall|k: int| 0 <= k < v@.len() ==> #[trigger] v@[k] == inline_word(buf@, *old(pos) as int, k)),
        r matches Ok(v) ==> inline_words_read_from(buf@, *old(pos) as int, v@),
        r is Err ==> *final(pos) == *old(pos),
{
    let start_pos = *pos;
    let mut p = *pos;
    if p > buf.len() || buf.len() - p < 8 {
        return Err(CgfxError::TruncatedInput);
    }
    let count = read_u32(buf, &mut p)?;
    let list = read_relative_pointer(buf, &mut p)?;
    let mut words: Vec<u32> = Vec::new();
    match list {
        None => {},
        Some(l) => {
            let start = l.0 as usize;
            if start > buf.len() || (buf.len() - start) / 4 < count as usize {
                return Err(CgfxError::TruncatedInput);
            }
            let blen = buf.len();
            let mut k: usize = 0;
            while k < count as usize
                invariant
                    blen == buf@.len(),
                    k <= count,
                    start == rel_ptr_at(buf@, start_pos + 4)->Some_0.0,
                    start + 4 * count <= buf@.len(),
                    words@.len() == k,
                    forall|i: int| 0 <= i < k ==> #[trigger] words@[i] == inline_word(buf@, start_pos as int, i),
                decreases count - k,
            {
                let mut q = start + 4 * k;
                let w = read_u32(buf, &mut q)?;
                words.push(w);
                k = k + 1;
            }
        },
    }
    *pos = p;
    Ok(words)
}

} // verus!
