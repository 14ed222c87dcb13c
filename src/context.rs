//! What a writer collects while it emits the main content: the string section
//! and the image section, and the placeholders that must be patched to point
//! into them once their final offsets are known.
use vstd::prelude::*;
use crate::error::CgfxError;
use crate::pointer::Pointer;
use vstd::utf8::encode_utf8;

verus! {

/// Whether `n` occurs in `h` at index `i`.
pub open spec fn sub_at(h: Seq<u8>, n: Seq<u8>, i: int) -> bool {
    0 <= i && i + n.len() <= h.len() && h.subrange(i, i + n.len()) == n
}

/// The first index at or after `i` where `n` occurs in `h`.
pub open spec fn first_sub_from(h: Seq<u8>, n: Seq<u8>, i: int) -> Option<int>
    decreases h.len() + 1 - i,
{
    if i < 0 || i + n.len() > h.len() {
        None
    } else if sub_at(h, n, i) {
        Some(i)
    } else {
        first_sub_from(h, n, i + 1)
    }
}

/// The first index where `n` occurs in `h`.
#[verifier::opaque]
pub open spec fn find_sub(h: Seq<u8>, n: Seq<u8>) -> Option<int> {
    first_sub_from(h, n, 0)
}

/// Whether `n` occurs in `h` at index `i`.
pub fn bytes_match_at(h: &[u8], n: &[u8], i: usize) -> (r: bool)
    requires
        i + n@.len() <= h@.len(),
    ensures
        r == sub_at(h@, n@, i as int),
{
    let len = h.len();
    let mut j: usize = 0;
    while j < n.len()
        invariant
            j <= n@.len(),
            len == h@.len(),
            i + n@.len() <= h@.len(),
            forall|k: int| 0 <= k < j ==> h@[i + k] == n@[k],
        decreases n.len() - j,
    {
        if h[i + j] != n[j] {
            assert(h@.subrange(i as int, i + n@.len())[j as int] != n@[j as int]);
            return false;
        }
        j = j + 1;
    }
    assert(h@.subrange(i as int, i + n@.len()) =~= n@);
    true
}

/// The first index where `n` occurs in `h`.
pub fn find_bytes(h: &[u8], n: &[u8]) -> (r: Option<usize>)
    ensures
        r is None <==> find_sub(h@, n@) is None,
        r matches Some(i) ==> find_sub(h@, n@) == Some(i as int),
{
    reveal(find_sub);
    if n.len() > h.len() {
        return None;
    }
    if n.len() == 0 {
        assert(sub_at(h@, n@, 0)) by {
            assert(h@.subrange(0, 0) =~= n@);
        }
        return Some(0);
    }
    let last = h.len() - n.len();
    let mut i: usize = 0;
    while i <= last
        invariant
            last + n@.len() == h@.len(),
            n@.len() >= 1,
            last < usize::MAX,
            find_sub(h@, n@) == first_sub_from(h@, n@, i as int),
        decreases last + 1 - i,
    {
        if bytes_match_at(h, n, i) {
            return Some(i);
        }
        i = i + 1;
    }
    None
}

/// The index of the first entry at or after `i` whose key is `k`.
pub open spec fn first_key_from<V>(s: Seq<(Pointer, V)>, k: Pointer, i: int) -> Option<int>
    decreases s.len() - i,
{
    if i < 0 || i >= s.len() {
        None
    } else if s[i].0 == k {
        Some(i)
    } else {
        first_key_from(s, k, i + 1)
    }
}

/// The index of the first entry whose key is `k`.
pub open spec fn first_key<V>(s: Seq<(Pointer, V)>, k: Pointer) -> Option<int> {
    first_key_from(s, k, 0)
}

/// `s` with the value for `k` set to `v`: the entry for `k` is replaced, or a
/// new entry is appended when there is none.
pub open spec fn insert_entry<V>(s: Seq<(Pointer, V)>, k: Pointer, v: V) -> Seq<(Pointer, V)> {
    match first_key(s, k) {
        Some(i) => s.update(i, (k, v)),
        None => s.push((k, v)),
    }
}

/// The index of the first entry of `s` whose key is `k`.
fn position_of_key<V>(s: &Vec<(Pointer, V)>, k: Pointer) -> (r: Option<usize>)
    ensures
        r is None <==> first_key(s@, k) is None,
        r matches Some(i) ==> first_key(s@, k) == Some(i as int) && i < s@.len(),
{
    let mut i: usize = 0;
    while i < s.len()
        invariant
            i <= s@.len(),
            first_key(s@, k) == first_key_from(s@, k, i as int),
        decreases s.len() - i,
    {
        if s[i].0 == k {
            return Some(i);
        }
        i = i + 1;
    }
    None
}

/// Whether no two entries share a key: the entries form a map.
pub open spec fn keys_unique<V>(s: Seq<(Pointer, V)>) -> bool {
    forall|i: int, j: int| 0 <= i < j < s.len() ==> #[trigger] s[i].0 != #[trigger] s[j].0
}

pub proof fn lemma_first_key_none<V>(s: Seq<(Pointer, V)>, k: Pointer, i: int)
    requires
        0 <= i,
        first_key_from(s, k, i) is None,
    ensures
        forall|j: int| i <= j < s.len() ==> #[trigger] s[j].0 != k,
    decreases s.len() - i,
{
    if i < s.len() {
        lemma_first_key_none(s, k, i + 1);
    }
}

/// Inserting keeps the keys unique.
pub proof fn lemma_insert_keeps_unique<V>(s: Seq<(Pointer, V)>, k: Pointer, v: V)
    requires
        keys_unique(s),
    ensures
        keys_unique(insert_entry(s, k, v)),
{
    lemma_first_key_from_bounds(s, k, 0);
    if first_key(s, k) is None {
        lemma_first_key_none(s, k, 0);
        let t = insert_entry(s, k, v);
        assert forall|i: int, j: int| 0 <= i < j < t.len() implies #[trigger] t[i].0 != #[trigger] t[j].0 by {
            if j == s.len() {
                assert(s[i].0 != k);
            }
        }
    }
}

/// Whether every registered placeholder lies in `lo..hi`.
pub open spec fn refs_within(ctx: WriteContext, lo: int, hi: int) -> bool {
    &&& forall|i: int|
        0 <= i < ctx.string_references@.len() ==> lo <= #[trigger] ctx.string_references@[i].0.0
            && ctx.string_references@[i].0.0 + 4 <= hi
    &&& forall|i: int|
        0 <= i < ctx.image_references@.len() ==> lo <= #[trigger] ctx.image_references@[i].0.0
            && ctx.image_references@[i].0.0 + 4 <= hi
}

/// The string and image sections under construction, with the placeholders
/// that point into them. Each reference maps a placeholder's absolute
/// location to its target: a string of the string section, or an offset into
/// the image section.
pub struct WriteContext {
    pub string_section: Vec<u8>,
    pub string_references: Vec<(Pointer, String)>,
    pub image_section: Vec<u8>,
    pub image_references: Vec<(Pointer, Pointer)>,
}

impl WriteContext {
    pub fn new() -> (r: WriteContext)
        ensures
            r.string_section@.len() == 0,
            r.string_references@.len() == 0,
            r.image_section@.len() == 0,
            r.image_references@.len() == 0,
    {
        WriteContext {
            string_section: Vec::new(),
            string_references: Vec::new(),
            image_section: Vec::new(),
            image_references: Vec::new(),
        }
    }

    /// Adds `string`, null-terminated, to the string section unless its bytes
    /// already occur there; a string that is a part of one already present
    /// shares its bytes.
    pub fn add_string(&mut self, string: &str) -> (r: Result<(), CgfxError>)
        ensures
            r is Ok,
            find_sub(old(self).string_section@, encode_utf8(string@)) is Some
                ==> final(self).string_section@ == old(self).string_section@,
            find_sub(old(self).string_section@, encode_utf8(string@)) is None
                ==> final(self).string_section@ == old(self).string_section@ + encode_utf8(string@)
                + seq![0u8],
            final(self).string_references == old(self).string_references,
            final(self).image_section == old(self).image_section,
            final(self).image_references == old(self).image_references,
    {
        let bytes = string.as_bytes();
        if find_bytes(self.string_section.as_slice(), bytes).is_some() {
            return Ok(());
        }
        let mut i: usize = 0;
        while i < bytes.len()
            invariant
                i <= bytes@.len(),
                bytes@ == encode_utf8(string@),
                self.string_section@ == old(self).string_section@ + bytes@.subrange(0, i as int),
                self.string_references == old(self).string_references,
                self.image_section == old(self).image_section,
                self.image_references == old(self).image_references,
            decreases bytes.len() - i,
        {
            self.string_section.push(bytes[i]);
            i = i + 1;
            assert(self.string_section@ =~= old(self).string_section@ + bytes@.subrange(0, i as int));
        }
        self.string_section.push(0u8);
        assert(bytes@.subrange(0, bytes@.len() as int) =~= bytes@);
        assert(self.string_section@ =~= old(self).string_section@ + encode_utf8(string@) + seq![0u8]);
        Ok(())
    }

    /// Records that the placeholder at `origin` must point to `target_string`.
    pub fn add_string_reference(&mut self, origin: Pointer, target_string: String)
        ensures
            final(self).string_references@ == insert_entry(
                old(self).string_references@,
                origin,
                target_string,
            ),
            keys_unique(old(self).string_references@) ==> keys_unique(final(self).string_references@),
            final(self).string_section == old(self).string_section,
            final(self).image_section == old(self).image_section,
            final(self).image_references == old(self).image_references,
    {
        proof {
            if keys_unique(self.string_references@) {
                lemma_insert_keeps_unique(self.string_references@, origin, target_string);
            }
        }
        match position_of_key(&self.string_references, origin) {
            Some(i) => {
                self.string_references.set(i, (origin, target_string));
            },
            None => {
                self.string_references.push((origin, target_string));
            },
        }
    }

    /// Appends `content` to the image section.
    pub fn append_to_image_section(&mut self, content: &[u8]) -> (r: Result<(), CgfxError>)
        ensures
            r is Ok,
            final(self).image_section@ == old(self).image_section@ + content@,
            final(self).string_section == old(self).string_section,
            final(self).string_references == old(self).string_references,
            final(self).image_references == old(self).image_references,
    {
        let mut i: usize = 0;
        while i < content.len()
            invariant
                i <= content@.len(),
                self.image_section@ == old(self).image_section@ + content@.subrange(0, i as int),
                self.string_section == old(self).string_section,
                self.string_references == old(self).string_references,
                self.image_references == old(self).image_references,
            decreases content.len() - i,
        {
            self.image_section.push(content[i]);
            i = i + 1;
            assert(self.image_section@ =~= old(self).image_section@ + content@.subrange(0, i as int));
        }
        assert(content@.subrange(0, content@.len() as int) =~= content@);
        Ok(())
    }

    /// Records that the placeholder at `origin` must point to the current end
    /// of the image section, where the next image bytes will start. The image
    /// section's offsets are 32-bit: past that size this is an invalid value.
    pub fn add_image_reference_to_current_end(&mut self, origin: Pointer) -> (r: Result<(), CgfxError>)
        ensures
            r is Ok <==> old(self).image_section@.len() <= u32::MAX,
            r is Ok ==> final(self).image_references@ == insert_entry(
                old(self).image_references@,
                origin,
                Pointer(old(self).image_section@.len() as u32),
            ),
            r is Err ==> final(self).image_references == old(self).image_references,
            keys_unique(old(self).image_references@) ==> keys_unique(final(self).image_references@),
            final(self).string_section == old(self).string_section,
            final(self).string_references == old(self).string_references,
            final(self).image_section == old(self).image_section,
    {
        let len = self.image_section.len();
        if len > 0xFFFF_FFFF {
            return Err(CgfxError::InvalidValue);
        }
        let target = Pointer(len as u32);
        proof {
            if keys_unique(self.image_references@) {
                lemma_insert_keeps_unique(self.image_references@, origin, target);
            }
        }
        match position_of_key(&self.image_references, origin) {
            Some(i) => {
                self.image_references.set(i, (origin, target));
            },
            None => {
                self.image_references.push((origin, target));
            },
        }
        Ok(())
    }
}

pub proof fn lemma_first_key_from_bounds<V>(s: Seq<(Pointer, V)>, k: Pointer, i: int)
    ensures
        first_key_from(s, k, i) matches Some(j) ==> 0 <= j < s.len() && s[j].0 == k,
    decreases s.len() - i,
{
    if 0 <= i < s.len() && s[i].0 != k {
        lemma_first_key_from_bounds(s, k, i + 1);
    }
}

/// Registering a placeholder inside `lo..hi` keeps all of them inside.
pub proof fn lemma_insert_within<V>(s: Seq<(Pointer, V)>, k: Pointer, v: V, lo: int, hi: int)
    requires
        forall|i: int| 0 <= i < s.len() ==> lo <= #[trigger] s[i].0.0 && s[i].0.0 + 4 <= hi,
        lo <= k.0,
        k.0 + 4 <= hi,
    ensures
        forall|i: int|
            0 <= i < insert_entry(s, k, v).len() ==> lo <= #[trigger] insert_entry(s, k, v)[i].0.0
                && insert_entry(s, k, v)[i].0.0 + 4 <= hi,
{
    lemma_first_key_from_bounds(s, k, 0);
    let t = insert_entry(s, k, v);
    assert forall|i: int| 0 <= i < t.len() implies lo <= #[trigger] t[i].0.0 && t[i].0.0 + 4 <= hi by {
        if i < s.len() {
            assert(t[i].0 == s[i].0 || t[i].0 == k);
        }
    }
}

/// Placeholders inside `lo..hi` are inside any larger range.
pub proof fn lemma_within_grow(ctx: WriteContext, lo: int, hi: int, hi2: int)
    requires
        refs_within(ctx, lo, hi),
        hi <= hi2,
    ensures
        refs_within(ctx, lo, hi2),
{
}

} // verus!
