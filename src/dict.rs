//! Named dictionaries: a `DICT` header followed by one sentinel node and one
//! node per entry, each with a name and a value reached by relative pointers.
use vstd::prelude::*;
use vstd::utf8::{decode_utf8, encode_utf8, valid_utf8};
use crate::bytes::{
    extends, lemma_extends_append, lemma_put_last, lemma_extends_refl, lemma_extends_put, lemma_extends_trans,
    fits, get_4_byte_string, le_u16, le_u32, push_bytes, push_u16, push_u32, read_relative_pointer,
    read_string, read_u16, read_u32, rel_ptr_at, string_ptr_is, u16_at, u32_at, cstr_at,
    write_at_pointer,
};
use crate::context::{
    WriteContext, refs_within, insert_entry, find_sub, lemma_insert_within, lemma_within_grow,
};
use crate::error::CgfxError;
use vstd::string::StringExecFns;
use crate::pointer::Pointer;

verus! {

broadcast use {crate::bytes::lemma_le_u32_len, crate::bytes::lemma_le_u16_len};

/// A value that dictionaries can hold: read at an absolute offset, and
/// written in place into the main content.
pub trait CgfxCollectionValue: Sized {
    /// Whether a value can be read at `at`.
    spec fn value_ok(buf: Seq<u8>, at: int) -> bool;

    /// Whether `v` holds what the value stored at `at` holds.
    spec fn value_read_from(buf: Seq<u8>, at: int, v: Self) -> bool;

    /// The error that reading at `at` is known to give, where the value's
    /// kind names one (a wrong tag, say).
    spec fn value_error(buf: Seq<u8>, at: int) -> Option<CgfxError>;

    fn read_dict_value(buf: &[u8], at: usize) -> (r: Result<Self, CgfxError>)
        ensures
            r is Ok <==> Self::value_ok(buf@, at as int),
            r matches Ok(v) ==> Self::value_read_from(buf@, at as int, v),
            Self::value_error(buf@, at as int) matches Some(e) ==> r == Err::<Self, CgfxError>(e),
    ;

    /// The bytes that writing this value appends to the image section.
    spec fn image_bytes_of(&self) -> Seq<u8>;

    /// Whether writing this kind of value is implemented.
    spec fn value_writable(&self) -> bool;

    /// The bytes that writing this value emits in place.
    spec fn value_bytes(&self) -> Seq<u8>;

    fn write_dict_value(&self, out: &mut Vec<u8>, ctx: &mut WriteContext) -> (r: Result<(), CgfxError>)
        ensures
            r is Ok ==> final(ctx).image_section@ == old(ctx).image_section@ + self.image_bytes_of(),
            r is Ok ==> final(out)@ == old(out)@ + self.value_bytes(),
            r == Err::<(), CgfxError>(CgfxError::Unsupported) ==> !self.value_writable(),
            extends(old(out)@, final(out)@),
            forall|lo: int|
                lo <= old(out)@.len() && #[trigger] refs_within(*old(ctx), lo, old(out)@.len() as int)
                    ==> refs_within(*final(ctx), lo, final(out)@.len() as int),
    ;
}

/// One dictionary entry, with the trie fields that the console's lookup uses.
#[derive(Debug, Clone)]
pub struct CgfxNode<T> {
    pub reference_bit: u32,
    pub left_node_index: u16,
    pub right_node_index: u16,
    pub name: Option<String>,
    pub value_pointer: Option<Pointer>,
    pub value: Option<T>,
}

#[derive(Debug, Clone)]
pub struct CgfxDict<T> {
    pub magic_number: String,
    pub tree_length: u32,
    pub values_count: u32,
    pub nodes: Vec<CgfxNode<T>>,
}

/// The offset of node `j` of a dictionary that starts at `p`.
pub open spec fn node_pos(p: int, j: int) -> int {
    p + 12 + 16 * j
}

/// Whether the node at `p` can be read.
pub open spec fn node_ok<T: CgfxCollectionValue>(s: Seq<u8>, p: int) -> bool {
    &&& fits(s, p, 16)
    &&& rel_ptr_at(s, p + 8) matches Some(q) ==> cstr_at(s, q.0 as int) is Some
    &&& rel_ptr_at(s, p + 12) matches Some(q) ==> T::value_ok(s, q.0 as int)
}

/// Whether `n` holds what the node record at `p` stores.
pub open spec fn node_read_from<T: CgfxCollectionValue>(s: Seq<u8>, p: int, n: CgfxNode<T>) -> bool {
    &&& n.reference_bit == u32_at(s, p)
    &&& n.left_node_index == u16_at(s, p + 4)
    &&& n.right_node_index == u16_at(s, p + 6)
    &&& string_ptr_is(s, p + 8, n.name)
    &&& n.value_pointer == rel_ptr_at(s, p + 12)
    &&& (n.value is Some <==> n.value_pointer is Some)
    &&& n.value matches Some(v) ==> T::value_read_from(s, n.value_pointer->Some_0.0 as int, v)
}

/// The bytes `DICT`.
pub open spec fn dict_magic_bytes() -> Seq<u8> {
    seq![0x44u8, 0x49u8, 0x43u8, 0x54u8]
}

/// The dictionary magic `DICT` as a string.
pub fn dict_magic() -> (r: String)
    ensures
        r@ == seq!['D', 'I', 'C', 'T'],
{
    let r = String::from_str("DICT");
    proof {
        reveal_strlit("DICT");
    }
    r
}

/// Whether the dictionary at `p` can be read: it opens with `DICT`.
pub open spec fn dict_ok<T: CgfxCollectionValue>(s: Seq<u8>, p: int) -> bool {
    &&& fits(s, p, 12)
    &&& s.subrange(p, p + 4) == dict_magic_bytes()
    &&& forall|j: int| 0 <= j <= u32_at(s, p + 8) ==> #[trigger] node_ok::<T>(s, node_pos(p, j))
}

/// Whether `d` holds what the dictionary at `p` stores.
pub open spec fn dict_read_from<T: CgfxCollectionValue>(s: Seq<u8>, p: int, d: CgfxDict<T>) -> bool {
    &&& d.magic_number@ == seq!['D', 'I', 'C', 'T']
    &&& d.tree_length == u32_at(s, p + 4)
    &&& d.values_count == u32_at(s, p + 8)
    &&& d.nodes@.len() == d.values_count + 1
    &&& forall|j: int|
        0 <= j < d.nodes@.len() ==> #[trigger] node_read_from(s, node_pos(p, j), d.nodes@[j])
}

/// The image bytes that writing the values of the first `i` nodes appends.
pub open spec fn nodes_image_bytes<T: CgfxCollectionValue>(ns: Seq<CgfxNode<T>>, i: int) -> Seq<u8>
    decreases i,
{
    if i <= 0 {
        Seq::empty()
    } else {
        nodes_image_bytes(ns, i - 1) + match ns[i - 1].value {
            Some(v) => v.image_bytes_of(),
            None => Seq::empty(),
        }
    }
}

/// A node record as written: its trie fields and two zero placeholders.
pub open spec fn node_record<T>(n: CgfxNode<T>) -> Seq<u8> {
    le_u32(n.reference_bit) + le_u16(n.left_node_index) + le_u16(n.right_node_index) + le_u32(0) + le_u32(0)
}

/// The records of the first `i` nodes, one after another.
pub open spec fn node_records<T>(ns: Seq<CgfxNode<T>>, i: int) -> Seq<u8>
    decreases i,
{
    if i <= 0 {
        Seq::empty()
    } else {
        node_records(ns, i - 1) + node_record(ns[i - 1])
    }
}

pub proof fn lemma_node_records_len<T>(ns: Seq<CgfxNode<T>>, i: int)
    requires
        0 <= i,
    ensures
        node_records(ns, i).len() == 16 * i,
    decreases i,
{
    if i > 0 {
        lemma_node_records_len(ns, i - 1);
    }
}

/// What writing a node emits in place: its record, and for a node with a
/// value, the value placeholder patched to 4 (the value follows the record)
/// and then the value's bytes.
pub open spec fn entry_bytes<T: CgfxCollectionValue>(n: CgfxNode<T>) -> Seq<u8> {
    match n.value {
        Some(v) => le_u32(n.reference_bit) + le_u16(n.left_node_index) + le_u16(n.right_node_index) + le_u32(0)
            + le_u32(4) + v.value_bytes(),
        None => node_record(n),
    }
}

/// What writing the first `i` nodes emits, one after another.
pub open spec fn entries_bytes<T: CgfxCollectionValue>(ns: Seq<CgfxNode<T>>, i: int) -> Seq<u8>
    decreases i,
{
    if i <= 0 {
        Seq::empty()
    } else {
        entries_bytes(ns, i - 1) + entry_bytes(ns[i - 1])
    }
}

pub proof fn lemma_entries_no_values<T: CgfxCollectionValue>(ns: Seq<CgfxNode<T>>, i: int)
    requires
        0 <= i <= ns.len(),
        no_values(ns),
    ensures
        entries_bytes(ns, i) == node_records(ns, i),
    decreases i,
{
    if i > 0 {
        lemma_entries_no_values(ns, i - 1);
    }
}

/// Whether no node carries a value.
pub open spec fn no_values<T>(ns: Seq<CgfxNode<T>>) -> bool {
    forall|i: int| 0 <= i < ns.len() ==> #[trigger] ns[i].value is None
}

/// Whether a node holds a value whose writing is not implemented.
pub open spec fn node_unwritable<T: CgfxCollectionValue>(n: CgfxNode<T>) -> bool {
    match n.value {
        Some(v) => !v.value_writable(),
        None => false,
    }
}

/// A sentinel node: the all-ones reference bit, no name and no value.
pub open spec fn is_sentinel<T>(n: CgfxNode<T>) -> bool {
    n.reference_bit == 0xFFFF_FFFF && n.name is None && n.value is None
}

/// A node read from a file is a sentinel exactly when its record stores the
/// all-ones reference bit and two null pointers.
pub proof fn lemma_read_sentinel<T: CgfxCollectionValue>(s: Seq<u8>, p: int, n: CgfxNode<T>)
    requires
        node_read_from(s, p, n),
    ensures
        is_sentinel(n) <==> (u32_at(s, p) == 0xFFFF_FFFF && u32_at(s, p + 8) == 0 && u32_at(
            s,
            p + 12,
        ) == 0),
{
}

impl<T: CgfxCollectionValue> CgfxNode<T> {
    pub fn from_reader(buf: &[u8], pos: &mut usize) -> (r: Result<CgfxNode<T>, CgfxError>)
        ensures
            r is Ok <==> node_ok::<T>(buf@, *old(pos) as int),
            r matches Ok(n) ==> node_read_from(buf@, *old(pos) as int, n) && *final(pos) == *old(
                pos,
            ) + 16,
            r is Err ==> *final(pos) == *old(pos),
    {
        let mut p = *pos;
        if p > buf.len() || buf.len() - p < 16 {
            return Err(CgfxError::TruncatedInput);
        }
        let reference_bit = read_u32(buf, &mut p)?;
        let left_node_index = read_u16(buf, &mut p)?;
        let right_node_index = read_u16(buf, &mut p)?;
        let name_pointer = read_relative_pointer(buf, &mut p)?;
        let value_pointer = read_relative_pointer(buf, &mut p)?;
        let name = match name_pointer {
            Some(q) => Some(read_string(buf, q.0 as usize)?),
            None => None,
        };
        let value = match value_pointer {
            Some(q) => Some(T::read_dict_value(buf, q.0 as usize)?),
            None => None,
        };
        *pos = p;
        Ok(CgfxNode { reference_bit, left_node_index, right_node_index, name, value_pointer, value })
    }

    /// Writes the node record with zeroed name and value placeholders,
    /// registers the name for the string section, and returns the location of
    /// the value placeholder. Offsets are 32-bit: past that the record cannot
    /// be placed.
    pub fn to_writer(&self, out: &mut Vec<u8>, ctx: &mut WriteContext) -> (r: Result<Pointer, CgfxError>)
        ensures
            r is Ok <==> old(out)@.len() + 16 <= u32::MAX,
            r is Err ==> final(out)@ == old(out)@ && *final(ctx) == *old(ctx) && r == Err::<Pointer, CgfxError>(
                CgfxError::InvalidValue,
            ),
            r matches Ok(v) ==> {
                &&& v.0 == old(out)@.len() + 12
                &&& final(out)@ == old(out)@ + le_u32(self.reference_bit) + le_u16(
                    self.left_node_index,
                ) + le_u16(self.right_node_index) + le_u32(0) + le_u32(0)
                &&& final(ctx).image_references == old(ctx).image_references
                &&& final(ctx).image_section == old(ctx).image_section
                &&& self.name is None ==> *final(ctx) == *old(ctx)
                &&& self.name matches Some(nm) ==> {
                    &&& final(ctx).string_references@ == insert_entry(
                        old(ctx).string_references@,
                        Pointer((old(out)@.len() + 8) as u32),
                        nm,
                    )
                    &&& find_sub(old(ctx).string_section@, encode_utf8(nm@)) is Some
                        ==> final(ctx).string_section@ == old(ctx).string_section@
                    &&& find_sub(old(ctx).string_section@, encode_utf8(nm@)) is None
                        ==> final(ctx).string_section@ == old(ctx).string_section@ + encode_utf8(
                        nm@,
                    ) + seq![0u8]
                }
            },
    {
        let start = out.len();
        if start > 0xFFFF_FFFF - 16 {
            return Err(CgfxError::InvalidValue);
        }
        push_u32(out, self.reference_bit);
        push_u16(out, self.left_node_index);
        push_u16(out, self.right_node_index);
        let name_location = Pointer((start + 8) as u32);
        push_u32(out, 0);
        let value_location = Pointer((start + 12) as u32);
        push_u32(out, 0);
        match &self.name {
            Some(name) => {
                let _ = ctx.add_string(name.as_str());
                ctx.add_string_reference(name_location, name.clone());
            },
            None => {},
        }
        Ok(value_location)
    }
}

impl<T: CgfxCollectionValue> CgfxDict<T> {
    /// Reads the dictionary that starts at `start_position` of `buffer`.
    pub fn from_buffer(buffer: &[u8], start_position: Pointer) -> (r: Result<CgfxDict<T>, CgfxError>)
        ensures
            r is Ok <==> dict_ok::<T>(buffer@, start_position.0 as int),
            r matches Ok(d) ==> dict_read_from(buffer@, start_position.0 as int, d),
    {
        let mut pos = start_position.0 as usize;
        Self::from_reader(buffer, &mut pos)
    }

    pub fn from_reader(buf: &[u8], pos: &mut usize) -> (r: Result<CgfxDict<T>, CgfxError>)
        ensures
            r is Ok <==> dict_ok::<T>(buf@, *old(pos) as int),
            r matches Ok(d) ==> dict_read_from(buf@, *old(pos) as int, d) && *final(pos) == node_pos(
                *old(pos) as int,
                d.values_count + 1,
            ),
            r is Err ==> *final(pos) == *old(pos),
    {
        let start = *pos;
        let mut p = *pos;
        if p > buf.len() || buf.len() - p < 12 {
            return Err(CgfxError::TruncatedInput);
        }
        if !(buf[p] == 0x44 && buf[p + 1] == 0x49 && buf[p + 2] == 0x43 && buf[p + 3] == 0x54) {
            assert(buf@.subrange(p as int, p + 4)[0] == buf@[p as int]);
            assert(buf@.subrange(p as int, p + 4)[1] == buf@[p + 1]);
            assert(buf@.subrange(p as int, p + 4)[2] == buf@[p + 2]);
            assert(buf@.subrange(p as int, p + 4)[3] == buf@[p + 3]);
            return Err(CgfxError::MalformedHeader);
        }
        assert(buf@.subrange(p as int, p + 4) =~= dict_magic_bytes());
        p = p + 4;
        let magic_number = dict_magic();
        let tree_length = read_u32(buf, &mut p)?;
        let values_count = read_u32(buf, &mut p)?;
        let n: u64 = values_count as u64 + 1;
        let mut nodes: Vec<CgfxNode<T>> = Vec::new();
        let mut i: u64 = 0;
        while i < n
            invariant
                n == values_count + 1,
                start == *old(pos),
                values_count == u32_at(buf@, start + 8),
                i <= n,
                p == node_pos(start as int, i as int),
                p <= buf@.len(),
                nodes@.len() == i,
                forall|j: int| 0 <= j < i ==> #[trigger] node_ok::<T>(buf@, node_pos(start as int, j)),
                forall|j: int|
                    0 <= j < i ==> #[trigger] node_read_from(
                        buf@,
                        node_pos(start as int, j),
                        nodes@[j],
                    ),
            decreases n - i,
        {
            let ghost before = p;
            let node = match CgfxNode::<T>::from_reader(buf, &mut p) {
                Ok(node) => node,
                Err(e) => {
                    assert(!node_ok::<T>(buf@, node_pos(start as int, i as int)));
                    assert(!dict_ok::<T>(buf@, start as int));
                    return Err(e);
                },
            };
            nodes.push(node);
            i = i + 1;
        }
        *pos = p;
        Ok(CgfxDict { magic_number, tree_length, values_count, nodes })
    }

    /// Writes the dictionary in place: its header, then each node, each
    /// value right after its node, with the value placeholder patched to
    /// point at it.
    pub fn to_writer(&self, out: &mut Vec<u8>, ctx: &mut WriteContext) -> (r: Result<(), CgfxError>)
        ensures
            self.values_count + 1 != self.nodes@.len() ==> r == Err::<(), CgfxError>(
                CgfxError::CountMismatch,
            ) && final(out)@ == old(out)@,
            r is Ok ==> final(ctx).image_section@ == old(ctx).image_section@ + nodes_image_bytes(
                self.nodes@,
                self.nodes@.len() as int,
            ),
            self.values_count + 1 == self.nodes@.len() && no_values(self.nodes@) && old(out)@.len()
                + encode_utf8(self.magic_number@).len() + 8 + 16 * self.nodes@.len() <= u32::MAX ==> r is Ok
                && final(out)@ == old(out)@ + encode_utf8(self.magic_number@) + le_u32(self.tree_length) + le_u32(
                self.values_count,
            ) + node_records(self.nodes@, self.nodes@.len() as int),
            r is Ok ==> final(out)@ == old(out)@ + encode_utf8(self.magic_number@) + le_u32(self.tree_length)
                + le_u32(self.values_count) + entries_bytes(self.nodes@, self.nodes@.len() as int),
            r == Err::<(), CgfxError>(CgfxError::Unsupported) ==> exists|i: int|
                0 <= i < self.nodes@.len() && #[trigger] node_unwritable(self.nodes@[i]),
            extends(old(out)@, final(out)@),
            r is Ok ==> final(out)@.subrange(
                old(out)@.len() as int,
                (old(out)@.len() + encode_utf8(self.magic_number@).len() + 8) as int,
            ) == encode_utf8(self.magic_number@) + le_u32(self.tree_length) + le_u32(
                self.values_count,
            ),
            forall|lo: int|
                lo <= old(out)@.len() && #[trigger] refs_within(*old(ctx), lo, old(out)@.len() as int)
                    ==> refs_within(*final(ctx), lo, final(out)@.len() as int),
    {
        proof {
            lemma_extends_refl(old(out)@);
        }
        if self.values_count as u64 + 1 != self.nodes.len() as u64 {
            return Err(CgfxError::CountMismatch);
        }
        let ghost start = old(out)@.len();
        let magic = self.magic_number.as_str().as_bytes();
        push_bytes(out, magic);
        push_u32(out, self.tree_length);
        push_u32(out, self.values_count);
        let ghost header = encode_utf8(self.magic_number@) + le_u32(self.tree_length) + le_u32(
            self.values_count,
        );
        assert(out@ =~= old(out)@ + header);
        proof {
            lemma_extends_append(old(out)@, header);
            lemma_extends_refl(out@);
            assert forall|lo: int|
                lo <= start && #[trigger] refs_within(*old(ctx), lo, start as int) implies refs_within(
                *ctx,
                lo,
                out@.len() as int,
            ) by {
                lemma_within_grow(*ctx, lo, start as int, out@.len() as int);
            }
        }
        let mut i: usize = 0;
        while i < self.nodes.len()
            invariant
                extends(old(out)@, old(out)@ + header),
                extends(old(out)@ + header, out@),
                extends(old(out)@, out@),
                self.values_count + 1 == self.nodes@.len(),
                start == old(out)@.len(),
                i <= self.nodes@.len(),
                ctx.image_section@ == old(ctx).image_section@ + nodes_image_bytes(self.nodes@, i as int),
                out@ == old(out)@ + header + entries_bytes(self.nodes@, i as int),
                header.len() == encode_utf8(self.magic_number@).len() + 8,
                forall|lo: int|
                    lo <= start && #[trigger] refs_within(*old(ctx), lo, start as int) ==> refs_within(
                        *ctx,
                        lo,
                        out@.len() as int,
                    ),
            decreases self.nodes@.len() - i,
        {
            let ghost out0 = out@;
            let ghost ctx0 = *ctx;
            let node = &self.nodes[i];
            proof {
                lemma_node_records_len(self.nodes@, i as int);
                if no_values(self.nodes@) {
                    lemma_entries_no_values(self.nodes@, i as int);
                }
                if no_values(self.nodes@) && old(out)@.len() + encode_utf8(self.magic_number@).len() + 8 + 16
                    * self.nodes@.len() <= u32::MAX {
                    assert(out@.len() + 16 <= u32::MAX);
                }
            }
            let value_location = node.to_writer(out, ctx)?;
            proof {
                lemma_extends_append(out0, out@.subrange(out0.len() as int, out@.len() as int));
                assert(out0 + out@.subrange(out0.len() as int, out@.len() as int) =~= out@);
                lemma_extends_trans(old(out)@ + header, out0, out@);
                lemma_extends_trans(old(out)@, old(out)@ + header, out@);
                assert forall|lo: int|
                    lo <= start && #[trigger] refs_within(*old(ctx), lo, start as int) implies refs_within(
                    *ctx,
                    lo,
                    out@.len() as int,
                ) by {
                    lemma_within_grow(ctx0, lo, out0.len() as int, out@.len() as int);
                    match &node.name {
                        Some(nm) => {
                            lemma_insert_within(
                                ctx0.string_references@,
                                Pointer((out0.len() + 8) as u32),
                                *nm,
                                lo,
                                out@.len() as int,
                            );
                        },
                        None => {},
                    }
                }
            }
            match &node.value {
                Some(value) => {
                    let current = out.len();
                    if current > 0xFFFF_FFFF {
                        return Err(CgfxError::InvalidValue);
                    }
                    let relative = (current - value_location.0 as usize) as u32;
                    let ghost out1 = out@;
                    write_at_pointer(out, value_location, relative)?;
                    proof {
                        lemma_put_last(out0 + le_u32(node.reference_bit) + le_u16(node.left_node_index) + le_u16(
                            node.right_node_index,
                        ) + le_u32(0), 0, 4);
                        assert(out0 + le_u32(node.reference_bit) + le_u16(node.left_node_index) + le_u16(
                            node.right_node_index,
                        ) + le_u32(0) + le_u32(0) =~= out1);
                        assert(relative == 4);
                        lemma_extends_put(old(out)@ + header, out1, value_location.0 as int, relative);
                        lemma_extends_trans(old(out)@, old(out)@ + header, out@);
                    }
                    let ghost out2 = out@;
                    let ghost ctx2 = *ctx;
                    let written = value.write_dict_value(out, ctx);
                    proof {
                        lemma_extends_trans(old(out)@ + header, out2, out@);
                        lemma_extends_trans(old(out)@, old(out)@ + header, out@);
                        assert forall|lo: int|
                            lo <= start && #[trigger] refs_within(*old(ctx), lo, start as int) implies refs_within(
                            *ctx,
                            lo,
                            out@.len() as int,
                        ) by {
                            assert(refs_within(ctx2, lo, out2.len() as int));
                        }
                    }
                    if written.is_err() {
                        assert(written == Err::<(), CgfxError>(CgfxError::Unsupported) ==> node_unwritable(self.nodes@[i as int]));
                        return written;
                    }
                },
                None => {},
            }
            assert(ctx.image_section@ =~= old(ctx).image_section@ + nodes_image_bytes(self.nodes@, i + 1));
            assert(out@ =~= old(out)@ + header + entries_bytes(self.nodes@, i + 1));
            i = i + 1;
        }
        proof {
            if no_values(self.nodes@) {
                lemma_entries_no_values(self.nodes@, self.nodes@.len() as int);
            }
            lemma_extends_trans(old(out)@, old(out)@ + header, out@);
            assert(out@.subrange(start as int, (start + header.len()) as int) =~= (old(out)@ + header).subrange(
                start as int,
                (start + header.len()) as int,
            ));
            assert((old(out)@ + header).subrange(start as int, (start + header.len()) as int) =~= header);
        }
        Ok(())
    }
}

/// The unit value: dictionaries of kinds whose entries are not read keep
/// their names and value pointers only.
impl CgfxCollectionValue for () {
    open spec fn image_bytes_of(&self) -> Seq<u8> {
        Seq::empty()
    }

    open spec fn value_writable(&self) -> bool {
        true
    }

    open spec fn value_bytes(&self) -> Seq<u8> {
        Seq::empty()
    }

    open spec fn value_ok(buf: Seq<u8>, at: int) -> bool {
        true
    }

    open spec fn value_read_from(buf: Seq<u8>, at: int, v: ()) -> bool {
        true
    }

    open spec fn value_error(buf: Seq<u8>, at: int) -> Option<CgfxError> {
        None
    }

    fn read_dict_value(buf: &[u8], at: usize) -> (r: Result<(), CgfxError>) {
        Ok(())
    }

    fn write_dict_value(&self, out: &mut Vec<u8>, ctx: &mut WriteContext) -> (r: Result<(), CgfxError>) {
        proof {
            lemma_extends_refl(out@);
            assert(out@ =~= old(out)@ + Seq::<u8>::empty());
        }
        Ok(())
    }
}

} // verus!
