//! The dynamic, self-describing variable schema one simulator publishes.
//!
//! Instead of a fixed struct, the producer publishes a table of entries
//! `(type tag, byte offset, element count, name)`, each a fixed 144-byte
//! record, and a flat byte buffer the entries point into.  The table can
//! change shape between sessions, so it is parsed from raw bytes whenever the
//! declared buffer length changes; entries with a type tag this crate does
//! not know, or with a negative offset or count, are skipped rather than
//! failing the whole schema.  Values are then read back by name, interpreted
//! by the entry's tag; floating-point values are handed out as their raw IEEE
//! bit patterns, which the unverified layer may reinterpret.

use vstd::prelude::*;

use crate::codepage::{spec_cp1252_decode_or_empty, cp1252_to_string_or_empty};

verus! {

/// The size in bytes of one raw schema entry.
pub const VAR_HEADER_SIZE: usize = 144;

/// The little-endian 32-bit value at `off`.
pub open spec fn le32(b: Seq<u8>, off: int) -> int {
    b[off] + 0x100 * b[off + 1] + 0x10000 * b[off + 2] + 0x1000000 * b[off + 3]
}

/// The little-endian 64-bit value at `off`.
pub open spec fn le64(b: Seq<u8>, off: int) -> int {
    le32(b, off) + 0x100000000 * le32(b, off + 4)
}

/// The signed reading of an unsigned 32-bit value.
pub open spec fn as_signed32(v: int) -> int {
    if v >= 0x80000000 {
        v - 0x100000000
    } else {
        v
    }
}

/// Reads the little-endian `u32` at `off`.
pub fn read_u32_le(b: &[u8], off: usize) -> (r: u32)
    requires
        off + 4 <= b@.len(),
    ensures
        r == le32(b@, off as int),
{
    (b[off] as u32) + 0x100 * (b[off + 1] as u32) + 0x10000 * (b[off + 2] as u32) + 0x1000000
        * (b[off + 3] as u32)
}

/// Reads the little-endian `i32` at `off`.
pub fn read_i32_le(b: &[u8], off: usize) -> (r: i32)
    requires
        off + 4 <= b@.len(),
    ensures
        r == as_signed32(le32(b@, off as int)),
{
    let v = read_u32_le(b, off);
    if v >= 0x80000000 {
        ((v as i64) - 0x100000000i64) as i32
    } else {
        v as i32
    }
}

/// Reads the little-endian `u64` at `off`.
pub fn read_u64_le(b: &[u8], off: usize) -> (r: u64)
    requires
        off + 8 <= b@.len(),
    ensures
        r == le64(b@, off as int),
{
    let n = b.len();
    proof {
        assert(off + 8 <= n);
    }
    let lo = read_u32_le(b, off);
    let hi = read_u32_le(b, off + 4);
    (lo as u64) + 0x100000000 * (hi as u64)
}

/// The declared type of one schema variable.
#[derive(Clone, Copy, Debug, PartialEq, Eq, Structural)]
pub enum VarType {
    /// One byte of character data.
    Char,
    /// One byte read as false/true.
    Bool,
    /// A 32-bit signed integer.
    Int,
    /// A 32-bit field of flag bits.
    BitField,
    /// A 32-bit IEEE float, handed out as its bit pattern.
    Float,
    /// A 64-bit IEEE float, handed out as its bit pattern.
    Double,
}

/// The type a raw tag declares, or `None` for a tag this crate does not know.
pub open spec fn spec_var_type(tag: int) -> Option<VarType> {
    if tag == 0 {
        Some(VarType::Char)
    } else if tag == 1 {
        Some(VarType::Bool)
    } else if tag == 2 {
        Some(VarType::Int)
    } else if tag == 3 {
        Some(VarType::BitField)
    } else if tag == 4 {
        Some(VarType::Float)
    } else if tag == 5 {
        Some(VarType::Double)
    } else {
        None
    }
}

impl VarType {
    /// Decodes a raw type tag; see [`spec_var_type`].
    pub fn from_tag(tag: i32) -> (r: Option<VarType>)
        ensures
            r == spec_var_type(tag as int),
    {
        if tag == 0 {
            Some(VarType::Char)
        } else if tag == 1 {
            Some(VarType::Bool)
        } else if tag == 2 {
            Some(VarType::Int)
        } else if tag == 3 {
            Some(VarType::BitField)
        } else if tag == 4 {
            Some(VarType::Float)
        } else if tag == 5 {
            Some(VarType::Double)
        } else {
            None
        }
    }

    /// The size in bytes of one element of this type.
    pub open spec fn spec_size(self) -> int {
        match self {
            VarType::Char => 1,
            VarType::Bool => 1,
            VarType::Int => 4,
            VarType::BitField => 4,
            VarType::Float => 4,
            VarType::Double => 8,
        }
    }

    /// The size in bytes of one element of this type.
    pub fn size(&self) -> (s: usize)
        ensures
            s == self.spec_size(),
            1 <= s <= 8,
    {
        match self {
            VarType::Char => 1,
            VarType::Bool => 1,
            VarType::Int => 4,
            VarType::BitField => 4,
            VarType::Float => 4,
            VarType::Double => 8,
        }
    }
}

/// One parsed schema entry: where a named variable lives in the data buffer.
/// Offsets are only valid against the buffer revision the table was parsed
/// from.
#[derive(Clone, Debug, PartialEq, Eq)]
pub struct VarHeader {
    pub name: String,
    pub var_type: VarType,
    pub offset: usize,
    pub count: usize,
}

/// The mathematical reading of a [`VarHeader`].
pub struct VarDesc {
    pub name: Seq<char>,
    pub var_type: VarType,
    pub offset: int,
    pub count: int,
}

impl View for VarHeader {
    type V = VarDesc;

    open spec fn view(&self) -> VarDesc {
        VarDesc {
            name: self.name@,
            var_type: self.var_type,
            offset: self.offset as int,
            count: self.count as int,
        }
    }
}

/// What one raw 144-byte entry at `base` parses to: `None` when its tag is
/// unknown or its offset or count is negative (the entry is then skipped),
/// the descriptor otherwise.  The name is the codepage decoding of bytes
/// 16..48 of the entry.
pub open spec fn spec_parse_entry(b: Seq<u8>, base: int) -> Option<VarDesc> {
    let tag = as_signed32(le32(b, base));
    let offset = as_signed32(le32(b, base + 4));
    let count = as_signed32(le32(b, base + 8));
    match spec_var_type(tag) {
        None => None,
        Some(vt) => if offset < 0 || count < 0 {
            None
        } else {
            Some(
                VarDesc {
                    name: spec_cp1252_decode_or_empty(b.subrange(base + 16, base + 48)),
                    var_type: vt,
                    offset,
                    count,
                },
            )
        },
    }
}

/// The descriptors of the first `num` raw entries, in table order, skipping
/// the entries [`spec_parse_entry`] rejects.
pub open spec fn spec_parse_schema(b: Seq<u8>, num: int) -> Seq<VarDesc>
    decreases num,
{
    if num <= 0 {
        Seq::empty()
    } else {
        let rest = spec_parse_schema(b, num - 1);
        match spec_parse_entry(b, (num - 1) * (VAR_HEADER_SIZE as int)) {
            Some(d) => rest.push(d),
            None => rest,
        }
    }
}

/// Parses the raw variable table.  The producer-declared entry count is
/// bounds checked against the table bytes actually mapped, so a corrupt
/// count cannot cause an out-of-range read; entries with unknown tags are
/// skipped, not fatal.
pub fn parse_var_headers(raw: &[u8], num_vars: usize) -> (r: Vec<VarHeader>)
    ensures
        r@.map_values(|h: VarHeader| h@) == spec_parse_schema(
            raw@,
            spec_usable_entries(raw@.len() as int, num_vars as int),
        ),
{
    let mut usable = num_vars;
    if usable > raw.len() / VAR_HEADER_SIZE {
        usable = raw.len() / VAR_HEADER_SIZE;
    }
    let mut out: Vec<VarHeader> = Vec::new();
    let mut i: usize = 0;
    while i < usable
        invariant
            0 <= i <= usable,
            usable * VAR_HEADER_SIZE <= raw@.len(),
            raw@.len() <= usize::MAX,
            usable == spec_usable_entries(raw@.len() as int, num_vars as int),
            out@.map_values(|h: VarHeader| h@) == spec_parse_schema(raw@, i as int),
        decreases usable - i,
    {
        proof {
            assert((i + 1) * (VAR_HEADER_SIZE as int) <= usable * (VAR_HEADER_SIZE as int))
                by (nonlinear_arith)
                requires
                    i + 1 <= usable,
            ;
        }
        let base = i * VAR_HEADER_SIZE;
        let tag = read_i32_le(raw, base);
        let offset = read_i32_le(raw, base + 4);
        let count = read_i32_le(raw, base + 8);
        let ghost pre = out@.map_values(|h: VarHeader| h@);
        match VarType::from_tag(tag) {
            Some(vt) => {
                if offset >= 0 && count >= 0 {
                    let name = cp1252_to_string_or_empty(&raw[base + 16..base + 48]);
                    let h = VarHeader {
                        name,
                        var_type: vt,
                        offset: offset as usize,
                        count: count as usize,
                    };
                    let ghost hv = h@;
                    out.push(h);
                    proof {
                        assert(spec_parse_entry(raw@, i as int * (VAR_HEADER_SIZE as int))
                            == Some(hv));
                        assert(out@.map_values(|h: VarHeader| h@) =~= pre.push(hv));
                    }
                }
            },
            None => {
            },
        }
        proof {
            assert(out@.map_values(|h: VarHeader| h@) == spec_parse_schema(raw@, i + 1));
        }
        i = i + 1;
    }
    out
}

/// How many entries of the declared count actually fit in the mapped table
/// bytes: the declared count, clamped to what the bytes can hold.
pub open spec fn spec_usable_entries(raw_len: int, num_vars: int) -> int {
    if num_vars > raw_len / (VAR_HEADER_SIZE as int) {
        raw_len / (VAR_HEADER_SIZE as int)
    } else {
        num_vars
    }
}

/// The first descriptor with the given name, in table order.
pub open spec fn spec_find_var(descs: Seq<VarDesc>, name: Seq<char>) -> Option<VarDesc>
    decreases descs.len(),
{
    if descs.len() == 0 {
        None
    } else if descs[0].name == name {
        Some(descs[0])
    } else {
        spec_find_var(descs.drop_first(), name)
    }
}

proof fn lemma_find_var_hit(descs: Seq<VarDesc>, name: Seq<char>, i: int)
    requires
        0 <= i < descs.len(),
        forall|k: int| 0 <= k < i ==> descs[k].name != name,
        descs[i].name == name,
    ensures
        spec_find_var(descs, name) == Some(descs[i]),
    decreases i,
{
    if i > 0 {
        let t = descs.drop_first();
        assert(forall|k: int| 0 <= k < i - 1 ==> t[k] == descs[k + 1] && t[k].name != name);
        lemma_find_var_hit(t, name, i - 1);
    }
}

proof fn lemma_find_var_miss(descs: Seq<VarDesc>, name: Seq<char>)
    requires
        forall|k: int| 0 <= k < descs.len() ==> descs[k].name != name,
    ensures
        spec_find_var(descs, name) is None,
    decreases descs.len(),
{
    if descs.len() > 0 {
        let t = descs.drop_first();
        assert(forall|k: int| 0 <= k < t.len() ==> t[k] == descs[k + 1] && t[k].name != name);
        lemma_find_var_miss(t, name);
    }
}

/// Looks a variable up by name: the first entry with that name, or `None`
/// when the schema does not declare it.
pub fn find_var<'a>(vars: &'a Vec<VarHeader>, name: &str) -> (r: Option<&'a VarHeader>)
    ensures
        match r {
            Some(h) => spec_find_var(vars@.map_values(|h: VarHeader| h@), name@) == Some(h@),
            None => spec_find_var(vars@.map_values(|h: VarHeader| h@), name@) is None,
        },
{
    let ghost descs = vars@.map_values(|h: VarHeader| h@);
    let wanted: String = name.to_owned();
    let mut i: usize = 0;
    while i < vars.len()
        invariant
            0 <= i <= vars@.len(),
            descs == vars@.map_values(|h: VarHeader| h@),
            wanted@ == name@,
            forall|k: int| 0 <= k < i ==> (#[trigger] descs[k]).name != name@,
        decreases vars@.len() - i,
    {
        if vars[i].name == wanted {
            proof {
                lemma_find_var_hit(descs, name@, i as int);
            }
            return Some(&vars[i]);
        }
        i = i + 1;
    }
    proof {
        lemma_find_var_miss(descs, name@);
    }
    None
}

/// One value read out of the data buffer, tagged by its declared type.
/// Float values carry their raw IEEE bit patterns.
#[derive(Clone, Copy, Debug, PartialEq, Eq, Structural)]
pub enum VarValue {
    Char(u8),
    Bool(bool),
    Int(i32),
    BitField(u32),
    FloatBits(u32),
    DoubleBits(u64),
}

/// What reading element `index` of a variable yields: `None` when the index
/// is outside the declared count or the addressed bytes lie outside the
/// buffer; otherwise the bytes at `offset + index * size`, read little-endian
/// and tagged by the declared type.
pub open spec fn spec_read_value(buf: Seq<u8>, d: VarDesc, index: int) -> Option<VarValue> {
    let off = d.offset + index * d.var_type.spec_size();
    if index < 0 || index >= d.count || off + d.var_type.spec_size() > buf.len() {
        None
    } else {
        Some(
            match d.var_type {
                VarType::Char => VarValue::Char(buf[off]),
                VarType::Bool => VarValue::Bool(buf[off] != 0),
                VarType::Int => VarValue::Int(as_signed32(le32(buf, off)) as i32),
                VarType::BitField => VarValue::BitField(le32(buf, off) as u32),
                VarType::Float => VarValue::FloatBits(le32(buf, off) as u32),
                VarType::Double => VarValue::DoubleBits(le64(buf, off) as u64),
            },
        )
    }
}

/// Reads element `index` of the variable the header describes, bounds
/// checked against the buffer; see [`spec_read_value`].
pub fn read_var(buf: &[u8], h: &VarHeader, index: usize) -> (r: Option<VarValue>)
    ensures
        r == spec_read_value(buf@, h@, index as int),
{
    if index >= h.count {
        return None;
    }
    let sz = h.var_type.size();
    proof {
        assert(0 <= (index as int) * (sz as int) <= (u64::MAX as int) * 8) by (nonlinear_arith)
            requires
                0 <= index as int <= u64::MAX as int,
                0 <= sz as int <= 8,
        ;
    }
    let off128: u128 = (h.offset as u128) + (index as u128) * (sz as u128);
    let end128: u128 = off128 + (sz as u128);
    if end128 > buf.len() as u128 {
        return None;
    }
    let off = off128 as usize;
    match h.var_type {
        VarType::Char => Some(VarValue::Char(buf[off])),
        VarType::Bool => Some(VarValue::Bool(buf[off] != 0)),
        VarType::Int => Some(VarValue::Int(read_i32_le(buf, off))),
        VarType::BitField => Some(VarValue::BitField(read_u32_le(buf, off))),
        VarType::Float => Some(VarValue::FloatBits(read_u32_le(buf, off))),
        VarType::Double => Some(VarValue::DoubleBits(read_u64_le(buf, off))),
    }
}

/// What looking a name up and reading its first element yields.
pub open spec fn spec_read_named(descs: Seq<VarDesc>, buf: Seq<u8>, name: Seq<char>) -> Option<
    VarValue,
> {
    match spec_find_var(descs, name) {
        None => None,
        Some(d) => spec_read_value(buf, d, 0),
    }
}

/// Reads the scalar value of a named variable out of the data buffer: `None`
/// when the schema does not declare the name or the entry points outside the
/// buffer, never a failure.
pub fn read_named(vars: &Vec<VarHeader>, buf: &[u8], name: &str) -> (r: Option<VarValue>)
    ensures
        r == spec_read_named(vars@.map_values(|h: VarHeader| h@), buf@, name@),
{
    match find_var(vars, name) {
        None => None,
        Some(h) => read_var(buf, h, 0),
    }
}

/// Decoding is idempotent: two schemas parsed from the same raw bytes, and
/// two values read from them out of the same buffer, are structurally equal
/// — the contracts of [`parse_var_headers`] and [`read_named`] pin each
/// result as a function of the raw bytes alone, so no hidden state can leak
/// between decodes.
pub proof fn lemma_decode_idempotent(
    raw: Seq<u8>,
    num: int,
    buf: Seq<u8>,
    name: Seq<char>,
    first: Seq<VarDesc>,
    second: Seq<VarDesc>,
)
    requires
        first == spec_parse_schema(raw, num),
        second == spec_parse_schema(raw, num),
    ensures
        first == second,
        spec_read_named(first, buf, name) == spec_read_named(second, buf, name),
{
}

} // verus!
