//! Parsing a byte stream into a file. The byte order is chosen by the
//! header's marker; every pointer is an absolute offset into the stream.
use vstd::prelude::*;
use crate::bytes::{in_bounds, read_uint, uint_at};
use crate::error::{Field, FormatError};
use crate::format::{
    dimension_code, format_code, view_dimension_code, SurfaceFormat, TextureDimension,
    TextureViewDimension,
};
use crate::model::{
    align_up, BntxFile, BntxHeader, BntxStr, BrtiSection, ByteOrder, DictNode, DictSection,
    NxHeader, RelocationEntry, RelocationSection, RelocationTable, StrSection, Texture,
};
use crate::writer::{
    MAGIC_BNTX, MAGIC_BRTI, MAGIC_DIC, MAGIC_NX, MAGIC_RLT, MAGIC_STR,
};

verus! {

/// The unsigned integer of `n` bytes at `off`.
pub open spec fn u(b: Seq<u8>, off: int, n: int, e: bool) -> int {
    uint_at(b, off, n, e) as int
}

/// A four-byte magic at `off`, compared byte for byte.
pub open spec fn magic_at(b: Seq<u8>, off: int, m: u64) -> bool {
    in_bounds(b, off, 4) && uint_at(b, off, 4, true) == m
}

/// A pool string at `p`: a `u16` length and that many bytes.
pub open spec fn str_ok(b: Seq<u8>, p: int, e: bool) -> bool {
    in_bounds(b, p, 2) && in_bounds(b, p + 2, u(b, p, 2, e))
}

pub open spec fn str_at(b: Seq<u8>, p: int, e: bool, s: BntxStr) -> bool {
    str_ok(b, p, e) && s.chars@ == b.subrange(p + 2, p + 2 + u(b, p, 2, e))
}

/// Where the pool string after the one at `p` starts: past its terminating
/// zero, aligned to 4.
pub open spec fn str_next(b: Seq<u8>, p: int, e: bool) -> int {
    align_up((p + 3 + u(b, p, 2, e)) as nat, 4) as int
}

/// Where pool string `i` starts when string 0 starts at `p0`.
pub open spec fn str_pos(b: Seq<u8>, p0: int, e: bool, i: nat) -> int
    decreases i,
{
    if i == 0 {
        p0
    } else {
        str_next(b, str_pos(b, p0, e, (i - 1) as nat), e)
    }
}

pub open spec fn strings_ok(b: Seq<u8>, p0: int, e: bool, n: nat) -> bool {
    forall|i: nat| i < n ==> str_ok(b, #[trigger] str_pos(b, p0, e, i), e)
}

/// The string pool at `sp`.
pub open spec fn str_section_ok(b: Seq<u8>, sp: int, e: bool) -> bool {
    &&& magic_at(b, sp, MAGIC_STR)
    &&& in_bounds(b, sp + 4, 16)
    &&& str_ok(b, sp + 20, e)
    &&& strings_ok(b, str_next(b, sp + 20, e), e, u(b, sp + 16, 4, e) as nat)
}

pub open spec fn str_section_at(b: Seq<u8>, sp: int, e: bool, s: StrSection) -> bool {
    &&& str_section_ok(b, sp, e)
    &&& s.block_size == u(b, sp + 4, 4, e)
    &&& s.block_offset == u(b, sp + 8, 8, e)
    &&& s.strings@.len() == u(b, sp + 16, 4, e)
    &&& forall|i: int|
        0 <= i < s.strings@.len() ==> str_at(
            b,
            str_pos(b, str_next(b, sp + 20, e), e, i as nat),
            e,
            #[trigger] s.strings@[i],
        )
}

/// The total of the fix-up counts of the first `n` regions at `base`.
pub open spec fn count_sum_at(b: Seq<u8>, base: int, e: bool, n: nat) -> int
    decreases n,
{
    if n == 0 {
        0
    } else {
        count_sum_at(b, base, e, (n - 1) as nat) + u(b, base + 24 * (n - 1) + 20, 4, e)
    }
}

/// The relocation table at `rp`.
pub open spec fn reloc_ok(b: Seq<u8>, rp: int, e: bool) -> bool {
    let c = u(b, rp + 8, 4, e);
    &&& magic_at(b, rp, MAGIC_RLT)
    &&& in_bounds(b, rp + 4, 8)
    &&& (c == 0 || in_bounds(b, rp + 16, 24 * c))
    &&& (count_sum_at(b, rp + 16, e, c as nat) == 0 || in_bounds(
        b,
        rp + 16 + 24 * c,
        8 * count_sum_at(b, rp + 16, e, c as nat),
    ))
}

pub open spec fn reloc_section_at(b: Seq<u8>, p: int, e: bool, s: RelocationSection) -> bool {
    &&& s.pointer == u(b, p, 8, e)
    &&& s.position == u(b, p + 8, 4, e)
    &&& s.size == u(b, p + 12, 4, e)
    &&& s.index == u(b, p + 16, 4, e)
    &&& s.count == u(b, p + 20, 4, e)
}

pub open spec fn reloc_entry_at(b: Seq<u8>, p: int, e: bool, x: RelocationEntry) -> bool {
    &&& x.position == u(b, p, 4, e)
    &&& x.struct_count == u(b, p + 4, 2, e)
    &&& x.offset_count == u(b, p + 6, 1, e)
    &&& x.padding_count == u(b, p + 7, 1, e)
}

pub open spec fn reloc_at(b: Seq<u8>, rp: int, e: bool, t: RelocationTable) -> bool {
    let c = u(b, rp + 8, 4, e);
    &&& reloc_ok(b, rp, e)
    &&& t.sections@.len() == c
    &&& forall|i: int|
        0 <= i < c ==> reloc_section_at(b, rp + 16 + 24 * i, e, #[trigger] t.sections@[i])
    &&& t.entries@.len() == count_sum_at(b, rp + 16, e, c as nat)
    &&& forall|j: int|
        0 <= j < t.entries@.len() ==> reloc_entry_at(
            b,
            rp + 16 + 24 * c + 8 * j,
            e,
            #[trigger] t.entries@[j],
        )
}

/// The dictionary at `dp`: a count, then one node more than it counts.
pub open spec fn dict_ok(b: Seq<u8>, dp: int, e: bool) -> bool {
    let n = u(b, dp + 4, 4, e) + 1;
    &&& magic_at(b, dp, MAGIC_DIC)
    &&& in_bounds(b, dp + 4, 4)
    &&& in_bounds(b, dp + 8, 16 * n)
    &&& forall|i: int| 0 <= i < n ==> str_ok(b, #[trigger] u(b, dp + 8 + 16 * i + 8, 8, e), e)
}

pub open spec fn dict_node_at(b: Seq<u8>, p: int, e: bool, x: DictNode) -> bool {
    &&& x.reference == u(b, p, 4, e) as i32
    &&& x.left_index == u(b, p + 4, 2, e)
    &&& x.right_index == u(b, p + 6, 2, e)
    &&& str_at(b, u(b, p + 8, 8, e), e, x.name)
}

pub open spec fn dict_at(b: Seq<u8>, dp: int, e: bool, d: DictSection) -> bool {
    &&& dict_ok(b, dp, e)
    &&& d.node_count == u(b, dp + 4, 4, e)
    &&& d.nodes@.len() == u(b, dp + 4, 4, e) + 1
    &&& forall|i: int|
        0 <= i < d.nodes@.len() ==> dict_node_at(b, dp + 8 + 16 * i, e, #[trigger] d.nodes@[i])
}

/// The texture at `tp`: `mips` offsets, then `size` bytes at the first.
pub open spec fn texture_ok(b: Seq<u8>, tp: int, e: bool, mips: int, size: int) -> bool {
    &&& mips >= 1
    &&& in_bounds(b, tp, 8 * mips)
    &&& (size == 0 || in_bounds(b, u(b, tp, 8, e), size))
}

pub open spec fn texture_at(b: Seq<u8>, tp: int, e: bool, mips: int, size: int, t: Texture) -> bool {
    &&& texture_ok(b, tp, e, mips, size)
    &&& t.mipmap_offsets@.len() == mips
    &&& forall|i: int|
        0 <= i < mips ==> #[trigger] t.mipmap_offsets@[i] == u(b, tp + 8 * i, 8, e)
    &&& t.image_data@.len() == size
    &&& forall|k: int| 0 <= k < size ==> #[trigger] t.image_data@[k] == b[u(b, tp, 8, e) + k]
}

/// The texture record at `p`.
pub open spec fn brti_ok(b: Seq<u8>, p: int, e: bool) -> bool {
    &&& magic_at(b, p, MAGIC_BRTI)
    &&& in_bounds(b, p + 4, 116)
    &&& exists|d: TextureDimension| dimension_code(d) == u(b, p + 17, 1, e)
    &&& exists|f: SurfaceFormat| format_code(f) == u(b, p + 28, 4, e)
    &&& exists|v: TextureViewDimension| view_dimension_code(v) == u(b, p + 92, 4, e)
    &&& str_ok(b, u(b, p + 96, 8, e), e)
    &&& texture_ok(b, u(b, p + 112, 8, e), e, u(b, p + 22, 2, e), u(b, p + 80, 4, e))
}

pub open spec fn brti_at(b: Seq<u8>, p: int, e: bool, x: BrtiSection) -> bool {
    &&& brti_ok(b, p, e)
    &&& x.size == u(b, p + 4, 4, e)
    &&& x.size2 == u(b, p + 8, 8, e)
    &&& x.flags == u(b, p + 16, 1, e)
    &&& dimension_code(x.texture_dimension) == u(b, p + 17, 1, e)
    &&& x.tile_mode == u(b, p + 18, 2, e)
    &&& x.swizzle == u(b, p + 20, 2, e)
    &&& x.mipmap_count == u(b, p + 22, 2, e)
    &&& x.multi_sample_count == u(b, p + 24, 4, e)
    &&& format_code(x.format) == u(b, p + 28, 4, e)
    &&& x.unk2 == u(b, p + 32, 4, e)
    &&& x.width == u(b, p + 36, 4, e)
    &&& x.height == u(b, p + 40, 4, e)
    &&& x.depth == u(b, p + 44, 4, e)
    &&& x.layer_count == u(b, p + 48, 4, e)
    &&& x.block_height_log2 == u(b, p + 52, 4, e)
    &&& x.unk4@.len() == 6
    &&& forall|i: int| 0 <= i < 6 ==> #[trigger] x.unk4@[i] == u(b, p + 56 + 4 * i, 4, e)
    &&& x.image_size == u(b, p + 80, 4, e)
    &&& x.align == u(b, p + 84, 4, e)
    &&& x.comp_sel == u(b, p + 88, 4, e)
    &&& view_dimension_code(x.texture_view_dimension) == u(b, p + 92, 4, e)
    &&& str_at(b, u(b, p + 96, 8, e), e, x.name)
    &&& x.parent_addr == u(b, p + 104, 8, e)
    &&& texture_at(
        b,
        u(b, p + 112, 8, e),
        e,
        u(b, p + 22, 2, e),
        u(b, p + 80, 4, e),
        x.texture,
    )
}

/// A zero-terminated string at `p`.
pub open spec fn cstr_ok(b: Seq<u8>, p: int) -> bool {
    0 <= p && exists|k: int| p <= k < b.len() && b[k] == 0
}

pub open spec fn cstr_at(b: Seq<u8>, p: int, s: Seq<u8>) -> bool {
    &&& 0 <= p
    &&& p + s.len() < b.len()
    &&& b[p + s.len()] == 0
    &&& forall|k: int| p <= k < p + s.len() ==> b[k] != 0
    &&& s == b.subrange(p, p + s.len())
}

/// Whether the stream is little-endian, by its byte-order marker.
pub open spec fn is_little(b: Seq<u8>) -> bool {
    uint_at(b, 12, 2, false) == 0xFFFE
}

/// Where the texture record is: behind two pointers from the `NX  ` header.
pub open spec fn brti_pos(b: Seq<u8>, e: bool) -> int {
    u(b, u(b, 0x28, 8, e), 8, e)
}

/// The stream holds a BNTX file.
pub open spec fn parse_ok(b: Seq<u8>) -> bool {
    let e = is_little(b);
    &&& magic_at(b, 0, MAGIC_BNTX)
    &&& in_bounds(b, 8, 6)
    &&& (uint_at(b, 12, 2, false) == 0xFFFE || uint_at(b, 12, 2, false) == 0xFEFF)
    &&& in_bounds(b, 14, 18)
    &&& cstr_ok(b, u(b, 16, 4, e))
    &&& str_section_ok(b, u(b, 22, 2, e), e)
    &&& reloc_ok(b, u(b, 24, 4, e), e)
    &&& magic_at(b, 0x20, MAGIC_NX)
    &&& in_bounds(b, 0x24, 0x24)
    &&& in_bounds(b, u(b, 0x28, 8, e), 8)
    &&& brti_ok(b, brti_pos(b, e), e)
    &&& dict_ok(b, u(b, 0x38, 8, e), e)
}

/// `f` is what the stream holds.
#[verifier::opaque]
pub open spec fn parses_to(b: Seq<u8>, f: BntxFile) -> bool {
    let e = is_little(b);
    let h = f.header;
    &&& parse_ok(b)
    &&& h.version == (u(b, 8, 2, true) as u16, u(b, 10, 2, true) as u16)
    &&& h.bom == (if e {
        ByteOrder::LittleEndian
    } else {
        ByteOrder::BigEndian
    })
    &&& h.revision == u(b, 14, 2, e)
    &&& cstr_at(b, u(b, 16, 4, e), h.file_name@)
    &&& str_section_at(b, u(b, 22, 2, e), e, h.str_section)
    &&& reloc_at(b, u(b, 24, 4, e), e, h.reloc_table)
    &&& brti_at(b, brti_pos(b, e), e, f.nx_header.brti)
    &&& dict_at(b, u(b, 0x38, 8, e), e, f.nx_header.dict)
    &&& f.nx_header.dict_size == u(b, 0x40, 8, e)
}

/// Positions in the stream: a 64-bit pointer plus a small displacement.
pub open spec fn pos_ok(p: int) -> bool {
    0 <= p <= 0x2_0000_0000_0000_0000
}

fn end_error(off: u128) -> (r: FormatError)
    ensures
        r.field == Field::UnexpectedEnd,
        r.offset == off as u64,
{
    FormatError { offset: off as u64, field: Field::UnexpectedEnd }
}

/// Reads the unsigned integer of `n` bytes at `off`.
fn get(b: &[u8], off: u128, n: usize, e: bool) -> (r: Result<u64, FormatError>)
    requires
        1 <= n <= 8,
    ensures
        r is Ok <==> in_bounds(b@, off as int, n as int),
        r matches Ok(v) ==> v as int == u(b@, off as int, n as int, e),
        r matches Ok(v) ==> (n == 1 ==> v <= u8::MAX) && (n == 2 ==> v <= u16::MAX) && (n == 4
            ==> v <= u32::MAX),
        r matches Err(e) ==> e == (FormatError { offset: off as u64, field: Field::UnexpectedEnd }),
{
    proof {
        crate::bytes::lemma_pow256_facts();
        reveal_with_fuel(crate::bytes::pow256, 5);
    }
    if off > b.len() as u128 {
        return Err(end_error(off));
    }
    match read_uint(b, off as usize, n, e) {
        Some(v) => Ok(v),
        None => Err(end_error(off)),
    }
}

/// Checks the four-byte magic at `off`.
fn expect_magic(b: &[u8], off: u128, m: u64) -> (r: Result<(), FormatError>)
    ensures
        r is Ok <==> magic_at(b@, off as int, m),
        in_bounds(b@, off as int, 4) && !magic_at(b@, off as int, m) ==> r == Err::<(), FormatError>(
            FormatError { offset: off as u64, field: Field::Magic },
        ),
        !in_bounds(b@, off as int, 4) ==> r == Err::<(), FormatError>(
            FormatError { offset: off as u64, field: Field::UnexpectedEnd },
        ),
{
    let v = get(b, off, 4, true)?;
    if v != m {
        return Err(FormatError { offset: off as u64, field: Field::Magic });
    }
    Ok(())
}

/// A copy of `len` bytes at `start`.
fn copy_range(b: &[u8], start: usize, len: usize) -> (r: Vec<u8>)
    requires
        start + len <= b@.len(),
    ensures
        r@ == b@.subrange(start as int, start + len),
{
    let mut v: Vec<u8> = Vec::new();
    let mut i: usize = 0;
    let blen = b.len();
    while i < len
        invariant
            i <= len,
            blen == b@.len(),
            start + len <= blen,
            v@ == b@.subrange(start as int, start + i),
        decreases len - i,
    {
        v.push(b[start + i]);
        i = i + 1;
        proof {
            assert(v@ =~= b@.subrange(start as int, start + i));
        }
    }
    v
}

/// `x` rounded up to a multiple of 4.
fn align4(x: u128) -> (r: u128)
    requires
        x <= 0x4_0000_0000_0000_0000,
    ensures
        r == align_up(x as nat, 4),
        x <= r <= x + 3,
{
    let q = (x + 3) / 4;
    proof {
        vstd::arithmetic::div_mod::lemma_fundamental_div_mod((x + 3) as int, 4);
        vstd::arithmetic::div_mod::lemma_mod_pos_bound((x + 3) as int, 4);
    }
    q * 4
}

/// Reads the pool string at `p`, and where the next one starts.
fn parse_str(b: &[u8], p: u128, e: bool) -> (r: Result<(BntxStr, u128), FormatError>)
    requires
        pos_ok(p as int),
    ensures
        r is Ok <==> str_ok(b@, p as int, e),
        r matches Ok((s, nx)) ==> str_at(b@, p as int, e, s) && nx == str_next(b@, p as int, e)
            && nx <= 0x1_0000_0000_0000_0003,
{
    assert(b.len() as u128 <= 0xFFFF_FFFF_FFFF_FFFF);
    let len = get(b, p, 2, e)?;
    let start = p + 2;
    if start + len as u128 > b.len() as u128 {
        return Err(end_error(start));
    }
    let chars = copy_range(b, start as usize, len as usize);
    let nx = align4(p + 3 + len as u128);
    Ok((BntxStr { chars }, nx))
}

/// Reads `n` pool strings, the first at `p0`.
fn parse_strings(b: &[u8], p0: u128, e: bool, n: u64) -> (r: Result<Vec<BntxStr>, FormatError>)
    requires
        pos_ok(p0 as int),
    ensures
        r is Ok <==> strings_ok(b@, p0 as int, e, n as nat),
        r matches Ok(v) ==> v@.len() == n && forall|i: int|
            0 <= i < n ==> str_at(b@, str_pos(b@, p0 as int, e, i as nat), e, #[trigger] v@[i]),
{
    let mut v: Vec<BntxStr> = Vec::new();
    let mut pos = p0;
    let mut i: u64 = 0;
    while i < n
        invariant
            i <= n,
            pos_ok(pos as int),
            pos == str_pos(b@, p0 as int, e, i as nat),
            v@.len() == i,
            strings_ok(b@, p0 as int, e, i as nat),
            forall|k: int|
                0 <= k < i ==> str_at(b@, str_pos(b@, p0 as int, e, k as nat), e, #[trigger] v@[k]),
        decreases n - i,
    {
        let res = parse_str(b, pos, e);
        match res {
            Ok((s, nx)) => {
                v.push(s);
                pos = nx;
                i = i + 1;
                proof {
                    assert(str_pos(b@, p0 as int, e, i as nat) == nx);
                    assert forall|k: nat| k < i implies str_ok(
                        b@,
                        #[trigger] str_pos(b@, p0 as int, e, k),
                        e,
                    ) by {
                        if k < i - 1 {
                            assert(str_ok(b@, str_pos(b@, p0 as int, e, k), e));
                        }
                    }
                }
            },
            Err(err) => {
                proof {
                    assert(!str_ok(b@, str_pos(b@, p0 as int, e, i as nat), e));
                }
                return Err(err);
            },
        }
    }
    Ok(v)
}

fn parse_str_section(b: &[u8], sp: u128, e: bool) -> (r: Result<StrSection, FormatError>)
    requires
        sp <= u64::MAX,
    ensures
        r is Ok <==> str_section_ok(b@, sp as int, e),
        r matches Ok(s) ==> str_section_at(b@, sp as int, e, s),
{
    expect_magic(b, sp, MAGIC_STR)?;
    let block_size = get(b, sp + 4, 4, e)?;
    let block_offset = get(b, sp + 8, 8, e)?;
    let count = get(b, sp + 16, 4, e)?;
    let (_, first) = parse_str(b, sp + 20, e)?;
    let strings = parse_strings(b, first, e, count)?;
    Ok(StrSection { block_size: block_size as u32, block_offset, strings })
}

fn parse_reloc(b: &[u8], rp: u128, e: bool) -> (r: Result<RelocationTable, FormatError>)
    requires
        rp <= u64::MAX,
    ensures
        r is Ok <==> reloc_ok(b@, rp as int, e),
        r matches Ok(t) ==> reloc_at(b@, rp as int, e, t),
{
    expect_magic(b, rp, MAGIC_RLT)?;
    get(b, rp + 4, 4, e)?;
    let c = get(b, rp + 8, 4, e)?;
    let base = rp + 16;
    let mut sections: Vec<RelocationSection> = Vec::new();
    let mut total: u64 = 0;
    let mut i: u64 = 0;
    while i < c
        invariant
            rp <= u64::MAX,
            base == rp + 16,
            c == u(b@, rp + 8, 4, e),
            c <= u32::MAX,
            i <= c,
            sections@.len() == i,
            total == count_sum_at(b@, base as int, e, i as nat),
            total <= i * 0xFFFF_FFFF,
            i > 0 ==> in_bounds(b@, base as int, 24 * i),
            forall|k: int|
                0 <= k < i ==> reloc_section_at(b@, base + 24 * k, e, #[trigger] sections@[k]),
        decreases c - i,
    {
        let p = base + 24 * i as u128;
        let pointer = get(b, p, 8, e)?;
        let position = get(b, p + 8, 4, e)?;
        let size = get(b, p + 12, 4, e)?;
        let index = get(b, p + 16, 4, e)?;
        let count = get(b, p + 20, 4, e)?;
        sections.push(
            RelocationSection {
                pointer,
                position: position as u32,
                size: size as u32,
                index: index as u32,
                count: count as u32,
            },
        );
        total = total + count;
        i = i + 1;
    }
    let ebase = base + 24 * c as u128;
    let mut entries: Vec<RelocationEntry> = Vec::new();
    let mut j: u64 = 0;
    while j < total
        invariant
            ebase == rp + 16 + 24 * c,
            rp <= u64::MAX,
            c <= u32::MAX,
            j <= total,
            total <= 0x1_0000_0000 * 0xFFFF_FFFF,
            c == u(b@, rp + 8, 4, e),
            total == count_sum_at(b@, rp + 16, e, c as nat),
            magic_at(b@, rp as int, MAGIC_RLT),
            in_bounds(b@, rp + 4, 8),
            c == 0 || in_bounds(b@, rp + 16, 24 * c),
            entries@.len() == j,
            j > 0 ==> in_bounds(b@, ebase as int, 8 * j),
            forall|k: int|
                0 <= k < j ==> reloc_entry_at(b@, ebase + 8 * k, e, #[trigger] entries@[k]),
        decreases total - j,
    {
        let p = ebase + 8 * j as u128;
        let position = get(b, p, 4, e)?;
        let struct_count = get(b, p + 4, 2, e)?;
        let offset_count = get(b, p + 6, 1, e)?;
        let padding_count = get(b, p + 7, 1, e)?;
        entries.push(
            RelocationEntry {
                position: position as u32,
                struct_count: struct_count as u16,
                offset_count: offset_count as u8,
                padding_count: padding_count as u8,
            },
        );
        j = j + 1;
    }
    Ok(RelocationTable { sections, entries })
}

fn parse_dict(b: &[u8], dp: u128, e: bool) -> (r: Result<DictSection, FormatError>)
    requires
        dp <= u64::MAX,
    ensures
        r is Ok <==> dict_ok(b@, dp as int, e),
        r matches Ok(d) ==> dict_at(b@, dp as int, e, d),
{
    expect_magic(b, dp, MAGIC_DIC)?;
    let node_count = get(b, dp + 4, 4, e)?;
    let n: u64 = node_count + 1;
    let base = dp + 8;
    let mut nodes: Vec<DictNode> = Vec::new();
    let mut i: u64 = 0;
    while i < n
        invariant
            dp <= u64::MAX,
            base == dp + 8,
            node_count == u(b@, dp + 4, 4, e),
            n == node_count + 1,
            node_count <= u32::MAX,
            magic_at(b@, dp as int, MAGIC_DIC),
            in_bounds(b@, dp + 4, 4),
            i <= n,
            nodes@.len() == i,
            i > 0 ==> in_bounds(b@, base as int, 16 * i),
            forall|k: int| 0 <= k < i ==> str_ok(b@, #[trigger] u(b@, dp + 8 + 16 * k + 8, 8, e), e),
            forall|k: int|
                0 <= k < i ==> dict_node_at(b@, base + 16 * k, e, #[trigger] nodes@[k]),
        decreases n - i,
    {
        let p = base + 16 * i as u128;
        let reference = get(b, p, 4, e)?;
        let left_index = get(b, p + 4, 2, e)?;
        let right_index = get(b, p + 6, 2, e)?;
        let name_ptr = get(b, p + 8, 8, e)?;
        let (name, _) = parse_str(b, name_ptr as u128, e)?;
        nodes.push(
            DictNode {
                reference: reference as u32 as i32,
                left_index: left_index as u16,
                right_index: right_index as u16,
                name,
            },
        );
        i = i + 1;
        proof {
            assert(reference as u32 as i32 == u(b@, p as int, 4, e) as i32);
        }
    }
    Ok(DictSection { node_count: node_count as u32, nodes })
}

fn parse_texture(b: &[u8], tp: u128, e: bool, mips: u64, size: u64) -> (r: Result<
    Texture,
    FormatError,
>)
    requires
        tp <= u64::MAX,
        mips <= u16::MAX,
        size <= u32::MAX,
    ensures
        r is Ok <==> texture_ok(b@, tp as int, e, mips as int, size as int),
        r matches Ok(t) ==> texture_at(b@, tp as int, e, mips as int, size as int, t),
{
    if mips == 0 {
        return Err(FormatError { offset: tp as u64, field: Field::MipmapCount });
    }
    let mut mipmap_offsets: Vec<u64> = Vec::new();
    let mut i: u64 = 0;
    while i < mips
        invariant
            tp <= u64::MAX,
            1 <= mips <= u16::MAX,
            i <= mips,
            mipmap_offsets@.len() == i,
            i > 0 ==> in_bounds(b@, tp as int, 8 * i),
            forall|k: int|
                0 <= k < i ==> #[trigger] mipmap_offsets@[k] == u(b@, tp + 8 * k, 8, e),
        decreases mips - i,
    {
        let o = get(b, tp + 8 * i as u128, 8, e)?;
        mipmap_offsets.push(o);
        i = i + 1;
    }
    let start = mipmap_offsets[0];
    let image_data = if size == 0 {
        Vec::new()
    } else {
        if start as u128 + size as u128 > b.len() as u128 {
            return Err(end_error(start as u128));
        }
        copy_range(b, start as usize, size as usize)
    };
    proof {
        if size > 0 {
            assert forall|k: int| 0 <= k < size implies #[trigger] image_data@[k] == b@[start + k] by {
            }
        }
    }
    Ok(Texture { mipmap_offsets, image_data })
}

fn parse_brti(b: &[u8], p: u128, e: bool) -> (r: Result<BrtiSection, FormatError>)
    requires
        p <= u64::MAX,
    ensures
        r is Ok <==> brti_ok(b@, p as int, e),
        r matches Ok(x) ==> brti_at(b@, p as int, e, x),
{
    expect_magic(b, p, MAGIC_BRTI)?;
    get(b, p + 112, 8, e)?;
    let size = get(b, p + 4, 4, e)?;
    let size2 = get(b, p + 8, 8, e)?;
    let flags = get(b, p + 16, 1, e)?;
    let dim = get(b, p + 17, 1, e)?;
    let texture_dimension = match TextureDimension::from_code(dim as u8) {
        Some(d) => d,
        None => {
            return Err(FormatError { offset: (p + 17) as u64, field: Field::TextureDimension });
        },
    };
    let tile_mode = get(b, p + 18, 2, e)?;
    let swizzle = get(b, p + 20, 2, e)?;
    let mipmap_count = get(b, p + 22, 2, e)?;
    let multi_sample_count = get(b, p + 24, 4, e)?;
    let code = get(b, p + 28, 4, e)?;
    let format = match SurfaceFormat::from_code(code as u32) {
        Some(f) => f,
        None => {
            return Err(FormatError { offset: (p + 28) as u64, field: Field::SurfaceFormat });
        },
    };
    let unk2 = get(b, p + 32, 4, e)?;
    let width = get(b, p + 36, 4, e)?;
    let height = get(b, p + 40, 4, e)?;
    let depth = get(b, p + 44, 4, e)?;
    let layer_count = get(b, p + 48, 4, e)?;
    let block_height_log2 = get(b, p + 52, 4, e)?;
    let mut unk4: Vec<u32> = Vec::new();
    let mut i: u64 = 0;
    while i < 6
        invariant
            p <= u64::MAX,
            in_bounds(b@, p + 4, 116),
            i <= 6,
            unk4@.len() == i,
            forall|k: int| 0 <= k < i ==> #[trigger] unk4@[k] == u(b@, p + 56 + 4 * k, 4, e),
        decreases 6 - i,
    {
        let w = get(b, p + 56 + 4 * i as u128, 4, e)?;
        unk4.push(w as u32);
        i = i + 1;
    }
    let image_size = get(b, p + 80, 4, e)?;
    let align = get(b, p + 84, 4, e)?;
    let comp_sel = get(b, p + 88, 4, e)?;
    let view = get(b, p + 92, 4, e)?;
    let texture_view_dimension = match TextureViewDimension::from_code(view as u32) {
        Some(v) => v,
        None => {
            return Err(FormatError { offset: (p + 92) as u64, field: Field::TextureViewDimension });
        },
    };
    let name_ptr = get(b, p + 96, 8, e)?;
    let (name, _) = parse_str(b, name_ptr as u128, e)?;
    let parent_addr = get(b, p + 104, 8, e)?;
    let texture_ptr = get(b, p + 112, 8, e)?;
    let texture = parse_texture(b, texture_ptr as u128, e, mipmap_count, image_size)?;
    Ok(
        BrtiSection {
            size: size as u32,
            size2,
            flags: flags as u8,
            texture_dimension,
            tile_mode: tile_mode as u16,
            swizzle: swizzle as u16,
            mipmap_count: mipmap_count as u16,
            multi_sample_count: multi_sample_count as u32,
            format,
            unk2: unk2 as u32,
            width: width as u32,
            height: height as u32,
            depth: depth as u32,
            layer_count: layer_count as u32,
            block_height_log2: block_height_log2 as u32,
            unk4,
            image_size: image_size as u32,
            align: align as u32,
            comp_sel: comp_sel as u32,
            texture_view_dimension,
            name,
            parent_addr,
            texture,
        },
    )
}

/// Reads the zero-terminated string at `p`.
fn parse_cstr(b: &[u8], p: u64) -> (r: Result<Vec<u8>, FormatError>)
    ensures
        r is Ok <==> cstr_ok(b@, p as int),
        r matches Ok(s) ==> cstr_at(b@, p as int, s@),
{
    if p as u128 >= b.len() as u128 {
        return Err(end_error(p as u128));
    }
    let start = p as usize;
    let mut k: usize = start;
    while k < b.len()
        invariant
            start == p,
            start <= k <= b@.len(),
            forall|j: int| start <= j < k ==> b@[j] != 0,
        decreases b@.len() - k,
    {
        if b[k] == 0 {
            let s = copy_range(b, start, k - start);
            return Ok(s);
        }
        k = k + 1;
    }
    Err(end_error(k as u128))
}

/// Parses a BNTX file. The stream's byte-order marker selects the byte order
/// of everything after it; pointers are followed wherever they lead.
pub fn read(b: &[u8]) -> (r: Result<BntxFile, FormatError>)
    ensures
        r is Ok <==> parse_ok(b@),
        r matches Ok(f) ==> parses_to(b@, f) && f.wf(),
        b@.len() < 4 ==> r == Err::<BntxFile, FormatError>(
            FormatError { offset: 0, field: Field::UnexpectedEnd },
        ),
        b@.len() >= 4 && !magic_at(b@, 0, MAGIC_BNTX) ==> r == Err::<BntxFile, FormatError>(
            FormatError { offset: 0, field: Field::Magic },
        ),
        b@.len() >= 14 && magic_at(b@, 0, MAGIC_BNTX) && uint_at(b@, 12, 2, false) != 0xFFFE
            && uint_at(b@, 12, 2, false) != 0xFEFF ==> r == Err::<BntxFile, FormatError>(
            FormatError { offset: 12, field: Field::ByteOrder },
        ),
{
    expect_magic(b, 0, MAGIC_BNTX)?;
    let major = get(b, 8, 2, true)?;
    let minor = get(b, 10, 2, true)?;
    let bom = get(b, 12, 2, false)?;
    let e = if bom == 0xFFFE {
        true
    } else if bom == 0xFEFF {
        false
    } else {
        return Err(FormatError { offset: 12, field: Field::ByteOrder });
    };
    let revision = get(b, 14, 2, e)?;
    get(b, 28, 4, e)?;
    let name_ptr = get(b, 16, 4, e)?;
    let file_name = parse_cstr(b, name_ptr)?;
    let str_ptr = get(b, 22, 2, e)?;
    let str_section = parse_str_section(b, str_ptr as u128, e)?;
    let reloc_ptr = get(b, 24, 4, e)?;
    let reloc_table = parse_reloc(b, reloc_ptr as u128, e)?;
    expect_magic(b, 0x20, MAGIC_NX)?;
    get(b, 0x44, 4, e)?;
    get(b, 0x24, 4, e)?;
    let info_ptr = get(b, 0x28, 8, e)?;
    let brti_ptr = get(b, info_ptr as u128, 8, e)?;
    let brti = parse_brti(b, brti_ptr as u128, e)?;
    get(b, 0x30, 8, e)?;
    let dict_ptr = get(b, 0x38, 8, e)?;
    let dict = parse_dict(b, dict_ptr as u128, e)?;
    let dict_size = get(b, 0x40, 8, e)?;
    let f = BntxFile {
        header: BntxHeader {
            version: (major as u16, minor as u16),
            bom: if e {
                ByteOrder::LittleEndian
            } else {
                ByteOrder::BigEndian
            },
            revision: revision as u16,
            file_name,
            str_section,
            reloc_table,
        },
        nx_header: NxHeader { brti, dict, dict_size },
    };
    proof {
        lemma_count_sum_matches(b@, reloc_ptr + 16, e, f.header.reloc_table.sections@,
            f.header.reloc_table.sections@.len());
        reveal(parses_to);
    }
    Ok(f)
}

/// The fix-up counts summed from the bytes are those of the parsed regions.
pub proof fn lemma_count_sum_matches(
    b: Seq<u8>,
    base: int,
    e: bool,
    sections: Seq<RelocationSection>,
    n: nat,
)
    requires
        n <= sections.len(),
        forall|i: int|
            0 <= i < n ==> reloc_section_at(b, base + 24 * i, e, #[trigger] sections[i]),
    ensures
        count_sum_at(b, base, e, n) == crate::model::reloc_count_sum(sections, n),
    decreases n,
{
    if n > 0 {
        lemma_count_sum_matches(b, base, e, sections, (n - 1) as nat);
        assert(reloc_section_at(b, base + 24 * (n - 1), e, sections[n - 1]));
    }
}

} // verus!
