//! The writer's output is a fixed point of reading and writing again.
use vstd::prelude::*;
use crate::bytes::{
    be_value, le_bytes, lemma_le_bytes_len, lemma_le_round_trip, lemma_pow256_facts, pow256,
    uint_at, zeros,
};
use crate::model::{
    align_up, reloc_count_sum, str_entry_size, str_section_size, strings_size, BntxFile, BntxStr,
    BrtiSection, RelocationEntry, RelocationSection, RelocationTable, StrSection,
};
use crate::writer::{
    brtd_bytes, brti_bytes, brti_extent_bytes, brti_head_bytes, brti_kind_bytes, brti_start,
    brti_tail_bytes, dict_bytes, file_bytes, header_bytes, le, mip_table_end, nx_bytes,
    offsets_bytes, reloc_bytes, reloc_entries_bytes, reloc_entry_bytes, reloc_section_bytes,
    reloc_sections_bytes, reloc_start, str_entry_bytes, str_section_bytes, strings_bytes,
    words_bytes, writable,
};

verus! {

/// Splitting a prefix `pre + p` of `x` into `pre` and `p`.
proof fn lemma_split(x: Seq<u8>, pre: Seq<u8>, p: Seq<u8>)
    requires
        (pre.len() + p.len()) as int <= x.len(),
        x.subrange(0, (pre.len() + p.len()) as int) == pre + p,
    ensures
        x.subrange(0, pre.len() as int) == pre,
        x.subrange(pre.len() as int, (pre.len() + p.len()) as int) == p,
{
    assert(x.subrange(0, pre.len() as int) =~= (pre + p).subrange(0, pre.len() as int));
    assert(x.subrange(0, pre.len() as int) =~= pre);
    assert(x.subrange(pre.len() as int, (pre.len() + p.len()) as int) =~= (pre + p).subrange(
        pre.len() as int,
        (pre.len() + p.len()) as int,
    ));
    assert(x.subrange(pre.len() as int, (pre.len() + p.len()) as int) =~= p);
}

/// A piece of a block at a known place in `x` is at the sum of the places.
proof fn lemma_nested(x: Seq<u8>, o: int, block: Seq<u8>, k: int, piece: Seq<u8>)
    requires
        0 <= o,
        0 <= k,
        o + block.len() <= x.len(),
        k + piece.len() <= block.len(),
        x.subrange(o, o + block.len()) == block,
        block.subrange(k, k + piece.len()) == piece,
    ensures
        x.subrange(o + k, o + k + piece.len()) == piece,
{
    assert(x.subrange(o + k, o + k + piece.len()) =~= block.subrange(k, k + piece.len()));
}

/// A little-endian integer written at `o` reads back.
pub proof fn lemma_read_le(x: Seq<u8>, o: int, v: nat, n: nat)
    requires
        v < pow256(n),
        x.subrange(o, o + n) == le_bytes(v, n),
    ensures
        uint_at(x, o, n as int, true) == v,
{
    lemma_le_round_trip(v, n);
}

/// Where each block of a written file lies.
pub open spec fn blocks_at(f: BntxFile) -> bool {
    let x = file_bytes(f);
    let b = f.nx_header.brti;
    let start = brti_start(f);
    let table = start + 0xA0 + 0x200;
    let data_len = b.texture.image_data@.len();
    &&& x.subrange(0, 0x20) == header_bytes(f)
    &&& x.subrange(0x20, 0x48) == nx_bytes(f)
    &&& x.subrange(0x198, 0x1A0) == le(start, 8)
    &&& x.subrange(0x1A0, (0x1A0 + str_section_bytes(f.header.str_section).len()) as int) == str_section_bytes(
        f.header.str_section,
    )
    &&& x.subrange(start, start + 0xA0) == brti_bytes(b, start)
    &&& x.subrange(table, mip_table_end(f)) == offsets_bytes(
        b.texture.mipmap_offsets@,
        b.texture.mipmap_offsets@.len(),
    )
    &&& x.subrange(0x1000, (0x1000 + data_len) as int) == b.texture.image_data@
    &&& x.subrange((0x1000 + data_len) as int, x.len() as int) == reloc_bytes(f)
    &&& x.len() == 0x1000 + data_len + reloc_bytes(f).len()
    &&& x.subrange(0xFF0, 0x1000) == brtd_bytes(f)
}

pub proof fn lemma_le_len_all()
    ensures
        forall|v: nat, n: nat| #[trigger] le_bytes(v, n).len() == n,
{
    assert forall|v: nat, n: nat| #[trigger] le_bytes(v, n).len() == n by {
        lemma_le_bytes_len(v, n);
    }
}

#[verifier::rlimit(100)]
proof fn lemma_strings_bytes_len(s: Seq<BntxStr>, n: nat)
    requires
        n <= s.len(),
    ensures
        strings_bytes(s, n).len() == strings_size(s, n),
    decreases n,
{
    lemma_le_len_all();
    if n > 0 {
        lemma_strings_bytes_len(s, (n - 1) as nat);
        let e = s[n - 1];
        let x = e.chars@.len() + 3;
        vstd::arithmetic::div_mod::lemma_fundamental_div_mod((x + 3) as int, 4);
        vstd::arithmetic::div_mod::lemma_mod_pos_bound((x + 3) as int, 4);
        assert(str_entry_size(e) >= x);
        assert(str_entry_bytes(e).len() == str_entry_size(e));
    }
}

#[verifier::rlimit(100)]
pub proof fn lemma_str_section_len(s: StrSection)
    ensures
        str_section_bytes(s).len() == str_section_size(s),
{
    lemma_le_len_all();
    lemma_strings_bytes_len(s.strings@, s.strings@.len());
    let x = 0x18 + strings_size(s.strings@, s.strings@.len());
    vstd::arithmetic::div_mod::lemma_fundamental_div_mod((x + 7) as int, 8);
    vstd::arithmetic::div_mod::lemma_mod_pos_bound((x + 7) as int, 8);
    assert(str_section_size(s) >= x);
}

proof fn lemma_offsets_bytes_len(o: Seq<u64>, n: nat)
    requires
        n <= o.len(),
    ensures
        offsets_bytes(o, n).len() == 8 * n,
    decreases n,
{
    lemma_le_len_all();
    if n > 0 {
        lemma_offsets_bytes_len(o, (n - 1) as nat);
    }
}

proof fn lemma_words_bytes_len(w: Seq<u32>, n: nat)
    requires
        n <= w.len(),
    ensures
        crate::writer::words_bytes(w, n).len() == 4 * n,
    decreases n,
{
    lemma_le_len_all();
    if n > 0 {
        lemma_words_bytes_len(w, (n - 1) as nat);
    }
}

/// Every block of a writable file lies where the layout puts it.
#[verifier::rlimit(100)]
pub proof fn lemma_blocks(f: BntxFile)
    requires
        writable(f),
    ensures
        blocks_at(f),
{
    lemma_le_len_all();
    let b = f.nx_header.brti;
    let start = brti_start(f);
    lemma_str_section_len(f.header.str_section);
    lemma_offsets_bytes_len(b.texture.mipmap_offsets@, b.texture.mipmap_offsets@.len());
    lemma_words_bytes_len(b.unk4@, 6);
    let x = file_bytes(f);
    let p1 = header_bytes(f);
    let p2 = p1 + nx_bytes(f);
    let p3 = p2 + zeros(0x150);
    let p4 = p3 + le(start, 8);
    let p5 = p4 + str_section_bytes(f.header.str_section);
    let p6 = p5 + dict_bytes();
    let p7 = p6 + brti_bytes(b, start);
    let p8 = p7 + zeros(0x200);
    let p9 = p8 + offsets_bytes(b.texture.mipmap_offsets@, b.texture.mipmap_offsets@.len());
    let p10 = p9 + zeros((0xFF0 - mip_table_end(f)) as nat);
    let p11 = p10 + brtd_bytes(f);
    let p12 = p11 + b.texture.image_data@;
    assert(x == p12 + reloc_bytes(f));
    assert(p1.len() == 0x20);
    assert(p2.len() == 0x48);
    assert(p4.len() == 0x1A0);
    assert(p6.len() == start);
    assert(p7.len() == start + 0xA0);
    assert(p9.len() == mip_table_end(f));
    assert(p10.len() == 0xFF0);
    assert(p11.len() == 0x1000);
    assert(p12.len() == 0x1000 + b.texture.image_data@.len());
    assert(x.subrange(0, x.len() as int) =~= x);
    lemma_split(x, p12, reloc_bytes(f));
    lemma_split(x, p11, b.texture.image_data@);
    lemma_split(x, p10, brtd_bytes(f));
    lemma_split(x, p9, zeros((0xFF0 - mip_table_end(f)) as nat));
    lemma_split(x, p8, offsets_bytes(b.texture.mipmap_offsets@, b.texture.mipmap_offsets@.len()));
    lemma_split(x, p7, zeros(0x200));
    lemma_split(x, p6, brti_bytes(b, start));
    lemma_split(x, p5, dict_bytes());
    lemma_split(x, p4, str_section_bytes(f.header.str_section));
    lemma_split(x, p3, le(start, 8));
    lemma_split(x, p2, zeros(0x150));
    lemma_split(x, p1, nx_bytes(f));
}

/// A field of `n` bytes at `k` in a block at `o` of `x` reads back as `v`.
proof fn lemma_field(x: Seq<u8>, o: int, block: Seq<u8>, k: int, v: nat, n: nat)
    requires
        0 <= o,
        0 <= k,
        o + block.len() <= x.len(),
        k + n <= block.len(),
        x.subrange(o, o + block.len()) == block,
        block.subrange(k, k + n) == le_bytes(v, n),
        v < pow256(n),
    ensures
        uint_at(x, o + k, n as int, true) == v,
{
    lemma_le_bytes_len(v, n);
    lemma_nested(x, o, block, k, le_bytes(v, n));
    lemma_read_le(x, o + k, v, n);
}

/// The header fields of a written file read back.
#[verifier::rlimit(100)]
proof fn lemma_header_values(f: BntxFile)
    requires
        writable(f),
    ensures
        ({
            let x = file_bytes(f);
            &&& uint_at(x, 8, 2, true) == f.header.version.0
            &&& uint_at(x, 10, 2, true) == f.header.version.1
            &&& uint_at(x, 14, 2, true) == f.header.revision
        }),
{
    lemma_le_len_all();
    lemma_pow256_facts();
    lemma_blocks(f);
    let x = file_bytes(f);
    let h = header_bytes(f);
    assert(h.subrange(8, 10) =~= le(f.header.version.0 as int, 2));
    lemma_field(x, 0, h, 8, f.header.version.0 as nat, 2);
    assert(h.subrange(10, 12) =~= le(f.header.version.1 as int, 2));
    lemma_field(x, 0, h, 10, f.header.version.1 as nat, 2);
    assert(h.subrange(14, 16) =~= le(f.header.revision as int, 2));
    lemma_field(x, 0, h, 14, f.header.revision as nat, 2);
}

/// The section pointers of the file header of a written file read back.
#[verifier::rlimit(100)]
proof fn lemma_header_pointers(f: BntxFile)
    requires
        writable(f),
    ensures
        ({
            let x = file_bytes(f);
            &&& uint_at(x, 22, 2, true) == 0x1A0
            &&& uint_at(x, 24, 4, true) == reloc_start(f)
        }),
{
    lemma_le_len_all();
    lemma_pow256_facts();
    lemma_blocks(f);
    let x = file_bytes(f);
    let h = header_bytes(f);
    assert(h.subrange(22, 24) =~= le(0x1A0, 2));
    lemma_field(x, 0, h, 22, 0x1A0, 2);
    assert(h.subrange(24, 28) =~= le(reloc_start(f), 4));
    lemma_field(x, 0, h, 24, reloc_start(f) as nat, 4);
}

/// The byte-order marker of a written file is little-endian.
#[verifier::rlimit(100)]
proof fn lemma_header_bom(f: BntxFile)
    requires
        writable(f),
    ensures
        crate::reader::is_little(file_bytes(f)),
{
    lemma_le_len_all();
    lemma_blocks(f);
    let x = file_bytes(f);
    let h = header_bytes(f);
    assert(h.subrange(12, 14) =~= le(0xFEFF, 2));
    lemma_nested(x, 0, h, 12, le(0xFEFF, 2));
    lemma_bom_value();
}

proof fn lemma_bom_value()
    ensures
        be_value(le_bytes(0xFEFF, 2)) == 0xFFFE,
{
    reveal_with_fuel(le_bytes, 3);
    reveal_with_fuel(be_value, 3);
    lemma_pow256_facts();
    assert(le_bytes(0xFEFF, 0) =~= Seq::<u8>::empty());
    assert((0xFEFFnat / pow256(0)) % 256 == 0xFF);
    assert((0xFEFFnat / pow256(1)) % 256 == 0xFE);
    assert(le_bytes(0xFEFF, 1) =~= seq![0xFFu8]);
    assert(le_bytes(0xFEFF, 2) =~= seq![0xFFu8, 0xFEu8]);
    assert(seq![0xFFu8, 0xFEu8].drop_last() =~= seq![0xFFu8]);
    assert(seq![0xFFu8].drop_last() =~= Seq::<u8>::empty());
}

/// The `NX  ` header and the data pointer of a written file read back.
#[verifier::rlimit(100)]
proof fn lemma_nx_values(f: BntxFile)
    requires
        writable(f),
    ensures
        ({
            let x = file_bytes(f);
            &&& uint_at(x, 0x28, 8, true) == 0x198
            &&& uint_at(x, 0x40, 8, true) == f.nx_header.dict_size
            &&& uint_at(x, 0x198, 8, true) == brti_start(f)
        }),
{
    lemma_le_len_all();
    lemma_pow256_facts();
    lemma_blocks(f);
    lemma_str_section_len(f.header.str_section);
    let x = file_bytes(f);
    let n = nx_bytes(f);
    let start = brti_start(f);
    assert(n.subrange(8, 16) =~= le(0x198, 8));
    lemma_field(x, 0x20, n, 8, 0x198, 8);
    assert(n.subrange(32, 40) =~= le(f.nx_header.dict_size as int, 8));
    lemma_field(x, 0x20, n, 32, f.nx_header.dict_size as nat, 8);
    assert(le(start, 8).subrange(0, 8) =~= le(start, 8));
    assert(start < pow256(8));
    lemma_field(x, 0x198, le(start, 8), 0, start as nat, 8);
}

/// Splitting a block `a + b` at `o` of `x` into `a` and `b`.
proof fn lemma_split_at(x: Seq<u8>, o: int, a: Seq<u8>, b: Seq<u8>)
    requires
        0 <= o,
        o + a.len() + b.len() <= x.len(),
        x.subrange(o, o + a.len() + b.len()) == a + b,
    ensures
        x.subrange(o, o + a.len()) == a,
        x.subrange(o + a.len(), o + a.len() + b.len()) == b,
{
    assert(x.subrange(o, o + a.len()) =~= (a + b).subrange(0, a.len() as int));
    assert(x.subrange(o, o + a.len()) =~= a);
    assert(x.subrange(o + a.len(), o + a.len() + b.len()) =~= (a + b).subrange(
        a.len() as int,
        (a.len() + b.len()) as int,
    ));
    assert(x.subrange(o + a.len(), o + a.len() + b.len()) =~= b);
}

/// Where the parts of the texture record of a written file lie.
#[verifier::rlimit(100)]
proof fn lemma_brti_parts(f: BntxFile)
    requires
        writable(f),
    ensures
        ({
            let x = file_bytes(f);
            let b = f.nx_header.brti;
            let start = brti_start(f);
            &&& x.subrange(start, start + 28) == brti_kind_bytes(b)
            &&& x.subrange(start + 28, start + 56) == brti_extent_bytes(b)
            &&& x.subrange(start + 56, start + 80) == words_bytes(b.unk4@, 6)
            &&& x.subrange(start + 80, start + 160) == brti_tail_bytes(b, start)
            &&& start + 160 <= x.len()
        }),
{
    lemma_le_len_all();
    lemma_blocks(f);
    let x = file_bytes(f);
    let b = f.nx_header.brti;
    let start = brti_start(f);
    lemma_words_bytes_len(b.unk4@, 6);
    assert(brti_kind_bytes(b).len() == 28);
    assert(brti_extent_bytes(b).len() == 28);
    assert(brti_tail_bytes(b, start).len() == 80);
    lemma_str_section_len(f.header.str_section);
    assert(x.len() >= start + 160) by {
        assert(x.subrange(start, start + 0xA0).len() == 0xA0);
    }
    lemma_split_at(x, start, brti_head_bytes(b) + words_bytes(b.unk4@, 6), brti_tail_bytes(b, start));
    lemma_split_at(x, start, brti_head_bytes(b), words_bytes(b.unk4@, 6));
    lemma_split_at(x, start, brti_kind_bytes(b), brti_extent_bytes(b));
}

#[verifier::rlimit(100)]
proof fn lemma_brti_kind_values(f: BntxFile)
    requires
        writable(f),
    ensures
        ({
            let x = file_bytes(f);
            let b = f.nx_header.brti;
            let s = brti_start(f);
            &&& uint_at(x, s + 4, 4, true) == b.size
            &&& uint_at(x, s + 8, 8, true) == b.size2
            &&& uint_at(x, s + 16, 1, true) == b.flags
            &&& uint_at(x, s + 17, 1, true) == crate::format::dimension_code(b.texture_dimension)
            &&& uint_at(x, s + 18, 2, true) == b.tile_mode
            &&& uint_at(x, s + 20, 2, true) == b.swizzle
            &&& uint_at(x, s + 22, 2, true) == b.mipmap_count
            &&& uint_at(x, s + 24, 4, true) == b.multi_sample_count
        }),
{
    lemma_le_len_all();
    lemma_pow256_facts();
    lemma_brti_parts(f);
    let x = file_bytes(f);
    let b = f.nx_header.brti;
    let s = brti_start(f);
    let k = brti_kind_bytes(b);
    assert(k.subrange(4, 8) =~= le(b.size as int, 4));
    lemma_field(x, s, k, 4, b.size as nat, 4);
    assert(k.subrange(8, 16) =~= le(b.size2 as int, 8));
    lemma_field(x, s, k, 8, b.size2 as nat, 8);
    assert(k.subrange(16, 17) =~= le(b.flags as int, 1));
    lemma_field(x, s, k, 16, b.flags as nat, 1);
    let d = crate::format::dimension_code(b.texture_dimension);
    assert(k.subrange(17, 18) =~= le(d as int, 1));
    lemma_field(x, s, k, 17, d as nat, 1);
    assert(k.subrange(18, 20) =~= le(b.tile_mode as int, 2));
    lemma_field(x, s, k, 18, b.tile_mode as nat, 2);
    assert(k.subrange(20, 22) =~= le(b.swizzle as int, 2));
    lemma_field(x, s, k, 20, b.swizzle as nat, 2);
    assert(k.subrange(22, 24) =~= le(b.mipmap_count as int, 2));
    lemma_field(x, s, k, 22, b.mipmap_count as nat, 2);
    assert(k.subrange(24, 28) =~= le(b.multi_sample_count as int, 4));
    lemma_field(x, s, k, 24, b.multi_sample_count as nat, 4);
}

#[verifier::rlimit(100)]
proof fn lemma_brti_extent_values(f: BntxFile)
    requires
        writable(f),
    ensures
        ({
            let x = file_bytes(f);
            let b = f.nx_header.brti;
            let s = brti_start(f);
            &&& uint_at(x, s + 28, 4, true) == crate::format::format_code(b.format)
            &&& uint_at(x, s + 32, 4, true) == b.unk2
            &&& uint_at(x, s + 36, 4, true) == b.width
            &&& uint_at(x, s + 40, 4, true) == b.height
            &&& uint_at(x, s + 44, 4, true) == b.depth
            &&& uint_at(x, s + 48, 4, true) == b.layer_count
            &&& uint_at(x, s + 52, 4, true) == b.block_height_log2
        }),
{
    lemma_le_len_all();
    lemma_pow256_facts();
    lemma_brti_parts(f);
    let x = file_bytes(f);
    let b = f.nx_header.brti;
    let s = brti_start(f);
    let k = brti_extent_bytes(b);
    let c = crate::format::format_code(b.format);
    assert(k.subrange(0, 4) =~= le(c as int, 4));
    lemma_field(x, s + 28, k, 0, c as nat, 4);
    assert(k.subrange(4, 8) =~= le(b.unk2 as int, 4));
    lemma_field(x, s + 28, k, 4, b.unk2 as nat, 4);
    assert(k.subrange(8, 12) =~= le(b.width as int, 4));
    lemma_field(x, s + 28, k, 8, b.width as nat, 4);
    assert(k.subrange(12, 16) =~= le(b.height as int, 4));
    lemma_field(x, s + 28, k, 12, b.height as nat, 4);
    assert(k.subrange(16, 20) =~= le(b.depth as int, 4));
    lemma_field(x, s + 28, k, 16, b.depth as nat, 4);
    assert(k.subrange(20, 24) =~= le(b.layer_count as int, 4));
    lemma_field(x, s + 28, k, 20, b.layer_count as nat, 4);
    assert(k.subrange(24, 28) =~= le(b.block_height_log2 as int, 4));
    lemma_field(x, s + 28, k, 24, b.block_height_log2 as nat, 4);
}

#[verifier::rlimit(100)]
proof fn lemma_brti_tail_values(f: BntxFile)
    requires
        writable(f),
    ensures
        ({
            let x = file_bytes(f);
            let b = f.nx_header.brti;
            let s = brti_start(f);
            &&& uint_at(x, s + 80, 4, true) == b.image_size
            &&& uint_at(x, s + 84, 4, true) == b.align
            &&& uint_at(x, s + 88, 4, true) == b.comp_sel
            &&& uint_at(x, s + 92, 4, true) == crate::format::view_dimension_code(
                b.texture_view_dimension,
            )
            &&& uint_at(x, s + 112, 8, true) == s + 0x2A0
        }),
{
    lemma_le_len_all();
    lemma_pow256_facts();
    lemma_brti_parts(f);
    lemma_str_section_len(f.header.str_section);
    let x = file_bytes(f);
    let b = f.nx_header.brti;
    let s = brti_start(f);
    let k = brti_tail_bytes(b, s);
    assert(k.subrange(0, 4) =~= le(b.image_size as int, 4));
    lemma_field(x, s + 80, k, 0, b.image_size as nat, 4);
    assert(k.subrange(4, 8) =~= le(b.align as int, 4));
    lemma_field(x, s + 80, k, 4, b.align as nat, 4);
    assert(k.subrange(8, 12) =~= le(b.comp_sel as int, 4));
    lemma_field(x, s + 80, k, 8, b.comp_sel as nat, 4);
    let v = crate::format::view_dimension_code(b.texture_view_dimension);
    assert(k.subrange(12, 16) =~= le(v as int, 4));
    lemma_field(x, s + 80, k, 12, v as nat, 4);
    assert(k.subrange(32, 40) =~= le(s + 0x2A0, 8));
    lemma_field(x, s + 80, k, 32, (s + 0x2A0) as nat, 8);
}

proof fn lemma_words_values(x: Seq<u8>, o: int, w: Seq<u32>, n: nat)
    requires
        0 <= o,
        n <= w.len(),
        o + 4 * n <= x.len(),
        x.subrange(o, o + 4 * n) == words_bytes(w, n),
    ensures
        forall|i: int| 0 <= i < n ==> uint_at(x, o + 4 * i, 4, true) == #[trigger] w[i],
    decreases n,
{
    lemma_le_len_all();
    lemma_pow256_facts();
    if n > 0 {
        let m = (n - 1) as nat;
        lemma_words_bytes_len(w, m);
        lemma_split_at(x, o, words_bytes(w, m), le(w[m as int] as int, 4));
        lemma_words_values(x, o, w, m);
        lemma_read_le(x, o + 4 * m, w[m as int] as nat, 4);
    }
}

proof fn lemma_offsets_values(x: Seq<u8>, o: int, w: Seq<u64>, n: nat)
    requires
        0 <= o,
        n <= w.len(),
        o + 8 * n <= x.len(),
        x.subrange(o, o + 8 * n) == offsets_bytes(w, n),
    ensures
        forall|i: int| 0 <= i < n ==> uint_at(x, o + 8 * i, 8, true) == #[trigger] w[i],
    decreases n,
{
    lemma_le_len_all();
    lemma_pow256_facts();
    if n > 0 {
        let m = (n - 1) as nat;
        lemma_offsets_bytes_len(w, m);
        lemma_split_at(x, o, offsets_bytes(w, m), le(w[m as int] as int, 8));
        lemma_offsets_values(x, o, w, m);
        lemma_read_le(x, o + 8 * m, w[m as int] as nat, 8);
    }
}

proof fn lemma_align4_shift(a: int, y: nat)
    requires
        a >= 0,
        a % 4 == 0,
    ensures
        align_up((a + y) as nat, 4) == a + align_up(y, 4),
        align_up(y, 4) % 4 == 0,
        align_up(y, 4) >= y,
{
    let q = (y + 3) / 4;
    vstd::arithmetic::div_mod::lemma_fundamental_div_mod((y + 3) as int, 4);
    vstd::arithmetic::div_mod::lemma_mod_pos_bound((y + 3) as int, 4);
    let k = a / 4;
    vstd::arithmetic::div_mod::lemma_fundamental_div_mod(a, 4);
    assert((a + y + 3) / 4 == k + q) by {
        vstd::arithmetic::div_mod::lemma_div_plus_one((y + 3) as int, 4);
        assert(a + y + 3 == 4 * k + (y + 3));
        vstd::arithmetic::div_mod::lemma_fundamental_div_mod_converse(
            (a + y + 3) as int,
            4,
            k + q,
            ((y + 3) % 4) as int,
        );
    }
    assert(align_up(y, 4) == q * 4);
    assert((q * 4) % 4 == 0) by {
        vstd::arithmetic::div_mod::lemma_mod_multiples_basic(q as int, 4);
    }
}

#[verifier::rlimit(100)]
proof fn lemma_entry_values(x: Seq<u8>, q: int, e: BntxStr)
    requires
        0 <= q,
        e.chars@.len() + 3 <= str_entry_size(e),
        e.chars@.len() <= 0xFFFF,
        q + str_entry_size(e) <= x.len(),
        x.subrange(q, q + str_entry_size(e)) == str_entry_bytes(e),
    ensures
        uint_at(x, q, 2, true) == e.chars@.len(),
        x.subrange(q + 2, q + 2 + e.chars@.len()) == e.chars@,
{
    lemma_le_len_all();
    lemma_pow256_facts();
    let len = e.chars@.len();
    let ent = str_entry_bytes(e);
    assert(ent.len() == str_entry_size(e));
    assert(ent.subrange(0, 2) =~= le(len as int, 2));
    lemma_field(x, q, ent, 0, len, 2);
    assert(ent.subrange(2, (2 + len) as int) =~= e.chars@);
    lemma_nested(x, q, ent, 2, e.chars@);
}

/// Where each pool string of a written run of strings lies.
#[verifier::rlimit(100)]
proof fn lemma_string_layout(x: Seq<u8>, o: int, s: Seq<BntxStr>, n: nat)
    requires
        0 <= o,
        n <= s.len(),
        o + strings_size(s, n) <= x.len(),
        x.subrange(o, o + strings_size(s, n)) == strings_bytes(s, n),
    ensures
        forall|i: int|
            0 <= i < n ==> x.subrange(
                o + strings_size(s, i as nat),
                o + strings_size(s, i as nat) + str_entry_size(#[trigger] s[i]),
            ) == str_entry_bytes(s[i]),
    decreases n,
{
    if n > 0 {
        let m = (n - 1) as nat;
        let e = s[m as int];
        lemma_strings_bytes_len(s, m);
        lemma_strings_bytes_len(s, n);
        assert(strings_bytes(s, n).len() == strings_bytes(s, m).len() + str_entry_bytes(e).len());
        lemma_split_at(x, o, strings_bytes(s, m), str_entry_bytes(e));
        lemma_string_layout(x, o, s, m);
    }
}

proof fn lemma_str_next_at(x: Seq<u8>, q: int, e: BntxStr)
    requires
        0 <= q,
        q % 4 == 0,
        uint_at(x, q, 2, true) == e.chars@.len(),
    ensures
        crate::reader::str_next(x, q, true) == q + str_entry_size(e),
        str_entry_size(e) % 4 == 0,
{
    lemma_align4_shift(q, e.chars@.len() + 3);
    lemma_align4_shift(0, e.chars@.len() + 3);
}

proof fn lemma_mod4_add(a: nat, b: nat)
    requires
        a % 4 == 0,
        b % 4 == 0,
    ensures
        (a + b) % 4 == 0,
{
    vstd::arithmetic::div_mod::lemma_add_mod_noop(a as int, b as int, 4);
}

/// Pool string `i` of a written run starts after the `i` strings before it.
#[verifier::rlimit(100)]
proof fn lemma_string_pos(x: Seq<u8>, o: int, s: Seq<BntxStr>, n: nat, i: nat)
    requires
        0 <= o,
        o % 4 == 0,
        i <= n <= s.len(),
        strings_size(s, n) <= 0xFFFF,
        o + strings_size(s, n) <= x.len(),
        forall|k: int|
            0 <= k < n ==> x.subrange(
                o + strings_size(s, k as nat),
                o + strings_size(s, k as nat) + str_entry_size(#[trigger] s[k]),
            ) == str_entry_bytes(s[k]),
    ensures
        crate::reader::str_pos(x, o, true, i) == o + strings_size(s, i),
        strings_size(s, i) % 4 == 0,
    decreases i,
{
    if i > 0 {
        let m = (i - 1) as nat;
        lemma_string_pos(x, o, s, n, m);
        let e = s[m as int];
        let q = o + strings_size(s, m);
        assert(strings_size(s, i) == strings_size(s, m) + str_entry_size(e));
        assert(strings_size(s, i) <= strings_size(s, n)) by {
            crate::writer::lemma_strings_size_prefix(s, i, n);
        }
        assert(e.chars@.len() + 3 <= str_entry_size(e)) by {
            lemma_align4_shift(0, e.chars@.len() + 3);
        }
        assert(x.subrange(q, q + str_entry_size(e)) == str_entry_bytes(e));
        lemma_entry_values(x, q, e);
        assert(q % 4 == 0) by {
            lemma_mod4_add(o as nat, strings_size(s, m));
        }
        lemma_str_next_at(x, q, e);
        lemma_mod4_add(strings_size(s, m), str_entry_size(e));
    }
}

/// The string pool of a written file reads back.
#[verifier::rlimit(100)]
proof fn lemma_str_section_values(f: BntxFile)
    requires
        writable(f),
    ensures
        ({
            let x = file_bytes(f);
            let t = f.header.str_section;
            let n = t.strings@.len();
            &&& uint_at(x, 0x1A4, 4, true) == t.block_size
            &&& uint_at(x, 0x1A8, 8, true) == t.block_offset
            &&& uint_at(x, 0x1B0, 4, true) == n
            &&& uint_at(x, 0x1B4, 2, true) == 0
            &&& strings_size(t.strings@, n) <= 0xFFFF
            &&& 0x1B8 + strings_size(t.strings@, n) <= x.len()
            &&& x.subrange(0x1B8, (0x1B8 + strings_size(t.strings@, n)) as int) == strings_bytes(t.strings@, n)
        }),
{
    lemma_le_len_all();
    lemma_pow256_facts();
    lemma_blocks(f);
    lemma_str_section_len(f.header.str_section);
    let x = file_bytes(f);
    let t = f.header.str_section;
    let n = t.strings@.len();
    let body = strings_size(t.strings@, n);
    lemma_strings_bytes_len(t.strings@, n);
    let sb = str_section_bytes(t);
    let head = le(crate::writer::MAGIC_STR as int, 4) + le(t.block_size as int, 4) + le(
        t.block_offset as int,
        8,
    ) + le(n as int, 4) + le(0, 2) + le(0, 2);
    let z = zeros((str_section_size(t) - (0x18 + body)) as nat);
    assert(head.len() == 0x18);
    assert(sb == head + strings_bytes(t.strings@, n) + z);
    lemma_split_at(x, 0x1A0, head + strings_bytes(t.strings@, n), z);
    lemma_split_at(x, 0x1A0, head, strings_bytes(t.strings@, n));
    assert(head.subrange(4, 8) =~= le(t.block_size as int, 4));
    lemma_field(x, 0x1A0, head, 4, t.block_size as nat, 4);
    assert(head.subrange(8, 16) =~= le(t.block_offset as int, 8));
    lemma_field(x, 0x1A0, head, 8, t.block_offset as nat, 8);
    assert(n <= u32::MAX) by {
        crate::writer::lemma_count_bound_pub(t.strings@, n);
    }
    assert(head.subrange(16, 20) =~= le(n as int, 4));
    lemma_field(x, 0x1A0, head, 16, n, 4);
    assert(head.subrange(20, 22) =~= le(0, 2));
    lemma_field(x, 0x1A0, head, 20, 0, 2);
}

#[verifier::rlimit(100)]
proof fn lemma_section_fields(x: Seq<u8>, q: int, sec: RelocationSection)
    requires
        0 <= q,
        q + 24 <= x.len(),
        x.subrange(q, q + 24) == reloc_section_bytes(sec),
    ensures
        crate::reader::reloc_section_at(x, q, true, sec),
{
    lemma_le_len_all();
    lemma_pow256_facts();
    let b = reloc_section_bytes(sec);
    assert(b.subrange(0, 8) =~= le(sec.pointer as int, 8));
    lemma_field(x, q, b, 0, sec.pointer as nat, 8);
    assert(b.subrange(8, 12) =~= le(sec.position as int, 4));
    lemma_field(x, q, b, 8, sec.position as nat, 4);
    assert(b.subrange(12, 16) =~= le(sec.size as int, 4));
    lemma_field(x, q, b, 12, sec.size as nat, 4);
    assert(b.subrange(16, 20) =~= le(sec.index as int, 4));
    lemma_field(x, q, b, 16, sec.index as nat, 4);
    assert(b.subrange(20, 24) =~= le(sec.count as int, 4));
    lemma_field(x, q, b, 20, sec.count as nat, 4);
}

#[verifier::rlimit(100)]
proof fn lemma_entry_fields(x: Seq<u8>, q: int, e: RelocationEntry)
    requires
        0 <= q,
        q + 8 <= x.len(),
        x.subrange(q, q + 8) == reloc_entry_bytes(e),
    ensures
        crate::reader::reloc_entry_at(x, q, true, e),
{
    lemma_le_len_all();
    lemma_pow256_facts();
    let b = reloc_entry_bytes(e);
    assert(b.subrange(0, 4) =~= le(e.position as int, 4));
    lemma_field(x, q, b, 0, e.position as nat, 4);
    assert(b.subrange(4, 6) =~= le(e.struct_count as int, 2));
    lemma_field(x, q, b, 4, e.struct_count as nat, 2);
    assert(b.subrange(6, 7) =~= le(e.offset_count as int, 1));
    lemma_field(x, q, b, 6, e.offset_count as nat, 1);
    assert(b.subrange(7, 8) =~= le(e.padding_count as int, 1));
    lemma_field(x, q, b, 7, e.padding_count as nat, 1);
}

proof fn lemma_sections_values(x: Seq<u8>, o: int, w: Seq<RelocationSection>, n: nat)
    requires
        0 <= o,
        n <= w.len(),
        o + 24 * n <= x.len(),
        x.subrange(o, o + 24 * n) == reloc_sections_bytes(w, n),
    ensures
        forall|i: int|
            0 <= i < n ==> crate::reader::reloc_section_at(x, o + 24 * i, true, #[trigger] w[i]),
    decreases n,
{
    lemma_le_len_all();
    if n > 0 {
        let m = (n - 1) as nat;
        lemma_sections_bytes_len(w, m);
        lemma_sections_bytes_len(w, n);
        lemma_split_at(x, o, reloc_sections_bytes(w, m), reloc_section_bytes(w[m as int]));
        lemma_sections_values(x, o, w, m);
        lemma_section_fields(x, o + 24 * m, w[m as int]);
    }
}

proof fn lemma_entries_values(x: Seq<u8>, o: int, w: Seq<RelocationEntry>, n: nat)
    requires
        0 <= o,
        n <= w.len(),
        o + 8 * n <= x.len(),
        x.subrange(o, o + 8 * n) == reloc_entries_bytes(w, n),
    ensures
        forall|i: int|
            0 <= i < n ==> crate::reader::reloc_entry_at(x, o + 8 * i, true, #[trigger] w[i]),
    decreases n,
{
    lemma_le_len_all();
    if n > 0 {
        let m = (n - 1) as nat;
        lemma_entries_bytes_len(w, m);
        lemma_entries_bytes_len(w, n);
        lemma_split_at(x, o, reloc_entries_bytes(w, m), reloc_entry_bytes(w[m as int]));
        lemma_entries_values(x, o, w, m);
        lemma_entry_fields(x, o + 8 * m, w[m as int]);
    }
}

proof fn lemma_sections_bytes_len(w: Seq<RelocationSection>, n: nat)
    requires
        n <= w.len(),
    ensures
        reloc_sections_bytes(w, n).len() == 24 * n,
    decreases n,
{
    lemma_le_len_all();
    if n > 0 {
        lemma_sections_bytes_len(w, (n - 1) as nat);
    }
}

proof fn lemma_entries_bytes_len(w: Seq<RelocationEntry>, n: nat)
    requires
        n <= w.len(),
    ensures
        reloc_entries_bytes(w, n).len() == 8 * n,
    decreases n,
{
    lemma_le_len_all();
    if n > 0 {
        lemma_entries_bytes_len(w, (n - 1) as nat);
    }
}

/// The relocation table of a written file reads back.
#[verifier::rlimit(100)]
proof fn lemma_reloc_values(f: BntxFile)
    requires
        writable(f),
    ensures
        ({
            let x = file_bytes(f);
            let t = f.header.reloc_table;
            let r = reloc_start(f);
            let c = t.sections@.len();
            &&& uint_at(x, r + 8, 4, true) == c
            &&& r + 16 + 24 * c + 8 * t.entries@.len() <= x.len()
            &&& forall|i: int|
                0 <= i < c ==> crate::reader::reloc_section_at(
                    x,
                    r + 16 + 24 * i,
                    true,
                    #[trigger] t.sections@[i],
                )
            &&& forall|j: int|
                0 <= j < t.entries@.len() ==> crate::reader::reloc_entry_at(
                    x,
                    r + 16 + 24 * c + 8 * j,
                    true,
                    #[trigger] t.entries@[j],
                )
        }),
{
    lemma_le_len_all();
    lemma_pow256_facts();
    lemma_blocks(f);
    let x = file_bytes(f);
    let t = f.header.reloc_table;
    let r = reloc_start(f);
    let c = t.sections@.len();
    let ne = t.entries@.len();
    lemma_sections_bytes_len(t.sections@, c);
    lemma_entries_bytes_len(t.entries@, ne);
    let head = le(crate::writer::MAGIC_RLT as int, 4) + le(r, 4) + le(c as int, 4) + zeros(4);
    let rb = reloc_bytes(f);
    assert(head.len() == 16);
    assert(rb == head + reloc_sections_bytes(t.sections@, c) + reloc_entries_bytes(t.entries@, ne));
    lemma_split_at(x, r, head + reloc_sections_bytes(t.sections@, c), reloc_entries_bytes(t.entries@, ne));
    lemma_split_at(x, r, head, reloc_sections_bytes(t.sections@, c));
    assert(head.subrange(8, 12) =~= le(c as int, 4));
    lemma_field(x, r, head, 8, c, 4);
    lemma_sections_values(x, r + 16, t.sections@, c);
    lemma_entries_values(x, r + 16 + 24 * c, t.entries@, ne);
}

/// Two files agree on everything the writer reads.
pub open spec fn same_image(g: BntxFile, f: BntxFile) -> bool {
    let (a, b) = (g.nx_header.brti, f.nx_header.brti);
    let (s, t) = (g.header.str_section, f.header.str_section);
    &&& g.header.version == f.header.version
    &&& g.header.revision == f.header.revision
    &&& s.block_size == t.block_size
    &&& s.block_offset == t.block_offset
    &&& s.strings@.len() == t.strings@.len()
    &&& forall|i: int|
        0 <= i < s.strings@.len() ==> (#[trigger] s.strings@[i]).chars@ == t.strings@[i].chars@
    &&& g.header.reloc_table.sections@ == f.header.reloc_table.sections@
    &&& g.header.reloc_table.entries@ == f.header.reloc_table.entries@
    &&& g.nx_header.dict_size == f.nx_header.dict_size
    &&& a.size == b.size
    &&& a.size2 == b.size2
    &&& a.flags == b.flags
    &&& crate::format::dimension_code(a.texture_dimension) == crate::format::dimension_code(
        b.texture_dimension,
    )
    &&& a.tile_mode == b.tile_mode
    &&& a.swizzle == b.swizzle
    &&& a.mipmap_count == b.mipmap_count
    &&& a.multi_sample_count == b.multi_sample_count
    &&& crate::format::format_code(a.format) == crate::format::format_code(b.format)
    &&& a.unk2 == b.unk2
    &&& a.width == b.width
    &&& a.height == b.height
    &&& a.depth == b.depth
    &&& a.layer_count == b.layer_count
    &&& a.block_height_log2 == b.block_height_log2
    &&& a.unk4@ == b.unk4@
    &&& a.image_size == b.image_size
    &&& a.align == b.align
    &&& a.comp_sel == b.comp_sel
    &&& crate::format::view_dimension_code(a.texture_view_dimension)
        == crate::format::view_dimension_code(b.texture_view_dimension)
    &&& a.texture.mipmap_offsets@ == b.texture.mipmap_offsets@
    &&& a.texture.image_data@ == b.texture.image_data@
}

proof fn lemma_strings_congruent(s: Seq<BntxStr>, t: Seq<BntxStr>, n: nat)
    requires
        n <= s.len(),
        s.len() == t.len(),
        forall|i: int| 0 <= i < s.len() ==> (#[trigger] s[i]).chars@ == t[i].chars@,
    ensures
        strings_bytes(s, n) == strings_bytes(t, n),
        strings_size(s, n) == strings_size(t, n),
    decreases n,
{
    if n > 0 {
        lemma_strings_congruent(s, t, (n - 1) as nat);
        assert(s[n - 1].chars@ == t[n - 1].chars@);
    }
}

/// Files that agree on everything the writer reads are written alike.
#[verifier::rlimit(100)]
pub proof fn lemma_same_image_bytes(g: BntxFile, f: BntxFile)
    requires
        same_image(g, f),
        writable(f),
        g.nx_header.brti.texture.mipmap_offsets@.len() == g.nx_header.brti.mipmap_count,
    ensures
        writable(g),
        file_bytes(g) == file_bytes(f),
{
    let (s, t) = (g.header.str_section, f.header.str_section);
    lemma_strings_congruent(s.strings@, t.strings@, s.strings@.len());
    assert(str_section_size(s) == str_section_size(t));
    assert(str_section_bytes(s) == str_section_bytes(t));
    assert(brti_start(g) == brti_start(f));
    assert(reloc_start(g) == reloc_start(f));
    assert(header_bytes(g) == header_bytes(f));
    assert(nx_bytes(g) == nx_bytes(f));
    assert(brti_kind_bytes(g.nx_header.brti) == brti_kind_bytes(f.nx_header.brti));
    assert(brti_extent_bytes(g.nx_header.brti) == brti_extent_bytes(f.nx_header.brti));
    assert(brti_tail_bytes(g.nx_header.brti, brti_start(g)) == brti_tail_bytes(
        f.nx_header.brti,
        brti_start(f),
    ));
    assert(brti_bytes(g.nx_header.brti, brti_start(g)) == brti_bytes(f.nx_header.brti, brti_start(f)));
    assert(mip_table_end(g) == mip_table_end(f));
    assert(brtd_bytes(g) == brtd_bytes(f));
    assert(reloc_bytes(g) == reloc_bytes(f));
}

/// A written file whose texture data is where the writer puts it: the first
/// mip offset at the start of the data section, and as many bytes as its
/// record says.
pub open spec fn consistent(f: BntxFile) -> bool {
    let b = f.nx_header.brti;
    &&& writable(f)
    &&& b.image_size == b.texture.image_data@.len()
    &&& b.texture.mipmap_offsets@[0] == crate::swizzle::START_OF_TEXTURE_DATA
}

/// The pool strings parsed from a written pool are the written ones.
#[verifier::rlimit(100)]
proof fn lemma_parsed_strings(x: Seq<u8>, t: StrSection, gs: StrSection)
    requires
        crate::reader::str_section_at(x, 0x1A0, true, gs),
        uint_at(x, 0x1A4, 4, true) == t.block_size,
        uint_at(x, 0x1A8, 8, true) == t.block_offset,
        uint_at(x, 0x1B0, 4, true) == t.strings@.len(),
        uint_at(x, 0x1B4, 2, true) == 0,
        strings_size(t.strings@, t.strings@.len()) <= 0xFFFF,
        0x1B8 + strings_size(t.strings@, t.strings@.len()) <= x.len(),
        x.subrange(0x1B8, (0x1B8 + strings_size(t.strings@, t.strings@.len())) as int)
            == strings_bytes(t.strings@, t.strings@.len()),
    ensures
        gs.block_size == t.block_size,
        gs.block_offset == t.block_offset,
        gs.strings@.len() == t.strings@.len(),
        forall|i: int|
            0 <= i < gs.strings@.len() ==> (#[trigger] gs.strings@[i]).chars@
                == t.strings@[i].chars@,
{
    let n = t.strings@.len();
    assert(crate::reader::str_next(x, 0x1B4, true) == 0x1B8) by {
        assert(align_up((0x1B4 + 3 + 0) as nat, 4) == 0x1B8);
    }
    lemma_string_layout(x, 0x1B8, t.strings@, n);
    assert forall|i: int| 0 <= i < gs.strings@.len() implies (#[trigger] gs.strings@[i]).chars@
        == t.strings@[i].chars@ by {
        lemma_string_pos(x, 0x1B8, t.strings@, n, i as nat);
        let e = t.strings@[i];
        let q: int = (0x1B8 + strings_size(t.strings@, i as nat)) as int;
        assert(strings_size(t.strings@, (i + 1) as nat) <= strings_size(t.strings@, n)) by {
            crate::writer::lemma_strings_size_prefix(t.strings@, (i + 1) as nat, n);
        }
        assert(e.chars@.len() + 3 <= str_entry_size(e)) by {
            lemma_align4_shift(0, e.chars@.len() + 3);
        }
        assert(x.subrange(q, q + str_entry_size(e)) == str_entry_bytes(e));
        lemma_entry_values(x, q, e);
        assert(crate::reader::str_at(x, q, true, gs.strings@[i]));
    }
}

/// The header and string pool parsed from a written file are the written ones.
#[verifier::rlimit(100)]
proof fn lemma_parsed_header(f: BntxFile, g: BntxFile)
    requires
        writable(f),
        crate::reader::parses_to(file_bytes(f), g),
    ensures
        g.header.version == f.header.version,
        g.header.revision == f.header.revision,
        g.nx_header.dict_size == f.nx_header.dict_size,
        g.header.str_section.block_size == f.header.str_section.block_size,
        g.header.str_section.block_offset == f.header.str_section.block_offset,
        g.header.str_section.strings@.len() == f.header.str_section.strings@.len(),
        forall|i: int|
            0 <= i < g.header.str_section.strings@.len()
                ==> (#[trigger] g.header.str_section.strings@[i]).chars@
                == f.header.str_section.strings@[i].chars@,
{
    let x = file_bytes(f);
    lemma_header_bom(f);
    lemma_header_values(f);
    lemma_header_pointers(f);
    lemma_nx_values(f);
    lemma_str_section_values(f);
    let e = crate::reader::is_little(x);
    assert(g.header.version == (uint_at(x, 8, 2, true) as u16, uint_at(x, 10, 2, true) as u16)
        && g.header.revision == uint_at(x, 14, 2, e) && g.nx_header.dict_size == uint_at(
        x,
        0x40,
        8,
        e,
    ) && crate::reader::str_section_at(x, uint_at(x, 22, 2, e) as int, e, g.header.str_section))
        by {
        reveal(crate::reader::parses_to);
    }
    lemma_parsed_strings(x, f.header.str_section, g.header.str_section);
}

#[verifier::rlimit(100)]
proof fn lemma_parsed_reloc_at(x: Seq<u8>, r: int, t: RelocationTable, gt: RelocationTable)
    requires
        crate::reader::reloc_at(x, r, true, gt),
        uint_at(x, r + 8, 4, true) == t.sections@.len(),
        reloc_count_sum(t.sections@, t.sections@.len()) == t.entries@.len(),
        forall|i: int|
            0 <= i < t.sections@.len() ==> crate::reader::reloc_section_at(
                x,
                r + 16 + 24 * i,
                true,
                #[trigger] t.sections@[i],
            ),
        forall|j: int|
            0 <= j < t.entries@.len() ==> crate::reader::reloc_entry_at(
                x,
                r + 16 + 24 * t.sections@.len() + 8 * j,
                true,
                #[trigger] t.entries@[j],
            ),
    ensures
        gt.sections@ == t.sections@,
        gt.entries@ == t.entries@,
{
    let c = t.sections@.len();
    crate::reader::lemma_count_sum_matches(x, r + 16, true, t.sections@, c);
    assert forall|i: int| 0 <= i < c implies gt.sections@[i] == t.sections@[i] by {
        assert(crate::reader::reloc_section_at(x, r + 16 + 24 * i, true, gt.sections@[i]));
        assert(crate::reader::reloc_section_at(x, r + 16 + 24 * i, true, t.sections@[i]));
    }
    assert(gt.sections@ =~= t.sections@);
    assert forall|j: int| 0 <= j < t.entries@.len() implies gt.entries@[j] == t.entries@[j] by {
        assert(crate::reader::reloc_entry_at(x, r + 16 + 24 * c + 8 * j, true, gt.entries@[j]));
        assert(crate::reader::reloc_entry_at(x, r + 16 + 24 * c + 8 * j, true, t.entries@[j]));
    }
    assert(gt.entries@ =~= t.entries@);
}

/// The relocation table parsed from a written file is the written one.
#[verifier::rlimit(100)]
proof fn lemma_parsed_reloc(f: BntxFile, g: BntxFile)
    requires
        writable(f),
        crate::reader::parses_to(file_bytes(f), g),
    ensures
        g.header.reloc_table.sections@ == f.header.reloc_table.sections@,
        g.header.reloc_table.entries@ == f.header.reloc_table.entries@,
{
    let x = file_bytes(f);
    lemma_header_bom(f);
    lemma_header_pointers(f);
    lemma_reloc_values(f);
    let e = crate::reader::is_little(x);
    assert(crate::reader::reloc_at(x, uint_at(x, 24, 4, e) as int, e, g.header.reloc_table)) by {
        reveal(crate::reader::parses_to);
    }
    lemma_parsed_reloc_at(x, reloc_start(f), f.header.reloc_table, g.header.reloc_table);
}

/// The scalar fields of a texture record parsed where one was written.
#[verifier::rlimit(100)]
proof fn lemma_parsed_scalars(x: Seq<u8>, s: int, b: BrtiSection, gb: BrtiSection)
    requires
        crate::reader::brti_at(x, s, true, gb),
        uint_at(x, s + 4, 4, true) == b.size,
        uint_at(x, s + 8, 8, true) == b.size2,
        uint_at(x, s + 16, 1, true) == b.flags,
        uint_at(x, s + 17, 1, true) == crate::format::dimension_code(b.texture_dimension),
        uint_at(x, s + 18, 2, true) == b.tile_mode,
        uint_at(x, s + 20, 2, true) == b.swizzle,
        uint_at(x, s + 22, 2, true) == b.mipmap_count,
        uint_at(x, s + 24, 4, true) == b.multi_sample_count,
        uint_at(x, s + 28, 4, true) == crate::format::format_code(b.format),
        uint_at(x, s + 32, 4, true) == b.unk2,
        uint_at(x, s + 36, 4, true) == b.width,
        uint_at(x, s + 40, 4, true) == b.height,
        uint_at(x, s + 44, 4, true) == b.depth,
        uint_at(x, s + 48, 4, true) == b.layer_count,
        uint_at(x, s + 52, 4, true) == b.block_height_log2,
        uint_at(x, s + 80, 4, true) == b.image_size,
        uint_at(x, s + 84, 4, true) == b.align,
        uint_at(x, s + 88, 4, true) == b.comp_sel,
        uint_at(x, s + 92, 4, true) == crate::format::view_dimension_code(b.texture_view_dimension),
    ensures
        gb.size == b.size,
        gb.size2 == b.size2,
        gb.flags == b.flags,
        crate::format::dimension_code(gb.texture_dimension) == crate::format::dimension_code(
            b.texture_dimension,
        ),
        gb.tile_mode == b.tile_mode,
        gb.swizzle == b.swizzle,
        gb.mipmap_count == b.mipmap_count,
        gb.multi_sample_count == b.multi_sample_count,
        crate::format::format_code(gb.format) == crate::format::format_code(b.format),
        gb.unk2 == b.unk2,
        gb.width == b.width,
        gb.height == b.height,
        gb.depth == b.depth,
        gb.layer_count == b.layer_count,
        gb.block_height_log2 == b.block_height_log2,
        gb.image_size == b.image_size,
        gb.align == b.align,
        gb.comp_sel == b.comp_sel,
        crate::format::view_dimension_code(gb.texture_view_dimension)
            == crate::format::view_dimension_code(b.texture_view_dimension),
{
}

/// The unknown words and the texture parsed where they were written.
#[verifier::rlimit(100)]
proof fn lemma_parsed_texture(x: Seq<u8>, s: int, b: BrtiSection, gb: BrtiSection)
    requires
        crate::reader::brti_at(x, s, true, gb),
        0 <= s,
        b.unk4@.len() == 6,
        forall|i: int| 0 <= i < 6 ==> uint_at(x, s + 56 + 4 * i, 4, true) == #[trigger] b.unk4@[i],
        uint_at(x, s + 112, 8, true) == s + 0x2A0,
        uint_at(x, s + 22, 2, true) == b.mipmap_count,
        uint_at(x, s + 80, 4, true) == b.image_size,
        b.texture.mipmap_offsets@.len() == b.mipmap_count,
        b.mipmap_count >= 1,
        forall|i: int|
            0 <= i < b.mipmap_count ==> uint_at(x, s + 0x2A0 + 8 * i, 8, true)
                == #[trigger] b.texture.mipmap_offsets@[i],
        b.texture.mipmap_offsets@[0] == 0x1000,
        b.image_size == b.texture.image_data@.len(),
        0x1000 + b.texture.image_data@.len() <= x.len(),
        x.subrange(0x1000, (0x1000 + b.texture.image_data@.len()) as int) == b.texture.image_data@,
    ensures
        gb.unk4@ == b.unk4@,
        gb.texture.mipmap_offsets@ == b.texture.mipmap_offsets@,
        gb.texture.image_data@ == b.texture.image_data@,
{
    assert forall|i: int| 0 <= i < 6 implies gb.unk4@[i] == b.unk4@[i] by {
        assert(gb.unk4@[i] == uint_at(x, s + 56 + 4 * i, 4, true));
    }
    assert(gb.unk4@ =~= b.unk4@);
    let tp = s + 0x2A0;
    assert(crate::reader::texture_at(
        x,
        tp,
        true,
        b.mipmap_count as int,
        b.image_size as int,
        gb.texture,
    ));
    assert forall|i: int| 0 <= i < b.mipmap_count implies gb.texture.mipmap_offsets@[i]
        == b.texture.mipmap_offsets@[i] by {
        assert(gb.texture.mipmap_offsets@[i] == uint_at(x, tp + 8 * i, 8, true));
    }
    assert(gb.texture.mipmap_offsets@ =~= b.texture.mipmap_offsets@);
    assert(uint_at(x, tp, 8, true) == 0x1000) by {
        assert(uint_at(x, tp + 8 * 0, 8, true) == b.texture.mipmap_offsets@[0]);
    }
    assert forall|k: int| 0 <= k < b.image_size implies gb.texture.image_data@[k]
        == b.texture.image_data@[k] by {
        assert(gb.texture.image_data@[k] == x[0x1000 + k]);
        assert(x.subrange(0x1000, (0x1000 + b.texture.image_data@.len()) as int)[k] == x[0x1000 + k]);
    }
    assert(gb.texture.image_data@ =~= b.texture.image_data@);
}

/// The texture record parsed from a written file is the written one.
#[verifier::rlimit(100)]
proof fn lemma_parsed_brti(f: BntxFile, g: BntxFile)
    requires
        consistent(f),
        crate::reader::parses_to(file_bytes(f), g),
    ensures
        crate::reader::brti_at(file_bytes(f), brti_start(f), true, g.nx_header.brti),
        g.nx_header.brti.texture.mipmap_offsets@.len() == g.nx_header.brti.mipmap_count,
{
    let x = file_bytes(f);
    lemma_header_bom(f);
    lemma_nx_values(f);
    let e = crate::reader::is_little(x);
    assert(crate::reader::brti_at(x, crate::reader::brti_pos(x, e), e, g.nx_header.brti)) by {
        reveal(crate::reader::parses_to);
    }
}

/// The fields of the texture record parsed from a written file.
#[verifier::rlimit(100)]
proof fn lemma_parsed_brti_fields(f: BntxFile, g: BntxFile)
    requires
        consistent(f),
        crate::reader::brti_at(file_bytes(f), brti_start(f), true, g.nx_header.brti),
    ensures
        ({
            let (a, b) = (g.nx_header.brti, f.nx_header.brti);
            &&& a.size == b.size
            &&& a.size2 == b.size2
            &&& a.flags == b.flags
            &&& crate::format::dimension_code(a.texture_dimension)
                == crate::format::dimension_code(b.texture_dimension)
            &&& a.tile_mode == b.tile_mode
            &&& a.swizzle == b.swizzle
            &&& a.mipmap_count == b.mipmap_count
            &&& a.multi_sample_count == b.multi_sample_count
            &&& crate::format::format_code(a.format) == crate::format::format_code(b.format)
            &&& a.unk2 == b.unk2
            &&& a.width == b.width
            &&& a.height == b.height
            &&& a.depth == b.depth
            &&& a.layer_count == b.layer_count
            &&& a.block_height_log2 == b.block_height_log2
            &&& a.unk4@ == b.unk4@
            &&& a.image_size == b.image_size
            &&& a.align == b.align
            &&& a.comp_sel == b.comp_sel
            &&& crate::format::view_dimension_code(a.texture_view_dimension)
                == crate::format::view_dimension_code(b.texture_view_dimension)
            &&& a.texture.mipmap_offsets@ == b.texture.mipmap_offsets@
            &&& a.texture.image_data@ == b.texture.image_data@
        }),
{
    let x = file_bytes(f);
    let b = f.nx_header.brti;
    let s = brti_start(f);
    lemma_brti_kind_values(f);
    lemma_brti_extent_values(f);
    lemma_brti_tail_values(f);
    lemma_brti_parts(f);
    lemma_blocks(f);
    lemma_words_values(x, s + 56, b.unk4@, 6);
    lemma_offsets_values(x, s + 0x2A0, b.texture.mipmap_offsets@, b.texture.mipmap_offsets@.len());
    lemma_parsed_scalars(x, s, b, g.nx_header.brti);
    lemma_parsed_texture(x, s, b, g.nx_header.brti);
}

/// Writing a file parsed from what the writer made of a consistent file
/// gives back exactly those bytes: the writer's output is a fixed point of
/// reading and writing.
pub proof fn lemma_parse_write_identity(f: BntxFile, g: BntxFile)
    requires
        consistent(f),
        crate::reader::parses_to(file_bytes(f), g),
    ensures
        writable(g),
        file_bytes(g) == file_bytes(f),
{
    lemma_parsed_header(f, g);
    lemma_parsed_reloc(f, g);
    lemma_parsed_brti(f, g);
    lemma_parsed_brti_fields(f, g);
    lemma_same_image_bytes(g, f);
}

/// Every written file has its sections where the layout constants put
/// them: the file header at 0, the `NX  ` header at 0x20, the string pool at
/// `START_OF_STR_SECTION`, the pixel data section at `BRTD_SECTION_START`
/// with the pixels at `START_OF_TEXTURE_DATA`, the relocation table after.
#[verifier::rlimit(100)]
pub proof fn lemma_written_layout(f: BntxFile)
    requires
        writable(f),
    ensures
        ({
            let x = file_bytes(f);
            let data = f.nx_header.brti.texture.image_data@;
            &&& crate::reader::magic_at(x, 0, crate::writer::MAGIC_BNTX)
            &&& crate::reader::magic_at(x, 0x20, crate::writer::MAGIC_NX)
            &&& crate::reader::magic_at(
                x,
                crate::model::START_OF_STR_SECTION as int,
                crate::writer::MAGIC_STR,
            )
            &&& crate::reader::magic_at(
                x,
                crate::model::BRTD_SECTION_START as int,
                crate::writer::MAGIC_BRTD,
            )
            &&& uint_at(x, crate::model::BRTD_SECTION_START + 4, 4, true) == 0
            &&& uint_at(x, crate::model::BRTD_SECTION_START + 8, 8, true) == data.len() + 0x10
            &&& x.subrange(
                crate::swizzle::START_OF_TEXTURE_DATA as int,
                crate::swizzle::START_OF_TEXTURE_DATA + data.len(),
            ) == data
            &&& crate::reader::magic_at(
                x,
                crate::swizzle::START_OF_TEXTURE_DATA + data.len(),
                crate::writer::MAGIC_RLT,
            )
        }),
{
    lemma_le_len_all();
    lemma_pow256_facts();
    lemma_blocks(f);
    lemma_str_section_len(f.header.str_section);
    let x = file_bytes(f);
    let h = header_bytes(f);
    assert(h.subrange(0, 4) =~= le(crate::writer::MAGIC_BNTX as int, 4));
    lemma_field(x, 0, h, 0, crate::writer::MAGIC_BNTX as nat, 4);
    let n = nx_bytes(f);
    assert(n.subrange(0, 4) =~= le(crate::writer::MAGIC_NX as int, 4));
    lemma_field(x, 0x20, n, 0, crate::writer::MAGIC_NX as nat, 4);
    let sb = str_section_bytes(f.header.str_section);
    assert(sb.subrange(0, 4) =~= le(crate::writer::MAGIC_STR as int, 4));
    lemma_field(x, 0x1A0, sb, 0, crate::writer::MAGIC_STR as nat, 4);
    let t = brtd_bytes(f);
    assert(t.subrange(0, 4) =~= le(crate::writer::MAGIC_BRTD as int, 4));
    lemma_field(x, 0xFF0, t, 0, crate::writer::MAGIC_BRTD as nat, 4);
    assert(t.subrange(4, 8) =~= le(0, 4));
    lemma_field(x, 0xFF0, t, 4, 0, 4);
    let dl = (f.nx_header.brti.texture.image_data@.len() + 0x10) as nat;
    assert(t.subrange(8, 16) =~= le(dl as int, 8));
    assert(dl < pow256(8)) by {
        assert(reloc_start(f) <= u32::MAX);
    }
    lemma_field(x, 0xFF0, t, 8, dl, 8);
    let r = reloc_bytes(f);
    let start: int = (0x1000 + f.nx_header.brti.texture.image_data@.len()) as int;
    assert(r.subrange(0, 4) =~= le(crate::writer::MAGIC_RLT as int, 4));
    lemma_field(x, start, r, 0, crate::writer::MAGIC_RLT as nat, 4);
}

} // verus!
