//! Serialising a file to bytes, always little-endian, with every offset
//! computed from the section sizes.
use vstd::prelude::*;
use crate::bytes::{le_bytes, put_le, put_bytes, put_zeros, zeros};
use crate::error::{Field, FormatError};
use crate::format::{dimension_code, format_code, view_dimension_code};
use crate::model::{
    reloc_table_size, str_entry_size, str_section_size, strings_size, BntxFile, BntxStr,
    BrtiSection, RelocationEntry, RelocationSection, StrSection, BNTX_HEADER_SIZE,
    BRTD_SECTION_START, DICT_SECTION_SIZE, FILENAME_STR_OFFSET, HEADER_SIZE, MEM_POOL_SIZE,
    SIZE_OF_BRTI, START_OF_STR_SECTION,
};
use crate::swizzle::START_OF_TEXTURE_DATA;

verus! {

pub const MAGIC_BNTX: u64 = 0x5854_4E42;
pub const MAGIC_NX: u64 = 0x2020_584E;
pub const MAGIC_STR: u64 = 0x5254_535F;
pub const MAGIC_DIC: u64 = 0x4349_445F;
pub const MAGIC_BRTI: u64 = 0x4954_5242;
pub const MAGIC_BRTD: u64 = 0x4454_5242;
pub const MAGIC_RLT: u64 = 0x544C_525F;
/// The byte-order marker of a little-endian file, `FF FE` on disk.
pub const BOM_LITTLE: u64 = 0xFEFF;

/// `v` as `n` little-endian bytes.
pub open spec fn le(v: int, n: nat) -> Seq<u8> {
    le_bytes(v as nat, n)
}

/// The fixed dictionary image the writer emits: one entry after the root,
/// naming the empty string and the file name of the pool.
pub open spec fn dict_bytes() -> Seq<u8> {
    le(MAGIC_DIC as int, 4) + le(1, 4) + le(0xFFFF_FFFF, 4) + le(1, 2) + le(0, 2) + le(0x1B4, 8)
        + le(1, 4) + le(0, 2) + le(1, 2) + le(0x1B8, 8)
}

/// The bytes of one pool string: length, characters, zero, padding.
pub open spec fn str_entry_bytes(s: BntxStr) -> Seq<u8> {
    le(s.chars@.len() as int, 2) + s.chars@ + seq![0u8] + zeros(
        (str_entry_size(s) - (s.chars@.len() + 3)) as nat,
    )
}

/// The bytes of the first `n` pool strings.
pub open spec fn strings_bytes(strings: Seq<BntxStr>, n: nat) -> Seq<u8>
    decreases n,
{
    if n == 0 || n > strings.len() {
        Seq::empty()
    } else {
        strings_bytes(strings, (n - 1) as nat) + str_entry_bytes(strings[n - 1])
    }
}

/// The bytes of the string pool.
pub open spec fn str_section_bytes(s: StrSection) -> Seq<u8> {
    let body = strings_size(s.strings@, s.strings@.len());
    le(MAGIC_STR as int, 4) + le(s.block_size as int, 4) + le(s.block_offset as int, 8) + le(
        s.strings@.len() as int,
        4,
    ) + le(0, 2) + le(0, 2) + strings_bytes(s.strings@, s.strings@.len()) + zeros(
        (str_section_size(s) - (0x18 + body)) as nat,
    )
}

/// The bytes of the first `n` words of `w`.
pub open spec fn words_bytes(w: Seq<u32>, n: nat) -> Seq<u8>
    decreases n,
{
    if n == 0 || n > w.len() {
        Seq::empty()
    } else {
        words_bytes(w, (n - 1) as nat) + le(w[n - 1] as int, 4)
    }
}

/// The bytes of the first `n` mip offsets of `o`.
pub open spec fn offsets_bytes(o: Seq<u64>, n: nat) -> Seq<u8>
    decreases n,
{
    if n == 0 || n > o.len() {
        Seq::empty()
    } else {
        offsets_bytes(o, (n - 1) as nat) + le(o[n - 1] as int, 8)
    }
}

/// The texture record at `start`, with its pointers to the name, the file
/// header, the texture data and the mip offset table.
pub open spec fn brti_bytes(b: BrtiSection, start: int) -> Seq<u8> {
    brti_head_bytes(b) + words_bytes(b.unk4@, 6) + brti_tail_bytes(b, start)
}

/// The texture record up to its six unknown words.
pub open spec fn brti_head_bytes(b: BrtiSection) -> Seq<u8> {
    brti_kind_bytes(b) + brti_extent_bytes(b)
}

/// The texture record from its magic to its multi-sample count.
pub open spec fn brti_kind_bytes(b: BrtiSection) -> Seq<u8> {
    le(MAGIC_BRTI as int, 4) + le(b.size as int, 4) + le(b.size2 as int, 8) + le(b.flags as int, 1)
        + le(dimension_code(b.texture_dimension) as int, 1) + le(b.tile_mode as int, 2) + le(
        b.swizzle as int,
        2,
    ) + le(b.mipmap_count as int, 2) + le(b.multi_sample_count as int, 4)
}

/// The texture record from its format to its block height.
pub open spec fn brti_extent_bytes(b: BrtiSection) -> Seq<u8> {
    le(format_code(b.format) as int, 4) + le(b.unk2 as int, 4) + le(b.width as int, 4) + le(
        b.height as int,
        4,
    ) + le(b.depth as int, 4) + le(b.layer_count as int, 4) + le(b.block_height_log2 as int, 4)
}

/// The texture record after its six unknown words.
pub open spec fn brti_tail_bytes(b: BrtiSection, start: int) -> Seq<u8> {
    le(b.image_size as int, 4) + le(b.align as int, 4) + le(b.comp_sel as int, 4) + le(
        view_dimension_code(b.texture_view_dimension) as int,
        4,
    ) + le(FILENAME_STR_OFFSET as int, 8) + le(BNTX_HEADER_SIZE as int, 8) + le(
        start + SIZE_OF_BRTI + 0x200,
        8,
    ) + le(0, 8) + le(start + SIZE_OF_BRTI, 8) + le(start + SIZE_OF_BRTI + 0x100, 8) + le(0, 8)
        + le(0, 8)
}

pub open spec fn reloc_section_bytes(s: RelocationSection) -> Seq<u8> {
    le(s.pointer as int, 8) + le(s.position as int, 4) + le(s.size as int, 4) + le(
        s.index as int,
        4,
    ) + le(s.count as int, 4)
}

pub open spec fn reloc_entry_bytes(e: RelocationEntry) -> Seq<u8> {
    le(e.position as int, 4) + le(e.struct_count as int, 2) + le(e.offset_count as int, 1) + le(
        e.padding_count as int,
        1,
    )
}

pub open spec fn reloc_sections_bytes(s: Seq<RelocationSection>, n: nat) -> Seq<u8>
    decreases n,
{
    if n == 0 || n > s.len() {
        Seq::empty()
    } else {
        reloc_sections_bytes(s, (n - 1) as nat) + reloc_section_bytes(s[n - 1])
    }
}

pub open spec fn reloc_entries_bytes(e: Seq<RelocationEntry>, n: nat) -> Seq<u8>
    decreases n,
{
    if n == 0 || n > e.len() {
        Seq::empty()
    } else {
        reloc_entries_bytes(e, (n - 1) as nat) + reloc_entry_bytes(e[n - 1])
    }
}

/// Where the texture record starts.
pub open spec fn brti_start(f: BntxFile) -> int {
    START_OF_STR_SECTION + str_section_size(f.header.str_section) + DICT_SECTION_SIZE
}

/// Where the mip offset table ends.
pub open spec fn mip_table_end(f: BntxFile) -> int {
    brti_start(f) + SIZE_OF_BRTI + 0x200 + 8 * f.nx_header.brti.texture.mipmap_offsets@.len()
}

/// Where the relocation table starts.
pub open spec fn reloc_start(f: BntxFile) -> int {
    START_OF_TEXTURE_DATA + f.nx_header.brti.texture.image_data@.len()
}

/// The file fits the layout: the string pool and the mip offset table end
/// before the pixel data section, and every offset fits its field.
pub open spec fn writable(f: BntxFile) -> bool {
    &&& f.wf()
    &&& str_section_size(f.header.str_section) <= u32::MAX
    &&& mip_table_end(f) <= BRTD_SECTION_START
    &&& f.header.reloc_table.sections@.len() <= u32::MAX
    &&& f.header.reloc_table.entries@.len() <= u32::MAX
    &&& reloc_start(f) + reloc_table_size(f.header.reloc_table) <= u32::MAX
}

/// The file header.
pub open spec fn header_bytes(f: BntxFile) -> Seq<u8> {
    let rlt = reloc_start(f);
    le(MAGIC_BNTX as int, 4) + le(0, 4) + le(f.header.version.0 as int, 2) + le(
        f.header.version.1 as int,
        2,
    ) + le(BOM_LITTLE as int, 2) + le(f.header.revision as int, 2) + le(
        FILENAME_STR_OFFSET + 2,
        4,
    ) + le(0, 2) + le(START_OF_STR_SECTION as int, 2) + le(rlt, 4) + le(
        rlt + reloc_table_size(f.header.reloc_table),
        4,
    )
}

/// The `NX  ` header.
pub open spec fn nx_bytes(f: BntxFile) -> Seq<u8> {
    le(MAGIC_NX as int, 4) + le(1, 4) + le(HEADER_SIZE + MEM_POOL_SIZE, 8) + le(
        BRTD_SECTION_START as int,
        8,
    ) + le(START_OF_STR_SECTION + str_section_size(f.header.str_section), 8) + le(
        f.nx_header.dict_size as int,
        8,
    )
}

/// The header of the pixel data section.
pub open spec fn brtd_bytes(f: BntxFile) -> Seq<u8> {
    le(MAGIC_BRTD as int, 4) + le(0, 4) + le(
        (f.nx_header.brti.texture.image_data@.len() + 0x10) as int,
        8,
    )
}

/// The relocation table.
pub open spec fn reloc_bytes(f: BntxFile) -> Seq<u8> {
    let t = f.header.reloc_table;
    le(MAGIC_RLT as int, 4) + le(reloc_start(f), 4) + le(t.sections@.len() as int, 4) + zeros(4)
        + reloc_sections_bytes(t.sections@, t.sections@.len()) + reloc_entries_bytes(
        t.entries@,
        t.entries@.len(),
    )
}

/// The bytes of a file.
pub open spec fn file_bytes(f: BntxFile) -> Seq<u8> {
    let b = f.nx_header.brti;
    header_bytes(f) + nx_bytes(f) + zeros(MEM_POOL_SIZE as nat) + le(brti_start(f), 8)
        + str_section_bytes(f.header.str_section) + dict_bytes() + brti_bytes(b, brti_start(f))
        + zeros(0x200) + offsets_bytes(b.texture.mipmap_offsets@, b.texture.mipmap_offsets@.len())
        + zeros((BRTD_SECTION_START - mip_table_end(f)) as nat) + brtd_bytes(f)
        + b.texture.image_data@ + reloc_bytes(f)
}

fn put_header(out: &mut Vec<u8>, f: &BntxFile, rlt: u64, rlt_size: u64)
    requires
        rlt == reloc_start(*f),
        rlt_size == reloc_table_size(f.header.reloc_table),
        rlt + rlt_size <= u32::MAX,
    ensures
        final(out)@ == old(out)@ + header_bytes(*f),
{
    put_le(out, MAGIC_BNTX, 4);
    put_le(out, 0, 4);
    put_le(out, f.header.version.0 as u64, 2);
    put_le(out, f.header.version.1 as u64, 2);
    put_le(out, BOM_LITTLE, 2);
    put_le(out, f.header.revision as u64, 2);
    put_le(out, FILENAME_STR_OFFSET as u64 + 2, 4);
    put_le(out, 0, 2);
    put_le(out, START_OF_STR_SECTION as u64, 2);
    put_le(out, rlt, 4);
    put_le(out, rlt + rlt_size, 4);
    assert(out@ =~= old(out)@ + header_bytes(*f));
}

fn put_nx(out: &mut Vec<u8>, f: &BntxFile, str_size: u64)
    requires
        str_size == str_section_size(f.header.str_section),
        str_size <= u32::MAX,
    ensures
        final(out)@ == old(out)@ + nx_bytes(*f),
{
    put_le(out, MAGIC_NX, 4);
    put_le(out, 1, 4);
    put_le(out, (HEADER_SIZE + MEM_POOL_SIZE) as u64, 8);
    put_le(out, BRTD_SECTION_START as u64, 8);
    put_le(out, START_OF_STR_SECTION as u64 + str_size, 8);
    put_le(out, f.nx_header.dict_size, 8);
    assert(out@ =~= old(out)@ + nx_bytes(*f));
}

fn put_dict(out: &mut Vec<u8>)
    ensures
        final(out)@ == old(out)@ + dict_bytes(),
{
    put_le(out, MAGIC_DIC, 4);
    put_le(out, 1, 4);
    put_le(out, 0xFFFF_FFFF, 4);
    put_le(out, 1, 2);
    put_le(out, 0, 2);
    put_le(out, 0x1B4, 8);
    put_le(out, 1, 4);
    put_le(out, 0, 2);
    put_le(out, 1, 2);
    put_le(out, 0x1B8, 8);
    assert(out@ =~= old(out)@ + dict_bytes());
}

fn put_str_section(out: &mut Vec<u8>, s: &StrSection, str_size: u64)
    requires
        str_size == str_section_size(*s),
        str_size <= u32::MAX,
    ensures
        final(out)@ == old(out)@ + str_section_bytes(*s),
{
    put_le(out, MAGIC_STR, 4);
    put_le(out, s.block_size as u64, 4);
    put_le(out, s.block_offset, 8);
    proof {
        lemma_strings_size_bound(s.strings@, s.strings@.len());
        lemma_count_bound(s.strings@, s.strings@.len());
    }
    put_le(out, s.strings.len() as u64, 4);
    put_le(out, 0, 2);
    put_le(out, 0, 2);
    let ghost mid = out@;
    let mut body: u64 = 0;
    let mut i: usize = 0;
    while i < s.strings.len()
        invariant
            i <= s.strings@.len(),
            out@ == mid + strings_bytes(s.strings@, i as nat),
            body == strings_size(s.strings@, i as nat),
            strings_size(s.strings@, s.strings@.len()) <= u32::MAX,
        decreases s.strings@.len() - i,
    {
        proof {
            lemma_strings_size_prefix(s.strings@, (i + 1) as nat, s.strings@.len());
        }
        let ghost before = out@;
        let entry = &s.strings[i];
        let len = entry.chars.len() as u64;
        let size = entry.get_size();
        put_le(out, len, 2);
        put_bytes(out, entry.chars.as_slice());
        put_le(out, 0, 1);
        put_zeros(out, (size - (len + 3)) as usize);
        proof {
            assert(le(0, 1) =~= seq![0u8]) by {
                reveal_with_fuel(le_bytes, 2);
            }
            assert(out@ =~= before + str_entry_bytes(s.strings@[i as int]));
        }
        body = body + size;
        i = i + 1;
    }
    put_zeros(out, (str_size - (0x18 + body)) as usize);
    assert(out@ =~= old(out)@ + str_section_bytes(*s));
}

/// The pool body is no smaller than the bytes of the strings' lengths.
pub proof fn lemma_strings_size_bound(strings: Seq<BntxStr>, n: nat)
    requires
        n <= strings.len(),
    ensures
        forall|i: int| 0 <= i < n ==> strings[i].chars@.len() + 3 <= #[trigger] str_entry_size(strings[i]),
        forall|i: int| 0 <= i < n ==> str_entry_size(strings[i]) <= strings_size(strings, n),
    decreases n,
{
    if n > 0 {
        lemma_strings_size_bound(strings, (n - 1) as nat);
        let s = strings[n - 1];
        let x = s.chars@.len() + 3;
        vstd::arithmetic::div_mod::lemma_fundamental_div_mod((x + 3) as int, 4);
        vstd::arithmetic::div_mod::lemma_mod_pos_bound((x + 3) as int, 4);
    }
}

proof fn lemma_count_bound(strings: Seq<BntxStr>, n: nat)
    requires
        n <= strings.len(),
    ensures
        strings_size(strings, n) >= 4 * n,
    decreases n,
{
    if n > 0 {
        lemma_count_bound(strings, (n - 1) as nat);
        lemma_strings_size_bound(strings, n);
    }
}

/// The pool body takes at least four bytes per string.
pub proof fn lemma_count_bound_pub(strings: Seq<BntxStr>, n: nat)
    requires
        n <= strings.len(),
    ensures
        strings_size(strings, n) >= 4 * n,
{
    lemma_count_bound(strings, n);
}

pub proof fn lemma_strings_size_prefix(strings: Seq<BntxStr>, a: nat, b: nat)
    requires
        a <= b <= strings.len(),
    ensures
        strings_size(strings, a) <= strings_size(strings, b),
    decreases b - a,
{
    if a < b {
        lemma_strings_size_prefix(strings, a, (b - 1) as nat);
    }
}

fn put_brti_kind(out: &mut Vec<u8>, b: &BrtiSection)
    ensures
        final(out)@ == old(out)@ + brti_kind_bytes(*b),
{
    put_le(out, MAGIC_BRTI, 4);
    put_le(out, b.size as u64, 4);
    put_le(out, b.size2, 8);
    put_le(out, b.flags as u64, 1);
    put_le(out, b.texture_dimension.code() as u64, 1);
    put_le(out, b.tile_mode as u64, 2);
    put_le(out, b.swizzle as u64, 2);
    put_le(out, b.mipmap_count as u64, 2);
    put_le(out, b.multi_sample_count as u64, 4);
    assert(out@ =~= old(out)@ + brti_kind_bytes(*b));
}

fn put_brti_extent(out: &mut Vec<u8>, b: &BrtiSection)
    ensures
        final(out)@ == old(out)@ + brti_extent_bytes(*b),
{
    put_le(out, b.format.code() as u64, 4);
    put_le(out, b.unk2 as u64, 4);
    put_le(out, b.width as u64, 4);
    put_le(out, b.height as u64, 4);
    put_le(out, b.depth as u64, 4);
    put_le(out, b.layer_count as u64, 4);
    put_le(out, b.block_height_log2 as u64, 4);
    assert(out@ =~= old(out)@ + brti_extent_bytes(*b));
}

fn put_brti_tail(out: &mut Vec<u8>, b: &BrtiSection, start: u64)
    requires
        start + SIZE_OF_BRTI + 0x200 <= u64::MAX,
    ensures
        final(out)@ == old(out)@ + brti_tail_bytes(*b, start as int),
{
    put_le(out, b.image_size as u64, 4);
    put_le(out, b.align as u64, 4);
    put_le(out, b.comp_sel as u64, 4);
    put_le(out, b.texture_view_dimension.code() as u64, 4);
    put_le(out, FILENAME_STR_OFFSET as u64, 8);
    put_le(out, BNTX_HEADER_SIZE as u64, 8);
    put_le(out, start + SIZE_OF_BRTI as u64 + 0x200, 8);
    put_le(out, 0, 8);
    put_le(out, start + SIZE_OF_BRTI as u64, 8);
    put_le(out, start + SIZE_OF_BRTI as u64 + 0x100, 8);
    put_le(out, 0, 8);
    put_le(out, 0, 8);
    assert(out@ =~= old(out)@ + brti_tail_bytes(*b, start as int));
}

fn put_brti(out: &mut Vec<u8>, b: &BrtiSection, start: u64)
    requires
        b.unk4@.len() == 6,
        start + SIZE_OF_BRTI + 0x200 <= u64::MAX,
    ensures
        final(out)@ == old(out)@ + brti_bytes(*b, start as int),
{
    put_brti_kind(out, b);
    put_brti_extent(out, b);
    assert(out@ =~= old(out)@ + brti_head_bytes(*b));
    let ghost before = out@;
    let mut i: usize = 0;
    while i < 6
        invariant
            i <= 6,
            b.unk4@.len() == 6,
            out@ == before + words_bytes(b.unk4@, i as nat),
        decreases 6 - i,
    {
        put_le(out, b.unk4[i] as u64, 4);
        i = i + 1;
        proof {
            assert(out@ =~= before + words_bytes(b.unk4@, i as nat));
        }
    }
    put_brti_tail(out, b, start);
    assert(out@ =~= old(out)@ + brti_bytes(*b, start as int));
}

fn put_offsets(out: &mut Vec<u8>, o: &Vec<u64>)
    ensures
        final(out)@ == old(out)@ + offsets_bytes(o@, o@.len()),
{
    let mut i: usize = 0;
    while i < o.len()
        invariant
            i <= o@.len(),
            out@ == old(out)@ + offsets_bytes(o@, i as nat),
        decreases o@.len() - i,
    {
        put_le(out, o[i], 8);
        i = i + 1;
        proof {
            assert(out@ =~= old(out)@ + offsets_bytes(o@, i as nat));
        }
    }
}

fn put_reloc(out: &mut Vec<u8>, f: &BntxFile, rlt: u64)
    requires
        rlt == reloc_start(*f),
        rlt <= u32::MAX,
        f.header.reloc_table.sections@.len() <= u32::MAX,
    ensures
        final(out)@ == old(out)@ + reloc_bytes(*f),
{
    let t = &f.header.reloc_table;
    put_le(out, MAGIC_RLT, 4);
    put_le(out, rlt, 4);
    put_le(out, t.sections.len() as u64, 4);
    put_zeros(out, 4);
    let ghost mid = out@;
    let mut i: usize = 0;
    while i < t.sections.len()
        invariant
            i <= t.sections@.len(),
            out@ == mid + reloc_sections_bytes(t.sections@, i as nat),
        decreases t.sections@.len() - i,
    {
        let ghost before = out@;
        let sec = &t.sections[i];
        put_le(out, sec.pointer, 8);
        put_le(out, sec.position as u64, 4);
        put_le(out, sec.size as u64, 4);
        put_le(out, sec.index as u64, 4);
        put_le(out, sec.count as u64, 4);
        i = i + 1;
        proof {
            assert(out@ =~= before + reloc_section_bytes(t.sections@[i - 1]));
            assert(out@ =~= mid + reloc_sections_bytes(t.sections@, i as nat));
        }
    }
    let ghost mid2 = out@;
    let mut j: usize = 0;
    while j < t.entries.len()
        invariant
            j <= t.entries@.len(),
            out@ == mid2 + reloc_entries_bytes(t.entries@, j as nat),
        decreases t.entries@.len() - j,
    {
        let ghost before = out@;
        let e = &t.entries[j];
        put_le(out, e.position as u64, 4);
        put_le(out, e.struct_count as u64, 2);
        put_le(out, e.offset_count as u64, 1);
        put_le(out, e.padding_count as u64, 1);
        j = j + 1;
        proof {
            assert(out@ =~= before + reloc_entry_bytes(t.entries@[j - 1]));
            assert(out@ =~= mid2 + reloc_entries_bytes(t.entries@, j as nat));
        }
    }
    assert(out@ =~= old(out)@ + reloc_bytes(*f));
}

impl BntxFile {
    /// The bytes of this file, little-endian, with every pointer and size
    /// computed from the sections. Fails with a `Layout` error where the
    /// string pool and mip table do not end before the pixel data section or
    /// an offset does not fit its 32-bit field.
    pub fn write(&self) -> (r: Result<Vec<u8>, FormatError>)
        ensures
            r is Ok <==> writable(*self),
            r matches Ok(v) ==> v@ == file_bytes(*self),
            r matches Err(e) ==> e.field == Field::Layout,
    {
        if !self.is_wf() {
            return Err(FormatError { offset: 0, field: Field::Layout });
        }
        let str_size = match self.header.str_section.get_size() {
            Some(s) => s,
            None => {
                return Err(FormatError { offset: START_OF_STR_SECTION as u64, field: Field::Layout });
            },
        };
        let start: u64 = START_OF_STR_SECTION as u64 + str_size + DICT_SECTION_SIZE as u64;
        let b = &self.nx_header.brti;
        let mips = b.texture.mipmap_offsets.len() as u64;
        if mips > 0x1000 || start + SIZE_OF_BRTI as u64 + 0x200 + 8 * mips > BRTD_SECTION_START as u64 {
            return Err(FormatError { offset: start, field: Field::Layout });
        }
        let t = &self.header.reloc_table;
        if t.sections.len() as u64 > u32::MAX as u64 || t.entries.len() as u64 > u32::MAX as u64 {
            return Err(FormatError { offset: 0, field: Field::Layout });
        }
        let rlt_size = t.get_size();
        let data_len = b.texture.image_data.len() as u64;
        if data_len > u32::MAX as u64 || START_OF_TEXTURE_DATA as u64 + data_len + rlt_size
            > u32::MAX as u64 {
            return Err(FormatError { offset: START_OF_TEXTURE_DATA as u64, field: Field::Layout });
        }
        let rlt: u64 = START_OF_TEXTURE_DATA as u64 + data_len;
        let mut out: Vec<u8> = Vec::new();
        put_header(&mut out, self, rlt, rlt_size);
        assert(out@ =~= header_bytes(*self));
        put_nx(&mut out, self, str_size);
        put_zeros(&mut out, MEM_POOL_SIZE);
        put_le(&mut out, start, 8);
        put_str_section(&mut out, &self.header.str_section, str_size);
        put_dict(&mut out);
        put_brti(&mut out, b, start);
        put_zeros(&mut out, 0x200);
        put_offsets(&mut out, &b.texture.mipmap_offsets);
        let table_end = start + SIZE_OF_BRTI as u64 + 0x200 + 8 * mips;
        put_zeros(&mut out, (BRTD_SECTION_START as u64 - table_end) as usize);
        put_le(&mut out, MAGIC_BRTD, 4);
        put_le(&mut out, 0, 4);
        put_le(&mut out, data_len + 0x10, 8);
        put_bytes(&mut out, b.texture.image_data.as_slice());
        put_reloc(&mut out, self, rlt);
        assert(out@ == file_bytes(*self));
        Ok(out)
    }
}

} // verus!
