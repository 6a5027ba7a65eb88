//! The in-memory tree of a BNTX file: headers, string pool, dictionary,
//! texture record and relocation table, with the layout constants and the
//! sizes the writer lays the file out by.
use vstd::prelude::*;
use crate::format::{SurfaceFormat, TextureDimension, TextureViewDimension};

verus! {

pub const BNTX_HEADER_SIZE: usize = 0x20;
pub const NX_HEADER_SIZE: usize = 0x28;
pub const HEADER_SIZE: usize = BNTX_HEADER_SIZE + NX_HEADER_SIZE;
pub const MEM_POOL_SIZE: usize = 0x150;
pub const DATA_PTR_SIZE: usize = 8;
pub const START_OF_STR_SECTION: usize = HEADER_SIZE + MEM_POOL_SIZE + DATA_PTR_SIZE;
pub const STR_HEADER_SIZE: usize = 0x14;
pub const EMPTY_STR_SIZE: usize = 4;
pub const FILENAME_STR_OFFSET: usize = START_OF_STR_SECTION + STR_HEADER_SIZE + EMPTY_STR_SIZE;
pub const BRTD_SECTION_START: usize = 0xFF0;
pub const SIZE_OF_BRTD: usize = 0x10;
pub const SIZE_OF_BRTI: usize = 0xA0;
pub const SIZE_OF_RELOC_SECTION: usize = 0x18;
pub const SIZE_OF_RELOC_ENTRY: usize = 8;
pub const DICT_SECTION_SIZE: usize = 0x28;

/// The byte order a file declares in its header.
#[derive(Debug, Clone, Copy, PartialEq, Eq, Structural)]
pub enum ByteOrder {
    LittleEndian,
    BigEndian,
}

/// A length-prefixed string of the string pool, kept as raw bytes.
#[derive(Debug)]
pub struct BntxStr {
    pub chars: Vec<u8>,
}

/// The string pool.
#[derive(Debug)]
pub struct StrSection {
    pub block_size: u32,
    pub block_offset: u64,
    pub strings: Vec<BntxStr>,
}

/// One node of the name dictionary.
#[derive(Debug)]
pub struct DictNode {
    pub reference: i32,
    pub left_index: u16,
    pub right_index: u16,
    pub name: BntxStr,
}

/// The name dictionary: `node_count` nodes after a root node.
#[derive(Debug)]
pub struct DictSection {
    pub node_count: u32,
    pub nodes: Vec<DictNode>,
}

/// One region of the file that the relocation table covers.
#[derive(Debug, Clone, Copy)]
pub struct RelocationSection {
    pub pointer: u64,
    pub position: u32,
    pub size: u32,
    pub index: u32,
    pub count: u32,
}

/// One fix-up of the relocation table.
#[derive(Debug, Clone, Copy)]
pub struct RelocationEntry {
    pub position: u32,
    pub struct_count: u16,
    pub offset_count: u8,
    pub padding_count: u8,
}

/// The relocation table: regions, and the fix-ups of all regions in order.
#[derive(Debug)]
pub struct RelocationTable {
    pub sections: Vec<RelocationSection>,
    pub entries: Vec<RelocationEntry>,
}

/// The mip offsets and the swizzled bytes of all layers and mip levels.
#[derive(Debug)]
pub struct Texture {
    pub mipmap_offsets: Vec<u64>,
    pub image_data: Vec<u8>,
}

/// The texture record.
#[derive(Debug)]
pub struct BrtiSection {
    pub size: u32,
    pub size2: u64,
    pub flags: u8,
    pub texture_dimension: TextureDimension,
    pub tile_mode: u16,
    pub swizzle: u16,
    pub mipmap_count: u16,
    pub multi_sample_count: u32,
    pub format: SurfaceFormat,
    pub unk2: u32,
    pub width: u32,
    pub height: u32,
    pub depth: u32,
    pub layer_count: u32,
    pub block_height_log2: u32,
    pub unk4: Vec<u32>,
    pub image_size: u32,
    pub align: u32,
    pub comp_sel: u32,
    pub texture_view_dimension: TextureViewDimension,
    pub name: BntxStr,
    pub parent_addr: u64,
    pub texture: Texture,
}

/// The file header.
#[derive(Debug)]
pub struct BntxHeader {
    pub version: (u16, u16),
    pub bom: ByteOrder,
    pub revision: u16,
    pub file_name: Vec<u8>,
    pub str_section: StrSection,
    pub reloc_table: RelocationTable,
}

/// The `NX  ` header and what it points to.
#[derive(Debug)]
pub struct NxHeader {
    pub brti: BrtiSection,
    pub dict: DictSection,
    pub dict_size: u64,
}

/// A BNTX file holding one texture.
#[derive(Debug)]
pub struct BntxFile {
    pub header: BntxHeader,
    pub nx_header: NxHeader,
}

/// `x` rounded up to a multiple of `n`.
pub open spec fn align_up(x: nat, n: nat) -> nat {
    if n == 0 {
        x
    } else {
        ((x + n - 1) as nat / n) * n
    }
}

/// `x` rounded up to a multiple of `n`.
pub fn align(x: u64, n: u64) -> (r: u64)
    requires
        n > 0,
        x + n - 1 <= u64::MAX,
    ensures
        r == align_up(x as nat, n as nat),
        x <= r < x + n,
{
    let q = (x + (n - 1)) / n;
    proof {
        vstd::arithmetic::div_mod::lemma_fundamental_div_mod((x + n - 1) as int, n as int);
        vstd::arithmetic::div_mod::lemma_mod_pos_bound((x + n - 1) as int, n as int);
        assert(x <= q * n < x + n) by (nonlinear_arith)
            requires
                x + n - 1 == n * q + (x + n - 1) % (n as int),
                0 <= (x + n - 1) % (n as int) < n,
        ;
    }
    q * n
}

/// The bytes a pool string takes: a `u16` length, the characters, a
/// terminating zero, padded to a multiple of 4.
pub open spec fn str_entry_size(s: BntxStr) -> nat {
    align_up(2 + s.chars@.len() + 1, 4)
}

/// The total of `str_entry_size` over the first `n` strings.
pub open spec fn strings_size(strings: Seq<BntxStr>, n: nat) -> nat
    decreases n,
{
    if n == 0 || n > strings.len() {
        0
    } else {
        strings_size(strings, (n - 1) as nat) + str_entry_size(strings[n - 1])
    }
}

/// The size of the string pool: its header, the empty string, the strings,
/// padded to a multiple of 8.
pub open spec fn str_section_size(s: StrSection) -> nat {
    align_up(
        (STR_HEADER_SIZE + EMPTY_STR_SIZE + strings_size(s.strings@, s.strings@.len())) as nat,
        8,
    )
}

/// The size of the relocation table: magic, own position, count, padding,
/// then its regions and fix-ups.
pub open spec fn reloc_table_size(t: RelocationTable) -> nat {
    (16 + t.sections@.len() * SIZE_OF_RELOC_SECTION + t.entries@.len() * SIZE_OF_RELOC_ENTRY) as nat
}

/// The total of the fix-up counts of the first `n` regions.
pub open spec fn reloc_count_sum(sections: Seq<RelocationSection>, n: nat) -> nat
    decreases n,
{
    if n == 0 || n > sections.len() {
        0
    } else {
        reloc_count_sum(sections, (n - 1) as nat) + sections[n - 1].count as nat
    }
}

impl BntxStr {
    /// The bytes this string takes in the pool.
    pub fn get_size(&self) -> (r: u64)
        requires
            self.chars@.len() <= u32::MAX,
        ensures
            r == str_entry_size(*self),
    {
        align(2 + self.chars.len() as u64 + 1, 4)
    }
}

impl StrSection {
    /// The size of the string pool, or `None` where it exceeds `u32::MAX`.
    pub fn get_size(&self) -> (r: Option<u64>)
        ensures
            r matches Some(v) ==> v == str_section_size(*self) && v <= u32::MAX,
            r is None ==> str_section_size(*self) > u32::MAX,
    {
        let mut total: u64 = 0;
        let mut i: usize = 0;
        while i < self.strings.len()
            invariant
                i <= self.strings@.len(),
                total == strings_size(self.strings@, i as nat),
                total <= u32::MAX,
            decreases self.strings@.len() - i,
        {
            if self.strings[i].chars.len() as u64 > u32::MAX as u64 {
                proof {
                    crate::writer::lemma_strings_size_prefix(self.strings@, (i + 1) as nat, self.strings@.len());
                }
                return None;
            }
            let sz = self.strings[i].get_size();
            if total + sz > u32::MAX as u64 {
                proof {
                    crate::writer::lemma_strings_size_prefix(self.strings@, (i + 1) as nat, self.strings@.len());
                }
                return None;
            }
            total = total + sz;
            i = i + 1;
        }
        let r = align(STR_HEADER_SIZE as u64 + EMPTY_STR_SIZE as u64 + total, 8);
        if r > u32::MAX as u64 {
            return None;
        }
        Some(r)
    }
}


impl RelocationTable {
    /// The size of the relocation table.
    pub fn get_size(&self) -> (r: u64)
        requires
            self.sections@.len() <= u32::MAX,
            self.entries@.len() <= u32::MAX,
        ensures
            r == reloc_table_size(*self),
    {
        let ns = self.sections.len() as u64;
        let ne = self.entries.len() as u64;
        assert(ns * 0x18 + ne * 8 <= 0x20 * 0x1_0000_0000) by (nonlinear_arith)
            requires
                ns <= u32::MAX,
                ne <= u32::MAX,
        ;
        16 + ns * SIZE_OF_RELOC_SECTION as u64 + ne * SIZE_OF_RELOC_ENTRY as u64
    }
}

impl DictSection {
    /// The size the writer gives the dictionary: that of its fixed image.
    pub fn get_size(&self) -> (r: u64)
        ensures
            r == DICT_SECTION_SIZE,
    {
        DICT_SECTION_SIZE as u64
    }
}

impl BntxFile {
    /// The invariant of a file: six unknown words, at least one mip level and
    /// one offset per mip level, and as many relocation fix-ups as the
    /// regions count.
    pub open spec fn wf(&self) -> bool {
        &&& self.nx_header.brti.unk4@.len() == 6
        &&& self.nx_header.brti.mipmap_count >= 1
        &&& self.nx_header.brti.texture.mipmap_offsets@.len() == self.nx_header.brti.mipmap_count
        &&& reloc_count_sum(
            self.header.reloc_table.sections@,
            self.header.reloc_table.sections@.len(),
        ) == self.header.reloc_table.entries@.len()
    }

    /// Whether the invariant holds, computed.
    pub fn is_wf(&self) -> (r: bool)
        ensures
            r == self.wf(),
    {
        let b = &self.nx_header.brti;
        if b.unk4.len() != 6 || b.mipmap_count == 0 || b.texture.mipmap_offsets.len()
            != b.mipmap_count as usize {
            return false;
        }
        let t = &self.header.reloc_table;
        let mut sum: u128 = 0;
        let mut i: usize = 0;
        while i < t.sections.len()
            invariant
                i <= t.sections@.len(),
                sum == reloc_count_sum(t.sections@, i as nat),
                sum <= i * 0x1_0000_0000,
                i <= 0xFFFF_FFFF_FFFF_FFFF,
            decreases t.sections@.len() - i,
        {
            proof {
                assert(i * 0x1_0000_0000 + 0x1_0000_0000 <= 0x1_0000_0000_0000_0000_0000_0000)
                    by (nonlinear_arith)
                    requires
                        i <= 0xFFFF_FFFF_FFFF_FFFF,
                ;
            }
            sum = sum + t.sections[i].count as u128;
            i = i + 1;
        }
        sum == t.entries.len() as u128
    }

    pub fn width(&self) -> (r: u32)
        ensures
            r == self.nx_header.brti.width,
    {
        self.nx_header.brti.width
    }

    pub fn height(&self) -> (r: u32)
        ensures
            r == self.nx_header.brti.height,
    {
        self.nx_header.brti.height
    }

    pub fn depth(&self) -> (r: u32)
        ensures
            r == self.nx_header.brti.depth,
    {
        self.nx_header.brti.depth
    }

    pub fn num_array_layers(&self) -> (r: u32)
        ensures
            r == self.nx_header.brti.layer_count,
    {
        self.nx_header.brti.layer_count
    }

    pub fn num_mipmaps(&self) -> (r: u32)
        ensures
            r == self.nx_header.brti.mipmap_count,
    {
        self.nx_header.brti.mipmap_count as u32
    }

    pub fn image_format(&self) -> (r: SurfaceFormat)
        ensures
            r == self.nx_header.brti.format,
    {
        self.nx_header.brti.format
    }
}

/// The sum of region fix-up counts equals the number of fix-ups, in every
/// well-formed file.
pub proof fn lemma_relocation_counts(f: &BntxFile)
    requires
        f.wf(),
    ensures
        reloc_count_sum(f.header.reloc_table.sections@, f.header.reloc_table.sections@.len())
            == f.header.reloc_table.entries@.len(),
{
}

/// The layout constants of every file.
pub proof fn lemma_layout_constants()
    ensures
        START_OF_STR_SECTION == 0x1A0,
        FILENAME_STR_OFFSET == 0x1B8,
        BRTD_SECTION_START == 0xFF0,
        crate::swizzle::START_OF_TEXTURE_DATA == BRTD_SECTION_START + SIZE_OF_BRTD,
        crate::swizzle::START_OF_TEXTURE_DATA == 0x1000,
{
}

} // verus!
