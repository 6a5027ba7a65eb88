//! Block-linear surface geometry: block heights, per-mip sizes and offsets,
//! and the calls into `tegra_swizzle` that tile and untile whole surfaces.
use vstd::prelude::*;
use tegra_swizzle::BlockHeight;

verus! {

#[verifier::external_type_specification]
pub struct ExBlockHeight(tegra_swizzle::BlockHeight);

#[verifier::external_type_specification]
pub struct ExSwizzleError(tegra_swizzle::SwizzleError);

/// The first mip level of a texture starts here; later levels follow it.
pub const START_OF_TEXTURE_DATA: usize = 0x1000;

/// The number of GOBs in a block of the given block height.
pub open spec fn block_height_value(b: BlockHeight) -> nat {
    match b {
        BlockHeight::One => 1,
        BlockHeight::Two => 2,
        BlockHeight::Four => 4,
        BlockHeight::Eight => 8,
        BlockHeight::Sixteen => 16,
        BlockHeight::ThirtyTwo => 32,
    }
}

/// The base-2 logarithm of a block height.
pub open spec fn block_height_log2_of(b: BlockHeight) -> u32 {
    match b {
        BlockHeight::One => 0,
        BlockHeight::Two => 1,
        BlockHeight::Four => 2,
        BlockHeight::Eight => 3,
        BlockHeight::Sixteen => 4,
        BlockHeight::ThirtyTwo => 5,
    }
}

/// The block height whose logarithm is `log2`, for `log2` in `0..=5`.
pub open spec fn block_height_from_log2(log2: u32) -> Option<BlockHeight> {
    if log2 == 0 {
        Some(BlockHeight::One)
    } else if log2 == 1 {
        Some(BlockHeight::Two)
    } else if log2 == 2 {
        Some(BlockHeight::Four)
    } else if log2 == 3 {
        Some(BlockHeight::Eight)
    } else if log2 == 4 {
        Some(BlockHeight::Sixteen)
    } else if log2 == 5 {
        Some(BlockHeight::ThirtyTwo)
    } else {
        None
    }
}

pub fn block_height_log2(b: BlockHeight) -> (r: u32)
    ensures
        r == block_height_log2_of(b),
        r <= 5,
        block_height_from_log2(r) == Some(b),
{
    match b {
        BlockHeight::One => 0,
        BlockHeight::Two => 1,
        BlockHeight::Four => 2,
        BlockHeight::Eight => 3,
        BlockHeight::Sixteen => 4,
        BlockHeight::ThirtyTwo => 5,
    }
}

pub fn block_height_from_log2_exec(log2: u32) -> (r: Option<BlockHeight>)
    ensures
        r == block_height_from_log2(log2),
{
    match log2 {
        0 => Some(BlockHeight::One),
        1 => Some(BlockHeight::Two),
        2 => Some(BlockHeight::Four),
        3 => Some(BlockHeight::Eight),
        4 => Some(BlockHeight::Sixteen),
        5 => Some(BlockHeight::ThirtyTwo),
        _ => None,
    }
}

/// `x / d` rounded up.
pub open spec fn div_up(x: nat, d: nat) -> nat {
    if d == 0 {
        0
    } else {
        ((x + d - 1) as nat) / d
    }
}

/// `x / d` rounded up.
pub fn div_round_up(x: u64, d: u64) -> (r: u64)
    requires
        d > 0,
        x + d - 1 <= u64::MAX,
    ensures
        r == div_up(x as nat, d as nat),
{
    (x + (d - 1)) / d
}

/// The block height chosen for the first mip level of a surface that is
/// `height` blocks high.
pub open spec fn block_height_mip0_spec(height: nat) -> BlockHeight {
    let hh = height + height / 2;
    if hh >= 128 {
        BlockHeight::Sixteen
    } else if hh >= 64 {
        BlockHeight::Eight
    } else if hh >= 32 {
        BlockHeight::Four
    } else if hh >= 16 {
        BlockHeight::Two
    } else {
        BlockHeight::One
    }
}

/// Relies on `tegra_swizzle::block_height_mip0`: the block height for mip 0
/// picked from the height in blocks by four thresholds.
#[verifier::external_body]
pub(crate) fn block_height_mip0(height: u32) -> (r: BlockHeight)
    ensures
        r == block_height_mip0_spec(height as nat),
{
    tegra_swizzle::block_height_mip0(height as usize)
}

/// The block height of a mip level `mip_height` blocks high, halved from the
/// block height of mip 0 while the level fits in half as many GOB rows.
pub open spec fn mip_block_height_spec(mip_height: nat, block_height: nat) -> nat
    decreases block_height,
{
    if block_height > 1 && mip_height <= (block_height / 2) * 8 {
        mip_block_height_spec(mip_height, block_height / 2)
    } else {
        block_height
    }
}

/// Relies on `tegra_swizzle::mip_block_height`: the halving loop above.
#[verifier::external_body]
fn mip_block_height(mip_height: u64, block_height_mip0: BlockHeight) -> (r: BlockHeight)
    ensures
        block_height_value(r) == mip_block_height_spec(
            mip_height as nat,
            block_height_value(block_height_mip0),
        ),
{
    tegra_swizzle::mip_block_height(mip_height as usize, block_height_mip0)
}

/// The depth of a block of GOBs for a surface `depth` slices deep.
pub open spec fn block_depth_spec(depth: nat) -> nat {
    let dh = depth + depth / 2;
    if dh >= 16 {
        16
    } else if dh >= 8 {
        8
    } else if dh >= 4 {
        4
    } else if dh >= 2 {
        2
    } else {
        1
    }
}

/// The size in bytes of one block-linear mip level of `width` x `height` x
/// `depth` blocks: whole GOBs of 64x8 bytes, rows padded to whole blocks of
/// `block_height` GOBs and slices padded to whole blocks in depth.
pub open spec fn swizzled_mip_size_spec(
    width: nat,
    height: nat,
    depth: nat,
    block_height: nat,
    bpp: nat,
) -> nat {
    let width_in_gobs = div_up(width * bpp, 64);
    let height_in_gobs = div_up(height, block_height * 8) * block_height;
    let depth_in_gobs = div_up(depth, block_depth_spec(depth)) * block_depth_spec(depth);
    width_in_gobs * height_in_gobs * depth_in_gobs * 512
}

/// Relies on `tegra_swizzle::swizzle::swizzled_mip_size`: the formula above.
#[verifier::external_body]
fn swizzled_mip_size(
    width: u64,
    height: u64,
    depth: u64,
    block_height: BlockHeight,
    bpp: u64,
) -> (r: u64)
    requires
        width <= 0x1_0000_0000,
        height <= 0x1_0000_0000,
        depth <= 0x1_0000_0000,
        bpp <= 16,
        swizzled_mip_size_spec(
            width as nat,
            height as nat,
            depth as nat,
            block_height_value(block_height),
            bpp as nat,
        ) <= u64::MAX,
    ensures
        r == swizzled_mip_size_spec(
            width as nat,
            height as nat,
            depth as nat,
            block_height_value(block_height),
            bpp as nat,
        ),
{
    tegra_swizzle::swizzle::swizzled_mip_size(
        width as usize,
        height as usize,
        depth as usize,
        block_height,
        bpp as usize,
    ) as u64
}

/// `x` halved `n` times, rounding down: `x >> n`.
pub open spec fn halved(x: nat, n: nat) -> nat
    decreases n,
{
    if n == 0 {
        x
    } else {
        halved(x, (n - 1) as nat) / 2
    }
}

proof fn lemma_halved_le(x: nat, n: nat)
    ensures
        halved(x, n) <= x,
    decreases n,
{
    if n > 0 {
        lemma_halved_le(x, (n - 1) as nat);
    }
}

/// A mip extent is at least one block and at most one more than the side.
proof fn lemma_mip_extent_bounds(x: nat, mip: nat, block: nat)
    requires
        block >= 1,
    ensures
        1 <= mip_extent(x, mip, block) <= x + 1,
{
    lemma_halved_le(x, mip);
    let s = halved(x, mip);
    let y: nat = if s == 0 { 1 } else { s };
    let q = (y + block - 1) as nat / block;
    vstd::arithmetic::div_mod::lemma_fundamental_div_mod((y + block - 1) as int, block as int);
    vstd::arithmetic::div_mod::lemma_mod_pos_bound((y + block - 1) as int, block as int);
    assert(1 <= q <= y) by (nonlinear_arith)
        requires
            y + block - 1 == block * q + (y + block - 1) % (block as int),
            0 <= (y + block - 1) % (block as int) < block,
            y >= 1,
            block >= 1,
    ;
}

proof fn lemma_mip_block_height_bounds(mh: nat, bh: nat)
    requires
        1 <= bh,
    ensures
        1 <= mip_block_height_spec(mh, bh) <= bh,
    decreases bh,
{
    if bh > 1 && mh <= (bh / 2) * 8 {
        lemma_mip_block_height_bounds(mh, bh / 2);
    }
}

/// `div_up(x, n) * n` exceeds `x` by less than `n`.
proof fn lemma_div_up_mul(x: nat, n: nat)
    requires
        n >= 1,
    ensures
        div_up(x, n) * n <= x + n - 1,
{
    vstd::arithmetic::div_mod::lemma_fundamental_div_mod((x + n - 1) as int, n as int);
    vstd::arithmetic::div_mod::lemma_mod_pos_bound((x + n - 1) as int, n as int);
    let q = div_up(x, n);
    assert(q * n <= x + n - 1) by (nonlinear_arith)
        requires
            x + n - 1 == n * q + (x + n - 1) % (n as int),
            (x + n - 1) % (n as int) >= 0,
    ;
}

/// The size of a mip level is bounded by its padded extents.
proof fn lemma_mip_size_bound(w: nat, h: nat, d: nat, bh: nat, bpp: nat)
    requires
        1 <= bh <= 32,
    ensures
        swizzled_mip_size_spec(w, h, d, bh, bpp) <= 8 * ((w * bpp + 64) * (h + 256) * (d + 16)),
{
    let wg = div_up(w * bpp, 64);
    let hb = div_up(h, bh * 8);
    let bd = block_depth_spec(d);
    let dg = div_up(d, bd) * bd;
    lemma_div_up_mul(w * bpp, 64);
    lemma_div_up_mul(h, bh * 8);
    lemma_div_up_mul(d, bd);
    let hg = hb * bh;
    assert(hg <= h + 256) by (nonlinear_arith)
        requires
            hb * (bh * 8) <= h + bh * 8 - 1,
            hg == hb * bh,
            bh <= 32,
    ;
    let x = wg * 64;
    assert(wg * hg * dg * 512 == 8 * (x * hg * dg)) by (nonlinear_arith)
        requires
            x == wg * 64,
    ;
    assert(x * hg * dg <= (w * bpp + 64) * (h + 256) * (d + 16)) by (nonlinear_arith)
        requires
            x <= w * bpp + 63,
            hg <= h + 256,
            dg <= d + 15,
    ;
}

proof fn lemma_mip_bound_monotone(mw: nat, mh: nat, md: nat, w: nat, h: nat, d: nat, bpp: nat)
    requires
        mw <= w + 1,
        mh <= h + 1,
        md <= d + 1,
    ensures
        (mw * bpp + 64) * (mh + 256) * (md + 16) <= mip_bound(w, h, d, bpp),
{
    assert((mw * bpp + 64) * (mh + 256) * (md + 16) <= ((w + 1) * bpp + 64) * (h + 257) * (d + 17))
        by (nonlinear_arith)
        requires
            mw <= w + 1,
            mh <= h + 1,
            md <= d + 1,
    ;
}

/// Each mip level of a surface that fits is within the per-level bound.
pub proof fn lemma_mip_level_size_bound(
    w: nat,
    h: nat,
    d: nat,
    block_dim: (u64, u64, u64),
    block_height: BlockHeight,
    bpp: nat,
    mip: nat,
)
    requires
        valid_block_dim(block_dim),
    ensures
        mip_level_size(w, h, d, block_dim, block_height, bpp, mip) <= 8 * mip_bound(w, h, d, bpp),
{
    let mw = mip_extent(w, mip, block_dim.0 as nat);
    let mh = mip_extent(h, mip, block_dim.1 as nat);
    let md = mip_extent(d, mip, block_dim.2 as nat);
    lemma_mip_extent_bounds(w, mip, block_dim.0 as nat);
    lemma_mip_extent_bounds(h, mip, block_dim.1 as nat);
    lemma_mip_extent_bounds(d, mip, block_dim.2 as nat);
    let bhv = block_height_value(block_height);
    lemma_mip_block_height_bounds(mh, bhv);
    lemma_mip_size_bound(mw, mh, md, mip_block_height_spec(mh, bhv), bpp);
    lemma_mip_bound_monotone(mw, mh, md, w, h, d, bpp);
}

/// The extent in blocks of mip level `mip` of a side `x` pixels long: the side
/// halved `mip` times, at least one pixel, divided into blocks of `block`.
pub open spec fn mip_extent(x: nat, mip: nat, block: nat) -> nat {
    let s = halved(x, mip);
    div_up(if s == 0 { 1 } else { s }, block)
}

/// The block-linear size in bytes of mip level `mip` of one layer.
pub open spec fn mip_level_size(
    w: nat,
    h: nat,
    d: nat,
    block_dim: (u64, u64, u64),
    block_height: BlockHeight,
    bpp: nat,
    mip: nat,
) -> nat {
    let mh = mip_extent(h, mip, block_dim.1 as nat);
    swizzled_mip_size_spec(
        mip_extent(w, mip, block_dim.0 as nat),
        mh,
        mip_extent(d, mip, block_dim.2 as nat),
        mip_block_height_spec(mh, block_height_value(block_height)),
        bpp,
    )
}

/// The absolute file offset of mip level `i`: the first level at
/// `START_OF_TEXTURE_DATA`, each next one after the block-linear size of the
/// one before.
pub open spec fn mip_offset(
    w: nat,
    h: nat,
    d: nat,
    block_dim: (u64, u64, u64),
    block_height: BlockHeight,
    bpp: nat,
    i: nat,
) -> nat
    decreases i,
{
    if i == 0 {
        START_OF_TEXTURE_DATA as nat
    } else {
        mip_offset(w, h, d, block_dim, block_height, bpp, (i - 1) as nat) + mip_level_size(
            w,
            h,
            d,
            block_dim,
            block_height,
            bpp,
            (i - 1) as nat,
        )
    }
}

/// Mip offsets grow by the block-linear size of each level: the first level
/// starts at `START_OF_TEXTURE_DATA`, and level `i + 1` starts exactly the
/// swizzled size of level `i` after level `i`, for every surface.
pub proof fn lemma_mip_offsets_step(
    w: nat,
    h: nat,
    d: nat,
    block_dim: (u64, u64, u64),
    block_height: BlockHeight,
    bpp: nat,
    i: nat,
)
    ensures
        mip_offset(w, h, d, block_dim, block_height, bpp, 0) == START_OF_TEXTURE_DATA,
        mip_offset(w, h, d, block_dim, block_height, bpp, i + 1) - mip_offset(
            w,
            h,
            d,
            block_dim,
            block_height,
            bpp,
            i,
        ) == mip_level_size(w, h, d, block_dim, block_height, bpp, i),
{
}

/// A block dimension of a surface format: 1x1x1 or 4x4x1.
pub open spec fn valid_block_dim(block_dim: (u64, u64, u64)) -> bool {
    (block_dim == (1u64, 1u64, 1u64) || block_dim == (4u64, 4u64, 1u64))
}

/// A bound on the bytes of one mip level of a `w` x `h` x `d` surface.
pub open spec fn mip_bound(w: nat, h: nat, d: nat, bpp: nat) -> nat {
    ((w + 1) * bpp + 64) * (h + 257) * (d + 17)
}

/// The surface is small enough that none of the size arithmetic of tiling,
/// untiling or mip offsets overflows 64 bits: at most 64 mip levels, and
/// at least one layer, and every layer and level within a bound well below
/// `2^63` bytes.
pub open spec fn surface_fits(w: nat, h: nat, d: nat, bpp: nat, mips: nat, layers: nat) -> bool {
    &&& 1 <= mips <= 64
    &&& 1 <= bpp <= 16
    &&& w <= u32::MAX
    &&& h <= u32::MAX
    &&& d <= u32::MAX
    &&& 1 <= layers <= u32::MAX
    &&& layers * mips * (8 * mip_bound(w, h, d, bpp) + 0x10000) <= 0x7fff_ffff_ffff_ffff
}

/// Whether `surface_fits` holds, computed.
pub fn check_surface_fits(w: u32, h: u32, d: u32, bpp: u64, mips: u32, layers: u32) -> (r: bool)
    ensures
        r == surface_fits(w as nat, h as nat, d as nat, bpp as nat, mips as nat, layers as nat),
{
    if mips < 1 || mips > 64 || bpp < 1 || bpp > 16 || layers < 1 {
        return false;
    }
    let w1: u128 = w as u128 + 1;
    assert(w1 * (bpp as u128) <= 0x1_0000_0000 * 16) by (nonlinear_arith)
        requires
            w1 <= 0x1_0000_0000,
            bpp <= 16,
    ;
    let a: u128 = w1 * bpp as u128 + 64;
    let h1: u128 = h as u128 + 257;
    let d1: u128 = d as u128 + 17;
    assert(a * h1 <= 0x20_0000_0000 * 0x2_0000_0000) by (nonlinear_arith)
        requires
            a <= 0x20_0000_0000,
            h1 <= 0x2_0000_0000,
    ;
    let ah: u128 = a * h1;
    assert(ah * d1 <= 0x40_0000_0000_0000_0000 * 0x2_0000_0000) by (nonlinear_arith)
        requires
            ah <= 0x40_0000_0000_0000_0000,
            d1 <= 0x2_0000_0000,
    ;
    let m: u128 = ah * d1;
    assert(m == mip_bound(w as nat, h as nat, d as nat, bpp as nat));
    let inner: u128 = 8 * m + 0x10000;
    if inner > 0x7fff_ffff_ffff_ffff {
        proof {
            assert(layers as nat * mips as nat * inner >= inner) by (nonlinear_arith)
                requires
                    layers >= 1,
                    mips >= 1,
            ;
        }
        return false;
    }
    assert(layers as u128 * mips as u128 <= 0x1_0000_0000 * 64) by (nonlinear_arith)
        requires
            layers <= u32::MAX,
            mips <= 64,
    ;
    let lm: u128 = layers as u128 * mips as u128;
    assert(lm * inner <= 0x40_0000_0000 * 0x8000_0000_0000_0000) by (nonlinear_arith)
        requires
            lm <= 0x40_0000_0000,
            inner <= 0x8000_0000_0000_0000,
    ;
    let total: u128 = lm * inner;
    total <= 0x7fff_ffff_ffff_ffff
}

/// The absolute offsets of the mip levels of one layer: the first at
/// `START_OF_TEXTURE_DATA`, each next one after the block-linear size of the
/// one before.
pub fn calculate_mipmap_offsets(
    mipmap_count: u32,
    width: u32,
    block_dim: (u64, u64, u64),
    height: u32,
    depth: u32,
    block_height: BlockHeight,
    bytes_per_pixel: u64,
) -> (r: Vec<u64>)
    requires
        valid_block_dim(block_dim),
        surface_fits(
            width as nat,
            height as nat,
            depth as nat,
            bytes_per_pixel as nat,
            mipmap_count as nat,
            1,
        ),
    ensures
        r@.len() == mipmap_count,
        forall|i: int|
            0 <= i < r@.len() ==> r@[i] as nat == mip_offset(
                width as nat,
                height as nat,
                depth as nat,
                block_dim,
                block_height,
                bytes_per_pixel as nat,
                i as nat,
            ),
        r@[0] == START_OF_TEXTURE_DATA,
        forall|i: int|
            0 <= i < r@.len() - 1 ==> #[trigger] r@[i + 1] - r@[i] == mip_level_size(
                width as nat,
                height as nat,
                depth as nat,
                block_dim,
                block_height,
                bytes_per_pixel as nat,
                i as nat,
            ),
{
    let ghost (w, h, d, bpp) = (width as nat, height as nat, depth as nat, bytes_per_pixel as nat);
    let ghost bound = 8 * mip_bound(w, h, d, bpp);
    let mut offsets: Vec<u64> = Vec::new();
    let mut offset: u64 = START_OF_TEXTURE_DATA as u64;
    let mut cur_w: u64 = width as u64;
    let mut cur_h: u64 = height as u64;
    let mut cur_d: u64 = depth as u64;
    let mut mip: u32 = 0;
    proof {
        assert(mipmap_count * (bound + 0x10000) <= 0x7fff_ffff_ffff_ffff);
    }
    while mip < mipmap_count
        invariant
            mip <= mipmap_count <= 64,
            valid_block_dim(block_dim),
            1 <= bytes_per_pixel <= 16,
            bound == 8 * mip_bound(w, h, d, bpp),
            mipmap_count * (bound + 0x10000) <= 0x7fff_ffff_ffff_ffff,
            cur_w as nat == halved(w, mip as nat),
            cur_h as nat == halved(h, mip as nat),
            cur_d as nat == halved(d, mip as nat),
            w == width,
            h == height,
            d == depth,
            bpp == bytes_per_pixel,
            offset as nat == mip_offset(w, h, d, block_dim, block_height, bpp, mip as nat),
            offset <= START_OF_TEXTURE_DATA + mip * bound,
            offsets@.len() == mip,
            forall|i: int|
                0 <= i < mip ==> offsets@[i] as nat == mip_offset(
                    w,
                    h,
                    d,
                    block_dim,
                    block_height,
                    bpp,
                    i as nat,
                ),
        decreases mipmap_count - mip,
    {
        offsets.push(offset);
        proof {
            lemma_halved_le(w, mip as nat);
            lemma_halved_le(h, mip as nat);
            lemma_halved_le(d, mip as nat);
        }
        let sw: u64 = if cur_w == 0 { 1 } else { cur_w };
        let sh: u64 = if cur_h == 0 { 1 } else { cur_h };
        let sd: u64 = if cur_d == 0 { 1 } else { cur_d };
        let mip_width = div_round_up(sw, block_dim.0);
        let mip_height = div_round_up(sh, block_dim.1);
        let mip_depth = div_round_up(sd, block_dim.2);
        let mip_bh = mip_block_height(mip_height, block_height);
        proof {
            lemma_mip_extent_bounds(w, mip as nat, block_dim.0 as nat);
            lemma_mip_extent_bounds(h, mip as nat, block_dim.1 as nat);
            lemma_mip_extent_bounds(d, mip as nat, block_dim.2 as nat);
            lemma_mip_level_size_bound(w, h, d, block_dim, block_height, bpp, mip as nat);
            assert(mip * bound + bound <= mipmap_count * bound) by (nonlinear_arith)
                requires
                    mip < mipmap_count,
            ;
            assert(mipmap_count * bound <= 0x7fff_ffff_ffff_ffff) by (nonlinear_arith)
                requires
                    mipmap_count * (bound + 0x10000) <= 0x7fff_ffff_ffff_ffff,
            ;
            assert(mip_width as nat == mip_extent(w, mip as nat, block_dim.0 as nat));
            assert(mip_height as nat == mip_extent(h, mip as nat, block_dim.1 as nat));
            assert(mip_depth as nat == mip_extent(d, mip as nat, block_dim.2 as nat));
            assert(swizzled_mip_size_spec(
                mip_width as nat,
                mip_height as nat,
                mip_depth as nat,
                block_height_value(mip_bh),
                bpp,
            ) == mip_level_size(w, h, d, block_dim, block_height, bpp, mip as nat));
        }
        let mip_size = swizzled_mip_size(mip_width, mip_height, mip_depth, mip_bh, bytes_per_pixel);
        offset = offset + mip_size;
        cur_w = cur_w / 2;
        cur_h = cur_h / 2;
        cur_d = cur_d / 2;
        mip = mip + 1;
        proof {
            assert(offset <= START_OF_TEXTURE_DATA + mip * bound) by (nonlinear_arith)
                requires
                    offset <= START_OF_TEXTURE_DATA + (mip - 1) * bound + bound,
            ;
        }
    }
    offsets
}

/// The size in bytes of mip level `mip` of one layer in linear layout.
pub open spec fn linear_mip_size(
    w: nat,
    h: nat,
    d: nat,
    block_dim: (u64, u64, u64),
    bpp: nat,
    mip: nat,
) -> nat {
    mip_extent(w, mip, block_dim.0 as nat) * mip_extent(h, mip, block_dim.1 as nat) * mip_extent(
        d,
        mip,
        block_dim.2 as nat,
    ) * bpp
}

/// The size in bytes of the first `mips` levels of one layer in linear layout.
pub open spec fn linear_layer_size(
    w: nat,
    h: nat,
    d: nat,
    block_dim: (u64, u64, u64),
    bpp: nat,
    mips: nat,
) -> nat
    decreases mips,
{
    if mips == 0 {
        0
    } else {
        linear_layer_size(w, h, d, block_dim, bpp, (mips - 1) as nat) + linear_mip_size(
            w,
            h,
            d,
            block_dim,
            bpp,
            (mips - 1) as nat,
        )
    }
}

/// The size in bytes of a whole surface in linear layout: layers one after
/// the other, each its mip levels one after the other, without padding.
pub open spec fn linear_surface_size(
    w: nat,
    h: nat,
    d: nat,
    block_dim: (u64, u64, u64),
    bpp: nat,
    mips: nat,
    layers: nat,
) -> nat {
    linear_layer_size(w, h, d, block_dim, bpp, mips) * layers
}

/// The block-linear size of the first `mips` levels of one layer, with
/// `block_height` GOBs per block for the first level.
pub open spec fn tiled_layer_size(
    w: nat,
    h: nat,
    d: nat,
    block_dim: (u64, u64, u64),
    block_height: nat,
    bpp: nat,
    mips: nat,
) -> nat
    decreases mips,
{
    if mips == 0 {
        0
    } else {
        let m = (mips - 1) as nat;
        let mh = mip_extent(h, m, block_dim.1 as nat);
        tiled_layer_size(w, h, d, block_dim, block_height, bpp, m) + swizzled_mip_size_spec(
            mip_extent(w, m, block_dim.0 as nat),
            mh,
            mip_extent(d, m, block_dim.2 as nat),
            mip_block_height_spec(mh, block_height),
            bpp,
        )
    }
}

/// The size of a whole tiled surface: a 3D surface uses blocks one GOB
/// high; layers after the first start at a multiple of a block of GOBs.
pub open spec fn tiled_surface_size(
    w: nat,
    h: nat,
    d: nat,
    block_dim: (u64, u64, u64),
    block_height: BlockHeight,
    bpp: nat,
    mips: nat,
    layers: nat,
) -> nat {
    let bh = if d == 1 {
        block_height_value(block_height)
    } else {
        1
    };
    let layer = tiled_layer_size(w, h, d, block_dim, bh, bpp, mips);
    if layers > 1 {
        let gobs = mip_block_height_spec(h, bh) * 512;
        (((layer + gobs - 1) as nat / gobs) * gobs) * layers
    } else {
        layer
    }
}

/// The tiled surface that `tegra_swizzle` makes of a linear one.
pub uninterp spec fn swizzled_surface(
    width: u32,
    height: u32,
    depth: u32,
    source: Seq<u8>,
    block_width: u64,
    block_height: u64,
    block_depth: u64,
    gob_block_height: BlockHeight,
    bpp: u64,
    mips: u32,
    layers: u32,
) -> Seq<u8>;

/// The linear surface that `tegra_swizzle` makes of a tiled one.
pub uninterp spec fn deswizzled_surface(
    width: u32,
    height: u32,
    depth: u32,
    source: Seq<u8>,
    block_width: u64,
    block_height: u64,
    block_depth: u64,
    gob_block_height: BlockHeight,
    bpp: u64,
    mips: u32,
    layers: u32,
) -> Seq<u8>;

/// Relies on `tegra_swizzle::surface::swizzle_surface`: it tiles every layer
/// and mip level into a buffer of the tiled size of the surface, and fails
/// with `NotEnoughData` exactly when the source is shorter than the linear
/// size of the surface.
#[verifier::external_body]
fn swizzle_surface(
    width: u32,
    height: u32,
    depth: u32,
    source: &[u8],
    block_dim: (u64, u64, u64),
    block_height: BlockHeight,
    bpp: u64,
    mips: u32,
    layers: u32,
) -> (r: Result<Vec<u8>, tegra_swizzle::SwizzleError>)
    requires
        valid_block_dim(block_dim),
        surface_fits(width as nat, height as nat, depth as nat, bpp as nat, mips as nat, layers as nat),
    ensures
        r is Ok <==> source@.len() >= linear_surface_size(
            width as nat,
            height as nat,
            depth as nat,
            block_dim,
            bpp as nat,
            mips as nat,
            layers as nat,
        ),
        r matches Ok(v) ==> v@ == swizzled_surface(
            width,
            height,
            depth,
            source@,
            block_dim.0,
            block_dim.1,
            block_dim.2,
            block_height,
            bpp,
            mips,
            layers,
        ) && v@.len() == tiled_surface_size(
            width as nat,
            height as nat,
            depth as nat,
            block_dim,
            block_height,
            bpp as nat,
            mips as nat,
            layers as nat,
        ),
        r matches Err(tegra_swizzle::SwizzleError::NotEnoughData { expected_size, actual_size })
            ==> actual_size == source@.len() && expected_size == linear_surface_size(
            width as nat,
            height as nat,
            depth as nat,
            block_dim,
            bpp as nat,
            mips as nat,
            layers as nat,
        ),
{
    let dim = |x: u64| std::num::NonZeroUsize::new(x as usize).unwrap();
    let (bw, bh, bd) = (dim(block_dim.0), dim(block_dim.1), dim(block_dim.2));
    let block_dim = tegra_swizzle::surface::BlockDim { width: bw, height: bh, depth: bd };
    let (w, h, d) = (width as usize, height as usize, depth as usize);
    let (bpp, mips, layers) = (bpp as usize, mips as usize, layers as usize);
    tegra_swizzle::surface::swizzle_surface(w, h, d, source, block_dim, Some(block_height), bpp, mips, layers)
}

/// Relies on `tegra_swizzle::surface::deswizzle_surface`: it untiles every
/// layer and mip level into a buffer of the linear size of the surface, and
/// fails with `NotEnoughData` exactly when the source is shorter than the
/// tiled size of the surface.
#[verifier::external_body]
fn deswizzle_surface(
    width: u32,
    height: u32,
    depth: u32,
    source: &[u8],
    block_dim: (u64, u64, u64),
    block_height: BlockHeight,
    bpp: u64,
    mips: u32,
    layers: u32,
) -> (r: Result<Vec<u8>, tegra_swizzle::SwizzleError>)
    requires
        valid_block_dim(block_dim),
        surface_fits(width as nat, height as nat, depth as nat, bpp as nat, mips as nat, layers as nat),
    ensures
        r matches Ok(v) ==> v@ == deswizzled_surface(
            width,
            height,
            depth,
            source@,
            block_dim.0,
            block_dim.1,
            block_dim.2,
            block_height,
            bpp,
            mips,
            layers,
        ) && v@.len() == linear_surface_size(
            width as nat,
            height as nat,
            depth as nat,
            block_dim,
            bpp as nat,
            mips as nat,
            layers as nat,
        ),
        r is Ok <==> source@.len() >= tiled_surface_size(
            width as nat,
            height as nat,
            depth as nat,
            block_dim,
            block_height,
            bpp as nat,
            mips as nat,
            layers as nat,
        ),
        r matches Err(tegra_swizzle::SwizzleError::NotEnoughData { expected_size, actual_size })
            ==> actual_size == source@.len() && expected_size == tiled_surface_size(
            width as nat,
            height as nat,
            depth as nat,
            block_dim,
            block_height,
            bpp as nat,
            mips as nat,
            layers as nat,
        ),
{
    let dim = |x: u64| std::num::NonZeroUsize::new(x as usize).unwrap();
    let (bw, bh, bd) = (dim(block_dim.0), dim(block_dim.1), dim(block_dim.2));
    let block_dim = tegra_swizzle::surface::BlockDim { width: bw, height: bh, depth: bd };
    let (w, h, d) = (width as usize, height as usize, depth as usize);
    let (bpp, mips, layers) = (bpp as usize, mips as usize, layers as usize);
    tegra_swizzle::surface::deswizzle_surface(w, h, d, source, block_dim, Some(block_height), bpp, mips, layers)
}

/// Converts an error of `tegra_swizzle` to the library's own.
pub fn surface_error_from(e: tegra_swizzle::SwizzleError) -> (r: crate::error::SurfaceError)
    ensures
        e matches tegra_swizzle::SwizzleError::NotEnoughData { expected_size, actual_size } ==>
            r == (crate::error::SurfaceError::NotEnoughData { expected_size, actual_size }),
{
    match e {
        tegra_swizzle::SwizzleError::NotEnoughData { expected_size, actual_size } => {
            crate::error::SurfaceError::NotEnoughData { expected_size, actual_size }
        },
    }
}

/// Tiles a linear surface of the given geometry, after checking that the
/// geometry is non-empty and within the size arithmetic.
pub fn swizzle(
    width: u32,
    height: u32,
    depth: u32,
    source: &[u8],
    block_dim: (u64, u64, u64),
    block_height: BlockHeight,
    bpp: u64,
    mips: u32,
    layers: u32,
) -> (r: Result<Vec<u8>, crate::error::SurfaceError>)
    requires
        valid_block_dim(block_dim),
    ensures
        (width == 0 || height == 0 || depth == 0 || mips == 0 || layers == 0) ==> r == Err::<
            Vec<u8>,
            crate::error::SurfaceError,
        >(crate::error::SurfaceError::ZeroDimension),
        !(width == 0 || height == 0 || depth == 0 || mips == 0 || layers == 0) ==> {
            let size = linear_surface_size(
                width as nat,
                height as nat,
                depth as nat,
                block_dim,
                bpp as nat,
                mips as nat,
                layers as nat,
            );
            &&& !surface_fits(width as nat, height as nat, depth as nat, bpp as nat, mips as nat, layers as nat)
                ==> r == Err::<Vec<u8>, crate::error::SurfaceError>(crate::error::SurfaceError::TooLarge)
            &&& surface_fits(width as nat, height as nat, depth as nat, bpp as nat, mips as nat, layers as nat)
                ==> {
                &&& r is Ok <==> source@.len() >= size
                &&& r matches Ok(v) ==> v@ == swizzled_surface(
                    width,
                    height,
                    depth,
                    source@,
                    block_dim.0,
                    block_dim.1,
                    block_dim.2,
                    block_height,
                    bpp,
                    mips,
                    layers,
                ) && v@.len() == tiled_surface_size(
                    width as nat,
                    height as nat,
                    depth as nat,
                    block_dim,
                    block_height,
                    bpp as nat,
                    mips as nat,
                    layers as nat,
                )
                &&& r matches Err(e) ==> e matches crate::error::SurfaceError::NotEnoughData {
                    expected_size,
                    actual_size,
                } && expected_size == size && actual_size == source@.len()
            }
        },
{
    if width == 0 || height == 0 || depth == 0 || mips == 0 || layers == 0 {
        return Err(crate::error::SurfaceError::ZeroDimension);
    }
    if !check_surface_fits(width, height, depth, bpp, mips, layers) {
        return Err(crate::error::SurfaceError::TooLarge);
    }
    match swizzle_surface(width, height, depth, source, block_dim, block_height, bpp, mips, layers) {
        Ok(v) => Ok(v),
        Err(e) => Err(surface_error_from(e)),
    }
}

/// Untiles a tiled surface of the given geometry, after checking that the
/// geometry is non-empty and within the size arithmetic.
pub fn deswizzle(
    width: u32,
    height: u32,
    depth: u32,
    source: &[u8],
    block_dim: (u64, u64, u64),
    block_height: BlockHeight,
    bpp: u64,
    mips: u32,
    layers: u32,
) -> (r: Result<Vec<u8>, crate::error::SurfaceError>)
    requires
        valid_block_dim(block_dim),
    ensures
        (width == 0 || height == 0 || depth == 0 || mips == 0 || layers == 0) ==> r == Err::<
            Vec<u8>,
            crate::error::SurfaceError,
        >(crate::error::SurfaceError::ZeroDimension),
        !(width == 0 || height == 0 || depth == 0 || mips == 0 || layers == 0) ==> {
            &&& !surface_fits(width as nat, height as nat, depth as nat, bpp as nat, mips as nat, layers as nat)
                ==> r == Err::<Vec<u8>, crate::error::SurfaceError>(crate::error::SurfaceError::TooLarge)
            &&& surface_fits(width as nat, height as nat, depth as nat, bpp as nat, mips as nat, layers as nat)
                ==> {
                &&& r matches Ok(v) ==> v@ == deswizzled_surface(
                    width,
                    height,
                    depth,
                    source@,
                    block_dim.0,
                    block_dim.1,
                    block_dim.2,
                    block_height,
                    bpp,
                    mips,
                    layers,
                ) && v@.len() == linear_surface_size(
                    width as nat,
                    height as nat,
                    depth as nat,
                    block_dim,
                    bpp as nat,
                    mips as nat,
                    layers as nat,
                )
                &&& r is Ok <==> source@.len() >= tiled_surface_size(
                    width as nat,
                    height as nat,
                    depth as nat,
                    block_dim,
                    block_height,
                    bpp as nat,
                    mips as nat,
                    layers as nat,
                )
                &&& r matches Err(e) ==> e matches crate::error::SurfaceError::NotEnoughData {
                    expected_size,
                    actual_size,
                } && actual_size == source@.len() && expected_size == tiled_surface_size(
                    width as nat,
                    height as nat,
                    depth as nat,
                    block_dim,
                    block_height,
                    bpp as nat,
                    mips as nat,
                    layers as nat,
                )
            }
        },
{
    if width == 0 || height == 0 || depth == 0 || mips == 0 || layers == 0 {
        return Err(crate::error::SurfaceError::ZeroDimension);
    }
    if !check_surface_fits(width, height, depth, bpp, mips, layers) {
        return Err(crate::error::SurfaceError::TooLarge);
    }
    match deswizzle_surface(width, height, depth, source, block_dim, block_height, bpp, mips, layers) {
        Ok(v) => Ok(v),
        Err(e) => Err(surface_error_from(e)),
    }
}

} // verus!
