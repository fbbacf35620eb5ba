//! The background renderer: the 256x256 background drawn from the tile map
//! and tile data in memory, and the scrolled window of it that is shown.
use vstd::prelude::*;
use crate::bits::lemma_byte;
use crate::cpu::MEM_SIZE;
use crate::memory::REG_LY;
use crate::step::REG_IF;

verus! {

/// Width and height of the background, in pixels.
pub const BG_SIZE: usize = 256;

/// Number of pixels of the background.
pub const BG_PIXELS: usize = 0x10000;

/// Width of the shown window, in pixels.
pub const VIEW_WIDTH: usize = 144;

/// Height of the shown window, in pixels.
pub const VIEW_HEIGHT: usize = 160;

/// Number of pixels of the shown window.
pub const VIEW_PIXELS: usize = 23040;

/// Address of the LCD control register (LCDC).
pub const REG_LCDC: usize = 0xFF40;

/// Address of the vertical scroll register (SCY).
pub const REG_SCY: usize = 0xFF42;

/// Address of the horizontal scroll register (SCX).
pub const REG_SCX: usize = 0xFF43;

/// Address of the background tile map (32x32 tile numbers).
pub const TILE_MAP: usize = 0x9800;

/// Where the tile data starts: 0x8000 when bit 4 of LCDC is set, else 0x8800.
pub open spec fn tile_data_base(lcdc: u8) -> int {
    0x8800 - 0x800 * ((lcdc / 16) % 2)
}

/// The byte of tile data that holds row `y % 8` of the tile under background
/// pixel (`x`, `y`) (the first of the row's two bytes).
pub open spec fn tile_row_byte(mem: Seq<u8>, x: int, y: int) -> u8 {
    let tile = (y / 8) * 32 + x / 8;
    let id = mem[TILE_MAP + tile];
    mem[tile_data_base(mem[REG_LCDC as int]) + id * 16 + (y % 8) * 2]
}

/// The grey level of background pixel `p` (row-major, 256 per row): black
/// when the bit for its column is set in the first byte of its tile row,
/// white otherwise.
pub open spec fn bg_shade(mem: Seq<u8>, p: int) -> u8 {
    let x = p % 256;
    let y = p / 256;
    if (tile_row_byte(mem, x, y) >> ((7 - x % 8) as u8)) & 1 == 1 {
        0
    } else {
        255
    }
}

/// The background as RGBA bytes: four per pixel, grey and opaque.
pub open spec fn background_spec(mem: Seq<u8>) -> Seq<u8> {
    Seq::new(
        4 * BG_PIXELS as nat,
        |j: int|
            if j % 4 == 3 {
                0xFFu8
            } else {
                bg_shade(mem, j / 4)
            },
    )
}

/// One pass of the loop that spreads the bits of a tile row byte apart.
pub open spec fn spread_step(b: u16, k: u16) -> u16 {
    ((b & (0xFFFFu16 << ((7 - k) as u16))) << 1u16) | (b & (0x7Fu16 >> k))
}

/// The first `n` passes of the spreading loop, starting from `x`.
pub open spec fn spread_steps(x: u16, n: nat) -> u16
    decreases n,
{
    if n == 0 {
        x
    } else {
        spread_step(spread_steps(x, (n - 1) as nat), (n - 1) as u16)
    }
}

/// What the spreading loop makes of a tile row byte: each pixel's two bits
/// are both copies of the pixel's bit in the byte.
#[verifier::rlimit(30)]
proof fn lemma_spread(x: u16, b: u16)
    requires
        x < 256,
        b < 8,
    ensures
        ({
            let s = spread_steps(x, 8);
            let t = s | (s >> 1u16);
            (t >> (14 - b * 2) as u16) & 3 == (if (x >> (7 - b) as u16) & 1 == 1 {
                3u16
            } else {
                0u16
            })
        }),
{
    reveal_with_fuel(spread_steps, 9);
    let s = spread_step(
        spread_step(
            spread_step(
                spread_step(
                    spread_step(
                        spread_step(spread_step(spread_step(x, 0), 1), 2),
                        3,
                    ),
                    4,
                ),
                5,
            ),
            6,
        ),
        7,
    );
    assert(spread_steps(x, 8) == s);
    assert(({
        let t = s | (s >> 1u16);
        (t >> (14 - b * 2) as u16) & 3 == (if (x >> (7 - b) as u16) & 1 == 1 {
            3u16
        } else {
            0u16
        })
    })) by (bit_vector)
        requires
            x < 256,
            b < 8,
            s == spread_step(
                spread_step(
                    spread_step(
                        spread_step(
                            spread_step(
                                spread_step(spread_step(spread_step(x, 0), 1), 2),
                                3,
                            ),
                            4,
                        ),
                        5,
                    ),
                    6,
                ),
                7,
            ),
    ;
}

/// Decodes the first byte of a tile row into the 16-bit row that the
/// renderer reads two bits per pixel from: each bit of the byte is spread to
/// two adjacent bits.
pub fn decode_tile_row(lo: u8) -> (r: u16)
    ensures
        r == ({
            let s = spread_steps(lo as u16, 8);
            s | (s >> 1u16)
        }),
{
    let mut bin_a: u16 = lo as u16;
    let mut bin_b: u16 = lo as u16;
    let mut bp: u16 = 0;
    while bp < 8
        invariant
            bp <= 8,
            bin_a == spread_steps(lo as u16, bp as nat),
            bin_b == bin_a,
        decreases 8 - bp,
    {
        bin_a = ((bin_a & (0xFFFFu16 << (7 - bp))) << 1u16) | (bin_a & (0x7Fu16 >> bp));
        bin_b = ((bin_b & (0xFFFFu16 << (7 - bp))) << 1u16) | (bin_b & (0x7Fu16 >> bp));
        bp = bp + 1;
    }
    bin_b = bin_b >> 1u16;
    bin_a | bin_b
}

/// The grey level of column `b` (0..7) of the tile row whose first byte is `lo`.
pub fn tile_pixel_shade(lo: u8, b: u16) -> (r: u8)
    requires
        b < 8,
    ensures
        r == (if (lo >> (7 - b) as u8) & 1 == 1 {
            0u8
        } else {
            255u8
        }),
{
    let t = decode_tile_row(lo);
    proof {
        lemma_spread(lo as u16, b);
        assert(((lo as u16) >> (7 - b) as u16) & 1 == 1 <==> (lo >> (7 - b) as u8) & 1 == 1)
            by (bit_vector)
            requires
                b < 8,
        ;
    }
    let colour_id: u16 = 3 - ((t >> (14 - b * 2)) & 3);
    (0xFFu16 * colour_id / 3) as u8
}

/// Draws the background: for each pixel, row by row, the grey level from the
/// tile map and tile data, as four RGBA bytes.
#[verifier::rlimit(30)]
pub fn render_background(mem: &Vec<u8>) -> (frame: Vec<u8>)
    requires
        mem@.len() == MEM_SIZE,
    ensures
        frame@ == background_spec(mem@),
{
    let lcdc = mem[REG_LCDC];
    proof {
        lemma_byte(lcdc);
        lemma_byte(lcdc >> 4u8);
    }
    let base: usize = if (lcdc >> 4u8) & 1 == 1 {
        0x8000
    } else {
        0x8800
    };
    assert(base == tile_data_base(mem@[REG_LCDC as int]));
    let mut frame: Vec<u8> = Vec::new();
    let mut p: usize = 0;
    while p < BG_PIXELS
        invariant
            p <= BG_PIXELS,
            mem@.len() == MEM_SIZE,
            base == tile_data_base(mem@[REG_LCDC as int]),
            frame@.len() == 4 * p,
            forall|j: int| 0 <= j < 4 * p ==> frame@[j] == background_spec(mem@)[j],
        decreases BG_PIXELS - p,
    {
        let x = p % 256;
        let y = p / 256;
        let tile = (y / 8) * 32 + x / 8;
        let id = mem[TILE_MAP + tile] as usize;
        let row = mem[base + id * 16 + (y % 8) * 2];
        assert(row == tile_row_byte(mem@, x as int, y as int));
        let s = tile_pixel_shade(row, (x % 8) as u16);
        assert(s == bg_shade(mem@, p as int));
        let ghost before = frame@;
        frame.push(s);
        frame.push(s);
        frame.push(s);
        frame.push(0xFF);
        assert forall|j: int| 0 <= j < 4 * (p + 1) implies frame@[j] == background_spec(mem@)[j] by {
            if j >= 4 * p {
                assert(j / 4 == p);
            } else {
                assert(frame@[j] == before[j]);
            }
        }
        p = p + 1;
    }
    assert(frame@ =~= background_spec(mem@));
    frame
}

/// The background pixel shown at position `i` (row-major, 144 per row) of
/// the window when the background is scrolled by (`scx`, `scy`): window
/// pixel (x, y) shows background pixel ((x + scx) mod 256, (y + scy) mod 256),
/// so the window starts at (`scx`, `scy`) and wraps around both edges.
pub open spec fn view_source(i: int, scx: u8, scy: u8) -> int {
    let vx = i % (VIEW_WIDTH as int);
    let vy = i / (VIEW_WIDTH as int);
    (vx + scx) % 256 + 256 * ((vy + scy) % 256)
}

/// The background pixel shown at position `i` of the window.
pub fn view_source_index(i: usize, scx: u8, scy: u8) -> (r: usize)
    requires
        i < VIEW_PIXELS,
    ensures
        r == view_source(i as int, scx, scy),
        r < BG_PIXELS,
{
    let vx = i % VIEW_WIDTH;
    let vy = i / VIEW_WIDTH;
    let x = (vx + scx as usize) % BG_SIZE;
    let y = (vy + scy as usize) % BG_SIZE;
    x + BG_SIZE * y
}

/// The line of the window that position `i` lies on.
pub open spec fn line_of(i: int) -> u8 {
    (i / (VIEW_WIDTH as int)) as u8
}

/// Shows the window of the background `bg` scrolled by (`scx`, `scy`): four
/// RGBA bytes for each window position, copied from the background pixel
/// that the position shows.
#[verifier::rlimit(30)]
pub fn render_view(bg: &Vec<u8>, scx: u8, scy: u8) -> (out: Vec<u8>)
    requires
        bg@.len() == 4 * BG_PIXELS,
    ensures
        out@.len() == 4 * VIEW_PIXELS,
        forall|j: int|
            0 <= j < 4 * VIEW_PIXELS ==> #[trigger] out@[j] == bg@[4 * view_source(j / 4, scx, scy)
                + j % 4],
{
    let mut out: Vec<u8> = Vec::new();
    let mut i: usize = 0;
    while i < VIEW_PIXELS
        invariant
            i <= VIEW_PIXELS,
            bg@.len() == 4 * BG_PIXELS,
            out@.len() == 4 * i,
            forall|j: int|
                0 <= j < 4 * i ==> #[trigger] out@[j] == bg@[4 * view_source(j / 4, scx, scy) + j
                    % 4],
        decreases VIEW_PIXELS - i,
    {
        let src = view_source_index(i, scx, scy);
        let ghost before = out@;
        out.push(bg[src * 4]);
        out.push(bg[src * 4 + 1]);
        out.push(bg[src * 4 + 2]);
        out.push(bg[src * 4 + 3]);
        assert forall|j: int| 0 <= j < 4 * (i + 1) implies #[trigger] out@[j] == bg@[4
            * view_source(j / 4, scx, scy) + j % 4] by {
            if j >= 4 * i {
                assert(j / 4 == i);
            } else {
                assert(out@[j] == before[j]);
            }
        }
        i = i + 1;
    }
    out
}

/// The line register's value while position `i` of the window is drawn.
pub fn line_at(i: usize) -> (r: u8)
    requires
        i < VIEW_PIXELS,
    ensures
        r == line_of(i as int),
        r < VIEW_HEIGHT,
{
    (i / VIEW_WIDTH) as u8
}

/// Sets the line register to the line of window position `i`.
pub fn set_line(mem: &mut Vec<u8>, i: usize)
    requires
        old(mem)@.len() == MEM_SIZE,
        i < VIEW_PIXELS,
    ensures
        final(mem)@ == old(mem)@.update(REG_LY as int, line_of(i as int)),
{
    mem[REG_LY] = line_at(i);
}

/// Withdraws the vertical-blank request (bit 0 of IF) while a frame is drawn.
pub fn begin_frame(mem: &mut Vec<u8>)
    requires
        old(mem)@.len() == MEM_SIZE,
    ensures
        final(mem)@ == old(mem)@.update(REG_IF as int, old(mem)@[REG_IF as int] & 0xFE),
{
    mem[REG_IF] = mem[REG_IF] & 0xFE;
}

/// Requests the vertical-blank interrupt (bit 0 of IF) once a frame is drawn.
pub fn end_frame(mem: &mut Vec<u8>)
    requires
        old(mem)@.len() == MEM_SIZE,
    ensures
        final(mem)@ == old(mem)@.update(REG_IF as int, old(mem)@[REG_IF as int] | 0x01),
{
    mem[REG_IF] = mem[REG_IF] | 0x01;
}

/// `pixels` pixels in the clear colour (dark yellow, opaque) as RGBA bytes.
pub open spec fn cleared_spec(pixels: nat) -> Seq<u8> {
    Seq::new(
        4 * pixels,
        |j: int|
            if j % 4 == 2 {
                0x00u8
            } else if j % 4 == 3 {
                0xFFu8
            } else {
                0x99u8
            },
    )
}

/// A frame of `pixels` pixels in the clear colour (dark yellow, opaque) as
/// RGBA bytes (`4 * pixels` must fit in a `usize`).
pub fn cleared_frame(pixels: usize) -> (frame: Vec<u8>)
    requires
        pixels <= usize::MAX / 4,
    ensures
        frame@ == cleared_spec(pixels as nat),
{
    let mut frame: Vec<u8> = Vec::new();
    let mut i: usize = 0;
    while i < pixels
        invariant
            i <= pixels,
            pixels <= usize::MAX / 4,
            frame@.len() == 4 * i,
            forall|j: int|
                0 <= j < 4 * i ==> #[trigger] frame@[j] == (if j % 4 == 2 {
                    0x00u8
                } else if j % 4 == 3 {
                    0xFFu8
                } else {
                    0x99u8
                }),
        decreases pixels - i,
    {
        frame.push(0x99);
        frame.push(0x99);
        frame.push(0x00);
        frame.push(0xFF);
        i = i + 1;
    }
    assert(frame@ =~= cleared_spec(pixels as nat));
    frame
}

} // verus!
