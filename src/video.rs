use vstd::prelude::*;
use crate::state::State;

verus! {

/// Width of the upright display, in pixels.
pub const DISPLAY_WIDTH: usize = 224;

/// Height of the upright display, in pixels.
pub const DISPLAY_HEIGHT: usize = 256;

/// First address of video RAM.
pub const VRAM_START: u16 = 0x2400;

/// Colour of a lit pixel.
pub const PIXEL_ON: u32 = 0xFFFFFF;

/// Colour of a dark pixel.
pub const PIXEL_OFF: u32 = 0x000000;

/// The VRAM byte offset that holds display pixel (`x`, `y`): the picture is
/// stored rotated, one column of 256 pixels per 32 bytes, bottom first.
pub open spec fn vram_offset(x: int, y: int) -> int {
    x * 32 + (255 - y) / 8
}

/// The bit of that byte that holds pixel (`x`, `y`).
pub open spec fn vram_bit(y: int) -> u8 {
    ((255 - y) % 8) as u8
}

/// The colour of pixel `i` of the row-major display buffer, from memory `mem`.
pub open spec fn pixel(mem: Seq<u8>, i: int) -> u32 {
    let x = i % DISPLAY_WIDTH as int;
    let y = i / DISPLAY_WIDTH as int;
    let byte = mem[VRAM_START + vram_offset(x, y)];
    if (byte >> vram_bit(y)) & 1 != 0 {
        PIXEL_ON
    } else {
        PIXEL_OFF
    }
}

/// Draws video RAM into `buffer`, rotated 90 degrees counter-clockwise as in
/// the cabinet: one `u32` colour per pixel, row by row.
pub fn render_invaders(state: &State, buffer: &mut Vec<u32>)
    requires
        state.mmu.wf(),
        old(buffer)@.len() == DISPLAY_WIDTH * DISPLAY_HEIGHT,
    ensures
        final(buffer)@.len() == DISPLAY_WIDTH * DISPLAY_HEIGHT,
        forall|i: int|
            0 <= i < DISPLAY_WIDTH * DISPLAY_HEIGHT ==> #[trigger] final(buffer)@[i] == pixel(
                state.mmu@,
                i,
            ),
{
    let mut i: usize = 0;
    while i < DISPLAY_WIDTH * DISPLAY_HEIGHT
        invariant
            state.mmu.wf(),
            i <= DISPLAY_WIDTH * DISPLAY_HEIGHT,
            buffer@.len() == DISPLAY_WIDTH * DISPLAY_HEIGHT,
            forall|j: int| 0 <= j < i ==> #[trigger] buffer@[j] == pixel(state.mmu@, j),
        decreases DISPLAY_WIDTH * DISPLAY_HEIGHT - i,
    {
        let x = i % DISPLAY_WIDTH;
        let y = i / DISPLAY_WIDTH;
        assert(x < 224 && y < 256) by (nonlinear_arith)
            requires
                x == i % 224,
                y == i / 224,
                i < 224 * 256,
        ;
        let offset = (x * 32 + (255 - y) / 8) as u16;
        let bit = ((255 - y) % 8) as u8;
        let byte = state.mmu.read_byte(VRAM_START + offset);
        let colour = if (byte >> bit) & 1 != 0 {
            PIXEL_ON
        } else {
            PIXEL_OFF
        };
        buffer.set(i, colour);
        i = i + 1;
    }
}

} // verus!
