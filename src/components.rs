use vstd::prelude::*;

use crate::memory::{fresh_ram, FONT, FONT_START, SIZE_RAM, SIZE_REGISTERS};

verus! {

/// Pixels of the framebuffer.
pub const SIZE_DISPLAY: usize = 2048;

/// The machine's parts in a flat layout: the framebuffer as one row-major
/// array, sixteen-bit general registers, and the program counter starting at
/// zero.
#[derive(Debug)]
pub struct Components {
    pub ram: [u8; SIZE_RAM],
    /// Row-major, 64 pixels per row.
    pub display: [bool; SIZE_DISPLAY],
    pub stack: Vec<u16>,
    pub program_couter: u16,
    pub timer_delay: u8,
    pub timer_sound: u8,
    pub regiser_index: u16,
    pub registers_general: [u16; SIZE_REGISTERS],
}

impl Components {
    /// Zeroed parts, with the font in RAM at `FONT_START`.
    pub fn new() -> (r: Components)
        ensures
            r.ram@ == fresh_ram(),
            forall|k: int| 0 <= k < SIZE_DISPLAY ==> !#[trigger] r.display[k],
            r.stack@.len() == 0,
            r.program_couter == 0,
            r.timer_delay == 0,
            r.timer_sound == 0,
            r.regiser_index == 0,
            forall|k: int| 0 <= k < SIZE_REGISTERS ==> #[trigger] r.registers_general[k] == 0,
    {
        let mut ram = [0u8; SIZE_RAM];
        let mut k: usize = 0;
        while k < 80
            invariant
                0 <= k <= 80,
                forall|j: int|
                    0 <= j < SIZE_RAM ==> #[trigger] ram[j] == (if FONT_START <= j < FONT_START + k {
                        FONT@[j - FONT_START]
                    } else {
                        0u8
                    }),
            decreases 80 - k,
        {
            ram[FONT_START + k] = FONT[k];
            k = k + 1;
        }
        assert(ram@ =~= fresh_ram());
        Components {
            ram,
            display: [false; SIZE_DISPLAY],
            stack: Vec::new(),
            program_couter: 0,
            timer_delay: 0,
            timer_sound: 0,
            regiser_index: 0,
            registers_general: [0u16; SIZE_REGISTERS],
        }
    }
}

} // verus!
