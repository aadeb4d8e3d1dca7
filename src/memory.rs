use vstd::prelude::*;

verus! {

/// Bytes of RAM.
pub const SIZE_RAM: usize = 4096;
/// Number of general purpose registers.
pub const SIZE_REGISTERS: usize = 16;
/// Number of keys on the hexadecimal keypad.
pub const SIZE_KEYS: usize = 16;
/// Columns of the framebuffer.
pub const SIZE_DISPLAY_WIDTH: usize = 64;
/// Rows of the framebuffer.
pub const SIZE_DISPLAY_HEIGHT: usize = 32;
/// Address at which programs are loaded and execution starts.
pub const PROGRAM_START: u16 = 0x200;
/// Address of the first byte of the font.
pub const FONT_START: usize = 0x50;
/// Register that instructions overwrite with a carry, borrow or collision flag.
pub const FLAG_REGISTER: usize = 15;

/// Sprites of the hexadecimal digits, five rows each, in the order 0 to F.
pub const FONT: [u8; 80] = [
    0xF0, 0x90, 0x90, 0x90, 0xF0,  // 0
    0x20, 0x60, 0x20, 0x20, 0x70,  // 1
    0xF0, 0x10, 0xF0, 0x80, 0xF0,  // 2
    0xF0, 0x10, 0xF0, 0x10, 0xF0,  // 3
    0x90, 0x90, 0xF0, 0x10, 0x10,  // 4
    0xF0, 0x80, 0xF0, 0x10, 0xF0,  // 5
    0xF0, 0x80, 0xF0, 0x90, 0xF0,  // 6
    0xF0, 0x10, 0x20, 0x40, 0x40,  // 7
    0xF0, 0x90, 0xF0, 0x90, 0xF0,  // 8
    0xF0, 0x90, 0xF0, 0x10, 0xF0,  // 9
    0xF0, 0x90, 0xF0, 0x90, 0x90,  // A
    0xE0, 0x90, 0xE0, 0x90, 0xE0,  // B
    0xF0, 0x80, 0x80, 0x80, 0xF0,  // C
    0xE0, 0x90, 0x90, 0x90, 0xE0,  // D
    0xF0, 0x80, 0xF0, 0x80, 0xF0,  // E
    0xF0, 0x80, 0xF0, 0x80, 0x80,  // F
];

/// Machine state as mathematical values.
pub struct MemoryView {
    pub ram: Seq<u8>,
    /// Indexed `[row][column]`.
    pub vram: Seq<Seq<bool>>,
    pub stack: Seq<u16>,
    pub pc: u16,
    pub dt: u8,
    pub st: u8,
    pub i: u16,
    pub v: Seq<u8>,
    pub keys: Seq<bool>,
}

/// RAM after a reset: zero everywhere but the font.
pub open spec fn fresh_ram() -> Seq<u8> {
    Seq::new(
        SIZE_RAM as nat,
        |k: int|
            if FONT_START <= k < FONT_START + 80 {
                FONT@[k - FONT_START]
            } else {
                0u8
            },
    )
}

/// A framebuffer with every pixel unset.
pub open spec fn blank_screen() -> Seq<Seq<bool>> {
    Seq::new(
        SIZE_DISPLAY_HEIGHT as nat,
        |y: int| Seq::new(SIZE_DISPLAY_WIDTH as nat, |x: int| false),
    )
}

/// The state of a freshly reset machine.
pub open spec fn fresh_view() -> MemoryView {
    MemoryView {
        ram: fresh_ram(),
        vram: blank_screen(),
        stack: Seq::empty(),
        pc: PROGRAM_START,
        dt: 0,
        st: 0,
        i: 0,
        v: Seq::new(SIZE_REGISTERS as nat, |k: int| 0u8),
        keys: Seq::new(SIZE_KEYS as nat, |k: int| false),
    }
}

/// The state after a reset and the copy of `rom` to `PROGRAM_START`.
pub open spec fn loaded_view(rom: Seq<u8>) -> MemoryView {
    MemoryView {
        ram: Seq::new(
            SIZE_RAM as nat,
            |k: int|
                if PROGRAM_START <= k < PROGRAM_START + rom.len() {
                    rom[k - PROGRAM_START]
                } else {
                    fresh_ram()[k]
                },
        ),
        ..fresh_view()
    }
}

/// The largest ROM that fits between `PROGRAM_START` and the end of RAM.
pub open spec fn rom_fits(len: nat) -> bool {
    PROGRAM_START + len <= SIZE_RAM
}

/// One timer tick on a counter: down by one, never below zero.
pub open spec fn tick(t: u8) -> u8 {
    if t > 0 {
        (t - 1) as u8
    } else {
        0
    }
}

/// The program counter moved past one instruction, wrapping at 16 bits.
pub open spec fn next_pc(pc: u16) -> u16 {
    ((pc + 2) % 0x10000) as u16
}

/// Everything a CHIP-8 program can address: RAM, framebuffer, call stack,
/// registers, timers and keypad.
#[derive(Debug, Clone, PartialEq, Eq)]
pub struct Memory {
    /// RAM. The font lies at `FONT_START`, programs at `PROGRAM_START`.
    pub ram: [u8; SIZE_RAM],
    /// Framebuffer, indexed `[row][column]`.
    pub vram: [[bool; SIZE_DISPLAY_WIDTH]; SIZE_DISPLAY_HEIGHT],
    /// Return addresses of the subroutines being run.
    pub stack: Vec<u16>,
    /// Address of the next instruction.
    pub pc: u16,
    /// Delay timer, counting down at 60 Hz.
    pub dt: u8,
    /// Sound timer, counting down at 60 Hz.
    pub st: u8,
    /// Index register, mostly holding addresses.
    pub i: u16,
    /// General purpose registers `V0` to `VF`.
    pub v: [u8; SIZE_REGISTERS],
    /// Whether each key of the keypad is held.
    pub keys: [bool; SIZE_KEYS],
}

impl View for Memory {
    type V = MemoryView;

    open spec fn view(&self) -> MemoryView {
        MemoryView {
            ram: self.ram@,
            vram: Seq::new(SIZE_DISPLAY_HEIGHT as nat, |y: int| self.vram[y]@),
            stack: self.stack@,
            pc: self.pc,
            dt: self.dt,
            st: self.st,
            i: self.i,
            v: self.v@,
            keys: self.keys@,
        }
    }
}

impl Memory {
    /// Bytes of RAM.
    pub const SIZE_RAM: usize = SIZE_RAM;
    /// Number of general purpose registers.
    pub const SIZE_REGISTERS: usize = SIZE_REGISTERS;
    /// Number of keys on the keypad.
    pub const SIZE_KEYS: usize = SIZE_KEYS;
    /// Columns of the framebuffer.
    pub const SIZE_DISPLAY_WIDTH: usize = SIZE_DISPLAY_WIDTH;
    /// Rows of the framebuffer.
    pub const SIZE_DISPLAY_HEIGHT: usize = SIZE_DISPLAY_HEIGHT;
    /// Address at which programs are loaded and execution starts.
    pub const INDEX_PROGRAM_START: u16 = PROGRAM_START;
    /// Address of the first byte of the font.
    pub const INDEX_FONT_START: usize = FONT_START;
    /// Register used as carry, borrow and collision flag.
    pub const INDEX_FLAG_REGISTER: usize = FLAG_REGISTER;

    /// A reset machine: font in RAM, everything else zero or unset, the
    /// program counter at `PROGRAM_START`.
    pub fn new() -> (r: Memory)
        ensures
            r@ == fresh_view(),
    {
        let mut m = Memory {
            ram: [0u8; SIZE_RAM],
            vram: [[false; SIZE_DISPLAY_WIDTH]; SIZE_DISPLAY_HEIGHT],
            stack: Vec::new(),
            pc: PROGRAM_START,
            dt: 0,
            st: 0,
            i: 0,
            v: [0u8; SIZE_REGISTERS],
            keys: [false; SIZE_KEYS],
        };
        m.clear();
        m
    }

    /// Reset RAM, framebuffer, stack, registers, timers and keys, and write
    /// the font into RAM.
    pub fn clear(&mut self)
        ensures
            final(self)@ == fresh_view(),
    {
        self.ram = [0u8; SIZE_RAM];
        let mut k: usize = 0;
        while k < 80
            invariant
                0 <= k <= 80,
                forall|j: int|
                    0 <= j < SIZE_RAM ==> #[trigger] self.ram[j] == (if FONT_START <= j < FONT_START
                        + k { FONT@[j - FONT_START] } else { 0u8 }),
            decreases 80 - k,
        {
            self.ram[FONT_START + k] = FONT[k];
            k = k + 1;
        }
        self.clear_vram();
        self.stack = Vec::new();
        self.v = [0u8; SIZE_REGISTERS];
        self.pc = PROGRAM_START;
        self.dt = 0;
        self.st = 0;
        self.i = 0;
        self.keys = [false; SIZE_KEYS];
        assert(self.ram@ =~= fresh_ram());
        assert(self@.vram =~= blank_screen());
        assert(self@.v =~= fresh_view().v);
        assert(self@.keys =~= fresh_view().keys);
        assert(self@.stack =~= fresh_view().stack);
    }

    /// Unset every pixel of the framebuffer.
    pub fn clear_vram(&mut self)
        ensures
            final(self)@ == (MemoryView { vram: blank_screen(), ..old(self)@ }),
    {
        self.vram = [[false; SIZE_DISPLAY_WIDTH]; SIZE_DISPLAY_HEIGHT];
        assert forall|y: int| 0 <= y < SIZE_DISPLAY_HEIGHT implies #[trigger] self@.vram[y]
            =~= blank_screen()[y] by {}
        assert(self@.vram =~= blank_screen());
    }

    /// Reset the machine and copy `rom` into RAM at `PROGRAM_START`.
    pub fn load(&mut self, rom: &[u8])
        requires
            rom_fits(rom@.len()),
        ensures
            final(self)@ == loaded_view(rom@),
    {
        self.clear();
        let start: usize = PROGRAM_START as usize;
        let mut k: usize = 0;
        while k < rom.len()
            invariant
                0 <= k <= rom@.len(),
                rom_fits(rom@.len()),
                start == PROGRAM_START,
                self@ == (MemoryView { ram: self.ram@, ..fresh_view() }),
                forall|j: int|
                    0 <= j < SIZE_RAM ==> #[trigger] self.ram[j] == (if start <= j < start + k {
                        rom@[j - start]
                    } else {
                        fresh_ram()[j]
                    }),
            decreases rom@.len() - k,
        {
            self.ram[start + k] = rom[k];
            k = k + 1;
        }
        assert(self.ram@ =~= loaded_view(rom@).ram);
    }

    /// Move the program counter past one instruction, wrapping at 16 bits.
    pub fn increment_pc(&mut self)
        ensures
            final(self)@ == (MemoryView { pc: next_pc(old(self).pc), ..old(self)@ }),
    {
        if self.pc <= 0xFFFD {
            self.pc = self.pc + 2;
        } else {
            self.pc = self.pc - 0xFFFE;
        }
    }

    /// One 60 Hz tick: each timer above zero goes down by one.
    pub fn advance_timer(&mut self)
        ensures
            final(self)@ == (MemoryView { dt: tick(old(self).dt), st: tick(old(self).st), ..old(self)@ }),
    {
        if self.dt > 0 {
            self.dt = self.dt - 1;
        }
        if self.st > 0 {
            self.st = self.st - 1;
        }
    }
}

impl Default for Memory {
    fn default() -> (r: Memory)
        ensures
            r@ == fresh_view(),
    {
        Memory::new()
    }
}

} // verus!

verus! {

impl MemoryView {
    /// This state with register `k` set to `val`.
    pub open spec fn with_register(self, k: int, val: u8) -> MemoryView {
        MemoryView { v: self.v.update(k, val), ..self }
    }

    /// This state with the next instruction skipped when `cond` holds.
    pub open spec fn skip_if(self, cond: bool) -> MemoryView {
        if cond {
            MemoryView { pc: next_pc(self.pc), ..self }
        } else {
            self
        }
    }
}

} // verus!

verus! {

/// A timer counter after `n` ticks.
pub open spec fn ticked(t: u8, n: nat) -> u8
    decreases n,
{
    if n == 0 {
        t
    } else {
        tick(ticked(t, (n - 1) as nat))
    }
}

/// After `n` ticks a timer that held `t` holds `t - n`, and 0 once `n`
/// reaches `t`: it counts down to zero and stays there, never wrapping.
pub proof fn lemma_ticks_stop_at_zero(t: u8, n: nat)
    ensures
        ticked(t, n) == if n >= t {
            0
        } else {
            t - n
        },
    decreases n,
{
    if n > 0 {
        lemma_ticks_stop_at_zero(t, (n - 1) as nat);
    }
}

} // verus!
