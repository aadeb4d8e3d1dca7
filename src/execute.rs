use vstd::prelude::*;

use crate::config::Config;
use crate::draw::draw_spec;
use crate::instruction::Instruction;
use crate::memory::{blank_screen, next_pc, Memory, MemoryView, FLAG_REGISTER, FONT_START, SIZE_KEYS};

verus! {

/// Why an instruction could not be executed. The machine is left unchanged.
#[derive(Debug, Clone, Copy, PartialEq, Eq)]
pub enum ExecuteError {
    /// The instruction is decoded but not carried out (`SYS`).
    UnsupportedInstruction(Instruction),
    /// A key index outside `0x0..=0xF`.
    InvalidKey(u8),
    /// A return with no subroutine to return from.
    EmptyStack,
    /// An access to RAM past its end, starting at this address.
    InvalidAddress(u16),
}

/// The register that shift instructions read: `Vx` itself, or `Vy` when the
/// configuration asks for the behaviour of the first interpreters.
pub open spec fn shift_source(m: MemoryView, cfg: Config, vx: int, vy: int) -> u8 {
    if cfg.shift_ignores_vy {
        m.v[vx]
    } else {
        m.v[vy]
    }
}

/// The effect of one instruction on the machine state. The blocking key wait
/// leaves the state as it is: it acts on the controller alone.
pub open spec fn memory_step(m: MemoryView, cfg: Config, ins: Instruction, rnd: u8) -> Result<
    MemoryView,
    ExecuteError,
> {
    let v = m.v;
    let flag = FLAG_REGISTER as int;
    match ins {
        Instruction::DisplayClear => Ok(MemoryView { vram: blank_screen(), ..m }),
        Instruction::SubroutineReturn => if m.stack.len() == 0 {
            Err(ExecuteError::EmptyStack)
        } else {
            Ok(MemoryView { pc: m.stack.last(), stack: m.stack.drop_last(), ..m })
        },
        Instruction::System { .. } => Err(ExecuteError::UnsupportedInstruction(ins)),
        Instruction::Jump { address } => Ok(MemoryView { pc: address, ..m }),
        Instruction::SubroutineCall { address } => Ok(
            MemoryView { stack: m.stack.push(m.pc), pc: address, ..m },
        ),
        Instruction::SkipIfVxEqualsValue { vx, value } => Ok(m.skip_if(v[vx as int] == value)),
        Instruction::SkipIfVxNotEqualsValue { vx, value } => Ok(m.skip_if(v[vx as int] != value)),
        Instruction::SkipIfVxEqualsVy { vx, vy } => Ok(m.skip_if(v[vx as int] == v[vy as int])),
        Instruction::SetVxWithValue { vx, value } => Ok(m.with_register(vx as int, value)),
        Instruction::AddVxValue { vx, value } => Ok(
            m.with_register(vx as int, ((v[vx as int] + value) % 256) as u8),
        ),
        Instruction::SetVxWithVy { vx, vy } => Ok(m.with_register(vx as int, v[vy as int])),
        Instruction::OrVxWithVy { vx, vy } => Ok(
            m.with_register(vx as int, v[vx as int] | v[vy as int]),
        ),
        Instruction::AndVxWithVy { vx, vy } => Ok(
            m.with_register(vx as int, v[vx as int] & v[vy as int]),
        ),
        Instruction::XorVxWithVy { vx, vy } => Ok(
            m.with_register(vx as int, v[vx as int] ^ v[vy as int]),
        ),
        Instruction::AddVxWithVy { vx, vy } => {
            let sum = v[vx as int] + v[vy as int];
            Ok(
                m.with_register(vx as int, (sum % 256) as u8).with_register(
                    flag,
                    if sum > 255 {
                        1
                    } else {
                        0
                    },
                ),
            )
        },
        Instruction::SubtractVxWithVy { vx, vy } => {
            let (a, b) = (v[vx as int], v[vy as int]);
            Ok(
                m.with_register(vx as int, ((a - b + 256) % 256) as u8).with_register(
                    flag,
                    if a >= b {
                        1
                    } else {
                        0
                    },
                ),
            )
        },
        Instruction::Shift1RightVxWithVy { vx, vy } => {
            let src = shift_source(m, cfg, vx as int, vy as int);
            Ok(m.with_register(vx as int, src / 2).with_register(flag, src % 2))
        },
        Instruction::SubtractVyWithVx { vx, vy } => {
            let (a, b) = (v[vy as int], v[vx as int]);
            Ok(
                m.with_register(vx as int, ((a - b + 256) % 256) as u8).with_register(
                    flag,
                    if a >= b {
                        1
                    } else {
                        0
                    },
                ),
            )
        },
        Instruction::Shift1LeftVxWithVy { vx, vy } => {
            let src = shift_source(m, cfg, vx as int, vy as int);
            Ok(m.with_register(vx as int, ((src * 2) % 256) as u8).with_register(flag, src / 128))
        },
        Instruction::SkipIfVxNotEqualsVy { vx, vy } => Ok(m.skip_if(v[vx as int] != v[vy as int])),
        Instruction::SetIWithValue { value } => Ok(MemoryView { i: value, ..m }),
        Instruction::JumpWithOffset { vx, address } => {
            let base = if cfg.jump_reads_from_vx {
                vx as int
            } else {
                0
            };
            Ok(MemoryView { pc: (address + v[base]) as u16, ..m })
        },
        Instruction::SetVxWithRandom { vx, value } => Ok(m.with_register(vx as int, rnd & value)),
        Instruction::DisplayDraw { vx, vy, height } => draw_spec(
            m,
            vx as int,
            vy as int,
            height as int,
        ),
        Instruction::SkipIfVxKeyPressed { vx } => if v[vx as int] >= SIZE_KEYS {
            Err(ExecuteError::InvalidKey(v[vx as int]))
        } else {
            Ok(m.skip_if(m.keys[v[vx as int] as int]))
        },
        Instruction::SkipIfVxKeyNotPressed { vx } => if v[vx as int] >= SIZE_KEYS {
            Err(ExecuteError::InvalidKey(v[vx as int]))
        } else {
            Ok(m.skip_if(!m.keys[v[vx as int] as int]))
        },
        Instruction::SetVxWithDt { vx } => Ok(m.with_register(vx as int, m.dt)),
        Instruction::SetVxWithNextPressedKeyBlocking { .. } => Ok(m),
        Instruction::SetDtWithVx { vx } => Ok(MemoryView { dt: v[vx as int], ..m }),
        Instruction::SetStWithVx { vx } => Ok(MemoryView { st: v[vx as int], ..m }),
        Instruction::AddIWithVx { vx } => {
            let i = ((m.i + v[vx as int]) % 0x10000) as u16;
            let moved = MemoryView { i, ..m };
            if cfg.add_to_index_stores_overflow && i >= 0x1000 {
                Ok(moved.with_register(flag, 1))
            } else {
                Ok(moved)
            }
        },
        Instruction::SetIWithCharacterAtVx { vx } => Ok(
            MemoryView { i: (FONT_START + v[vx as int] * 5) as u16, ..m },
        ),
    }
}

/// `r` and the state after a call agree with `spec`; on error, nothing
/// changed.
pub open spec fn memory_outcome(
    spec: Result<MemoryView, ExecuteError>,
    before: MemoryView,
    after: MemoryView,
    r: Result<(), ExecuteError>,
) -> bool {
    match spec {
        Ok(m) => r is Ok && after == m,
        Err(e) => r == Err::<(), ExecuteError>(e) && after == before,
    }
}

/// `a` minus `b`, wrapping at 8 bits, and whether no borrow occurred.
fn sub_with_flag(a: u8, b: u8) -> (r: (u8, u8))
    ensures
        r.0 == ((a - b + 256) % 256) as u8,
        r.1 == if a >= b {
            1u8
        } else {
            0u8
        },
{
    if a >= b {
        (a - b, 1)
    } else {
        ((a as u16 + 256 - b as u16) as u8, 0)
    }
}

impl Memory {
    /// Apply one instruction to the machine state, as `memory_step` describes,
    /// with `rnd` as the random byte of `Cxnn`.
    pub fn step(&mut self, cfg: &Config, ins: &Instruction, rnd: u8) -> (r: Result<(), ExecuteError>)
        requires
            ins.wf(),
        ensures
            memory_outcome(memory_step(old(self)@, *cfg, *ins, rnd), old(self)@, final(self)@, r),
    {
        let ghost m = self@;
        match *ins {
            Instruction::DisplayClear => {
                self.clear_vram();
            },
            Instruction::SubroutineReturn => {
                match self.stack.pop() {
                    Some(pc) => {
                        self.pc = pc;
                    },
                    None => {
                        return Err(ExecuteError::EmptyStack);
                    },
                }
            },
            Instruction::System { .. } => {
                return Err(ExecuteError::UnsupportedInstruction(*ins));
            },
            Instruction::Jump { address } => {
                self.pc = address;
            },
            Instruction::SubroutineCall { address } => {
                self.stack.push(self.pc);
                self.pc = address;
            },
            Instruction::SkipIfVxEqualsValue { vx, value } => {
                if self.v[vx] == value {
                    self.increment_pc();
                }
            },
            Instruction::SkipIfVxNotEqualsValue { vx, value } => {
                if self.v[vx] != value {
                    self.increment_pc();
                }
            },
            Instruction::SkipIfVxEqualsVy { vx, vy } => {
                if self.v[vx] == self.v[vy] {
                    self.increment_pc();
                }
            },
            Instruction::SetVxWithValue { vx, value } => {
                self.v[vx] = value;
            },
            Instruction::AddVxValue { vx, value } => {
                self.v[vx] = ((self.v[vx] as u16 + value as u16) % 256) as u8;
            },
            Instruction::SetVxWithVy { vx, vy } => {
                self.v[vx] = self.v[vy];
            },
            Instruction::OrVxWithVy { vx, vy } => {
                self.v[vx] = self.v[vx] | self.v[vy];
            },
            Instruction::AndVxWithVy { vx, vy } => {
                self.v[vx] = self.v[vx] & self.v[vy];
            },
            Instruction::XorVxWithVy { vx, vy } => {
                self.v[vx] = self.v[vx] ^ self.v[vy];
            },
            Instruction::AddVxWithVy { vx, vy } => {
                let sum = self.v[vx] as u16 + self.v[vy] as u16;
                self.v[vx] = (sum % 256) as u8;
                self.v[FLAG_REGISTER] = if sum > 255 {
                    1
                } else {
                    0
                };
            },
            Instruction::SubtractVxWithVy { vx, vy } => {
                let (result, no_borrow) = sub_with_flag(self.v[vx], self.v[vy]);
                self.v[vx] = result;
                self.v[FLAG_REGISTER] = no_borrow;
            },
            Instruction::Shift1RightVxWithVy { vx, vy } => {
                if !cfg.shift_ignores_vy {
                    self.v[vx] = self.v[vy];
                }
                let src = self.v[vx];
                let discarded = src & 0b0000_0001;
                let shifted = src >> 1;
                assert(discarded == src % 2 && shifted == src / 2) by (bit_vector)
                    requires
                        discarded == src & 1,
                        shifted == src >> 1,
                ;
                self.v[vx] = shifted;
                self.v[FLAG_REGISTER] = discarded;
            },
            Instruction::SubtractVyWithVx { vx, vy } => {
                let (result, no_borrow) = sub_with_flag(self.v[vy], self.v[vx]);
                self.v[vx] = result;
                self.v[FLAG_REGISTER] = no_borrow;
            },
            Instruction::Shift1LeftVxWithVy { vx, vy } => {
                if !cfg.shift_ignores_vy {
                    self.v[vx] = self.v[vy];
                }
                let src = self.v[vx];
                let discarded = (src & 0b1000_0000) >> 7;
                let shifted = src << 1;
                assert(discarded == src / 128 && shifted == ((src * 2) % 256) as u8) by (bit_vector)
                    requires
                        discarded == (src & 0x80) >> 7,
                        shifted == src << 1,
                ;
                self.v[vx] = shifted;
                self.v[FLAG_REGISTER] = discarded;
            },
            Instruction::SkipIfVxNotEqualsVy { vx, vy } => {
                if self.v[vx] != self.v[vy] {
                    self.increment_pc();
                }
            },
            Instruction::SetIWithValue { value } => {
                self.i = value;
            },
            Instruction::JumpWithOffset { vx, address } => {
                let offset = self.v[if cfg.jump_reads_from_vx {
                    vx
                } else {
                    0
                }];
                self.pc = address + offset as u16;
            },
            Instruction::SetVxWithRandom { vx, value } => {
                self.v[vx] = rnd & value;
            },
            Instruction::DisplayDraw { vx, vy, height } => {
                return self.draw_sprite(vx, vy, height);
            },
            Instruction::SkipIfVxKeyPressed { vx } => {
                let key = self.v[vx];
                if key as usize >= SIZE_KEYS {
                    return Err(ExecuteError::InvalidKey(key));
                }
                if self.keys[key as usize] {
                    self.increment_pc();
                }
            },
            Instruction::SkipIfVxKeyNotPressed { vx } => {
                let key = self.v[vx];
                if key as usize >= SIZE_KEYS {
                    return Err(ExecuteError::InvalidKey(key));
                }
                if !self.keys[key as usize] {
                    self.increment_pc();
                }
            },
            Instruction::SetVxWithDt { vx } => {
                self.v[vx] = self.dt;
            },
            Instruction::SetVxWithNextPressedKeyBlocking { .. } => {},
            Instruction::SetDtWithVx { vx } => {
                self.dt = self.v[vx];
            },
            Instruction::SetStWithVx { vx } => {
                self.st = self.v[vx];
            },
            Instruction::AddIWithVx { vx } => {
                self.i = ((self.i as u32 + self.v[vx] as u32) % 0x10000) as u16;
                if cfg.add_to_index_stores_overflow && self.i >= 0x1000 {
                    self.v[FLAG_REGISTER] = 1;
                }
            },
            Instruction::SetIWithCharacterAtVx { vx } => {
                self.i = FONT_START as u16 + self.v[vx] as u16 * 5;
            },
        }
        proof {
            assert(self@.v =~= memory_step(m, *cfg, *ins, rnd)->Ok_0.v);
            assert(self@.stack =~= memory_step(m, *cfg, *ins, rnd)->Ok_0.stack);
        }
        Ok(())
    }
}

} // verus!
