use vstd::prelude::*;

use crate::config::Config;
use crate::execute::{memory_step, ExecuteError};
use crate::instruction::{decode, decode_spec, lemma_decode_deterministic, lemma_decode_unknown, Instruction, ParseError};
use crate::memory::{fresh_view, loaded_view, rom_fits, tick, Memory, MemoryView, SIZE_KEYS, SIZE_RAM};
use crate::opcode::{word_of, Opcode};

verus! {

broadcast use crate::opcode::Opcode::lemma_spec_new_view;

/// The relied-on source of random bytes: `rand::random` draws a value from the
/// thread-local generator. Nothing is known of the value.
pub assume_specification<T>[ rand::random::<T> ]() -> (r: T)
    where
        rand::distributions::Standard: rand::distributions::Distribution<T>,
;

/// Either failure of a fetch-decode-execute cycle or of a key event.
#[derive(Debug, Clone, Copy, PartialEq, Eq)]
pub enum InstructionError {
    ParseError(ParseError),
    ExecuteError(ExecuteError),
}

impl From<ParseError> for InstructionError {
    fn from(value: ParseError) -> (r: InstructionError) {
        InstructionError::ParseError(value)
    }
}

impl vstd::std_specs::convert::FromSpecImpl<ParseError> for InstructionError {
    open spec fn obeys_from_spec() -> bool {
        true
    }

    open spec fn from_spec(v: ParseError) -> InstructionError {
        InstructionError::ParseError(v)
    }
}

impl From<ExecuteError> for InstructionError {
    fn from(value: ExecuteError) -> (r: InstructionError) {
        InstructionError::ExecuteError(value)
    }
}

impl vstd::std_specs::convert::FromSpecImpl<ExecuteError> for InstructionError {
    open spec fn obeys_from_spec() -> bool {
        true
    }

    open spec fn from_spec(v: ExecuteError) -> InstructionError {
        InstructionError::ExecuteError(v)
    }
}

/// Whether the machine runs instructions or waits for a key.
#[derive(Debug, Clone, Copy, PartialEq, Eq, Structural)]
pub enum State {
    Ready,
    /// Stepping does nothing until a key is released; the key then goes to `Vx`.
    WaitingForKey { vx: usize },
}

/// The machine as mathematical values.
pub struct Chip8View {
    pub config: Config,
    pub memory: MemoryView,
    pub state: State,
}

impl Chip8View {
    /// A register waited for is one of the sixteen.
    pub open spec fn wf(self) -> bool {
        match self.state {
            State::WaitingForKey { vx } => vx < 16,
            State::Ready => true,
        }
    }
}

/// A new machine with the given configuration.
pub open spec fn new_spec(config: Config) -> Chip8View {
    Chip8View { config, memory: fresh_view(), state: State::Ready }
}

/// The machine after loading `rom`: its state reset, the ROM at
/// `PROGRAM_START`. The configuration and a pending key wait are kept.
pub open spec fn load_spec(s: Chip8View, rom: Seq<u8>) -> Chip8View {
    Chip8View { memory: loaded_view(rom), ..s }
}

/// The effect of one instruction on the machine, `rnd` being the random byte
/// that `Cxnn` uses.
pub open spec fn execute_spec(s: Chip8View, ins: Instruction, rnd: u8) -> Result<
    Chip8View,
    ExecuteError,
> {
    match ins {
        Instruction::SetVxWithNextPressedKeyBlocking { vx } => Ok(
            Chip8View { state: State::WaitingForKey { vx }, ..s },
        ),
        _ => match memory_step(s.memory, s.config, ins, rnd) {
            Ok(m) => Ok(Chip8View { memory: m, ..s }),
            Err(e) => Err(e),
        },
    }
}

/// `r` and the machine after a call agree with `spec`; on error, nothing
/// changed.
pub open spec fn outcome(
    spec: Result<Chip8View, ExecuteError>,
    before: Chip8View,
    after: Chip8View,
    r: Result<(), ExecuteError>,
) -> bool {
    match spec {
        Ok(s) => r is Ok && after == s,
        Err(e) => r == Err::<(), ExecuteError>(e) && after == before,
    }
}

/// The fetch and decode half of a cycle: the machine after it, and the
/// instruction to execute, if any. Nothing happens while waiting for a key or
/// while the delay timer runs. The program counter moves past the fetched
/// word before decoding, and stays there when decoding fails.
pub open spec fn fetch_spec(s: Chip8View) -> (Chip8View, Result<Option<Instruction>, InstructionError>) {
    let m = s.memory;
    if s.state != State::Ready || m.dt > 0 {
        (s, Ok(None))
    } else if m.pc + 1 >= SIZE_RAM {
        (s, Err(InstructionError::ExecuteError(ExecuteError::InvalidAddress(m.pc))))
    } else {
        let op = Opcode::spec_new(word_of(m.ram[m.pc as int], m.ram[m.pc + 1]));
        let fetched = Chip8View { memory: MemoryView { pc: (m.pc + 2) as u16, ..m }, ..s };
        match decode_spec(op) {
            Err(e) => (fetched, Err(InstructionError::ParseError(e))),
            Ok(ins) => (fetched, Ok(Some(ins))),
        }
    }
}

/// One fetch-decode-execute cycle: the machine after it and the result,
/// `rnd` being the random byte that `Cxnn` uses. When execution fails the
/// program counter stays past the fetched word.
pub open spec fn step_spec(s: Chip8View, rnd: u8) -> (Chip8View, Result<(), InstructionError>) {
    let (t, fetched) = fetch_spec(s);
    match fetched {
        Ok(Some(ins)) => match execute_spec(t, ins, rnd) {
            Ok(u) => (u, Ok(())),
            Err(e) => (t, Err(InstructionError::ExecuteError(e))),
        },
        Ok(None) => (t, Ok(())),
        Err(e) => (t, Err(e)),
    }
}

/// Executing one instruction on a machine.
pub trait ExecuteInstruction: Sized {
    /// Whether `after` and `r` are a possible outcome of executing
    /// `instruction` on `before`.
    spec fn executes(
        before: Self,
        instruction: Instruction,
        after: Self,
        r: Result<(), ExecuteError>,
    ) -> bool;

    /// Execute a given instruction.
    fn execute(&mut self, instruction: &Instruction) -> (r: Result<(), ExecuteError>)
        requires
            instruction.wf(),
        ensures
            Self::executes(*old(self), *instruction, *final(self), r),
    ;
}

/// The machine: state, compatibility configuration, and whether it waits for
/// a key.
#[derive(Debug, Clone, PartialEq, Eq)]
pub struct Chip8 {
    pub config: Config,
    pub memory: Memory,
    pub state: State,
}

impl View for Chip8 {
    type V = Chip8View;

    open spec fn view(&self) -> Chip8View {
        Chip8View { config: self.config, memory: self.memory@, state: self.state }
    }
}

impl Chip8 {
    /// Timer updates per second.
    pub const FREQUENCY_TIMER_UPDATE: usize = 60;

    /// A reset machine with the given configuration, ready to run.
    pub fn new(config: Config) -> (r: Chip8)
        ensures
            r@ == new_spec(config),
    {
        Chip8 { config, memory: Memory::new(), state: State::Ready }
    }

    /// The machine state.
    pub fn memory(&self) -> (r: &Memory)
        ensures
            *r == self.memory,
    {
        &self.memory
    }

    /// Reset the machine state and copy `rom` into RAM at `PROGRAM_START`.
    pub fn load(&mut self, rom: &[u8])
        requires
            rom_fits(rom@.len()),
        ensures
            final(self)@ == load_spec(old(self)@, rom@),
    {
        self.memory.load(rom);
    }

    /// Execute one instruction as `execute_spec` describes, with `random` as
    /// the random byte of `Cxnn`.
    pub fn execute_with_random(&mut self, instruction: &Instruction, random: u8) -> (r: Result<
        (),
        ExecuteError,
    >)
        requires
            instruction.wf(),
        ensures
            outcome(execute_spec(old(self)@, *instruction, random), old(self)@, final(self)@, r),
            old(self)@.wf() ==> final(self)@.wf(),
    {
        if let Instruction::SetVxWithNextPressedKeyBlocking { vx } = *instruction {
            self.state = State::WaitingForKey { vx };
            return Ok(());
        }
        self.memory.step(&self.config, instruction, random)
    }

    /// The fetch and decode half of a cycle, as `fetch_spec` describes.
    fn fetch(&mut self) -> (r: Result<Option<Instruction>, InstructionError>)
        ensures
            (final(self)@, r) == fetch_spec(old(self)@),
            r matches Ok(Some(ins)) ==> ins.wf(),
    {
        if self.state != State::Ready || self.memory.dt > 0 {
            return Ok(None);
        }
        let pc = self.memory.pc;
        if pc as usize + 1 >= SIZE_RAM {
            return Err(InstructionError::ExecuteError(ExecuteError::InvalidAddress(pc)));
        }
        let opcode = Opcode::from((self.memory.ram[pc as usize], self.memory.ram[pc as usize + 1]));
        self.memory.pc = pc + 2;
        proof {
            lemma_decode_unknown(opcode);
        }
        match decode(opcode) {
            Err(e) => Err(InstructionError::ParseError(e)),
            Ok(instruction) => {
                proof {
                    lemma_decode_deterministic(opcode, opcode);
                }
                Ok(Some(instruction))
            },
        }
    }

    /// One fetch-decode-execute cycle as `step_spec` describes, with `random`
    /// as the random byte of `Cxnn`.
    pub fn advance_instruction_with_random(&mut self, random: u8) -> (r: Result<(), InstructionError>)
        ensures
            (final(self)@, r) == step_spec(old(self)@, random),
            old(self)@.wf() ==> final(self)@.wf(),
    {
        match self.fetch() {
            Ok(Some(instruction)) => match self.execute_with_random(&instruction, random) {
                Ok(()) => Ok(()),
                Err(e) => Err(InstructionError::ExecuteError(e)),
            },
            Ok(None) => Ok(()),
            Err(e) => Err(e),
        }
    }

    /// One fetch-decode-execute cycle; `Cxnn` draws its byte from
    /// `rand::random`. Meant to be called at 500 to 1000 Hz.
    pub fn advance_instruction(&mut self) -> (r: Result<(), InstructionError>)
        ensures
            exists|rnd: u8| (final(self)@, r) == #[trigger] step_spec(old(self)@, rnd),
            old(self)@.wf() ==> final(self)@.wf(),
    {
        let ghost s = self@;
        match self.fetch() {
            Ok(Some(instruction)) => {
                let ghost before = *self;
                let result = self.execute(&instruction);
                let ghost rnd = choose|rnd: u8|
                    outcome(#[trigger] execute_spec(before@, instruction, rnd), before@, self@, result);
                let r = match result {
                    Ok(()) => Ok(()),
                    Err(e) => Err(InstructionError::ExecuteError(e)),
                };
                assert((self@, r) == step_spec(s, rnd));
                r
            },
            Ok(None) => {
                assert((self@, Ok::<(), InstructionError>(())) == step_spec(s, 0));
                Ok(())
            },
            Err(e) => {
                assert((self@, Err::<(), InstructionError>(e)) == step_spec(s, 0));
                Err(e)
            },
        }
    }

    /// One 60 Hz tick of both timers.
    pub fn advance_timer(&mut self)
        ensures
            final(self)@ == (Chip8View {
                memory: MemoryView {
                    dt: tick(old(self).memory.dt),
                    st: tick(old(self).memory.st),
                    ..old(self)@.memory
                },
                ..old(self)@
            }),
    {
        self.memory.advance_timer();
    }

    /// Mark key `key` as held. Keys past `0xF` are refused.
    pub fn press_key(&mut self, key: u8) -> (r: Result<(), InstructionError>)
        ensures
            key >= SIZE_KEYS ==> r == Err::<(), InstructionError>(
                InstructionError::ExecuteError(ExecuteError::InvalidKey(key)),
            ) && final(self)@ == old(self)@,
            key < SIZE_KEYS ==> r is Ok && final(self)@ == (Chip8View {
                memory: MemoryView {
                    keys: old(self)@.memory.keys.update(key as int, true),
                    ..old(self)@.memory
                },
                ..old(self)@
            }),
    {
        if key as usize >= SIZE_KEYS {
            return Err(InstructionError::ExecuteError(ExecuteError::InvalidKey(key)));
        }
        self.memory.keys[key as usize] = true;
        Ok(())
    }

    /// Mark key `key` as released. A machine waiting for a key stores `key` in
    /// the register it waits on and becomes ready. Keys past `0xF` are refused.
    pub fn unpress_key(&mut self, key: u8) -> (r: Result<(), InstructionError>)
        requires
            old(self)@.wf(),
        ensures
            key >= SIZE_KEYS ==> r == Err::<(), InstructionError>(
                InstructionError::ExecuteError(ExecuteError::InvalidKey(key)),
            ) && final(self)@ == old(self)@,
            key < SIZE_KEYS ==> r is Ok && final(self)@ == ({
                let s = old(self)@;
                let released = MemoryView {
                    keys: s.memory.keys.update(key as int, false),
                    ..s.memory
                };
                match s.state {
                    State::Ready => Chip8View { memory: released, ..s },
                    State::WaitingForKey { vx } => Chip8View {
                        memory: released.with_register(vx as int, key),
                        state: State::Ready,
                        ..s
                    },
                }
            }),
    {
        if key as usize >= SIZE_KEYS {
            return Err(InstructionError::ExecuteError(ExecuteError::InvalidKey(key)));
        }
        self.memory.keys[key as usize] = false;
        if let State::WaitingForKey { vx } = self.state {
            self.memory.v[vx] = key;
            self.state = State::Ready;
        }
        Ok(())
    }
}

impl ExecuteInstruction for Chip8 {
    /// Some random byte for `Cxnn` gives this outcome; a waited-on register
    /// stays valid.
    open spec fn executes(
        before: Chip8,
        instruction: Instruction,
        after: Chip8,
        r: Result<(), ExecuteError>,
    ) -> bool {
        &&& exists|rnd: u8|
            outcome(#[trigger] execute_spec(before@, instruction, rnd), before@, after@, r)
        &&& before@.wf() ==> after@.wf()
    }

    /// Execute one instruction; `Cxnn` draws its byte from `rand::random`,
    /// other instructions draw nothing.
    fn execute(&mut self, instruction: &Instruction) -> (r: Result<(), ExecuteError>) {
        let random: u8 = match *instruction {
            Instruction::SetVxWithRandom { .. } => rand::random::<u8>(),
            _ => 0,
        };
        self.execute_with_random(instruction, random)
    }
}

impl Default for Chip8 {
    fn default() -> (r: Chip8)
        ensures
            r@ == new_spec(Config::default_spec()),
    {
        Chip8::new(Config::default())
    }
}

} // verus!

verus! {

/// On a ready machine, loading a ROM and then loading the empty ROM gives
/// exactly the machine that construction gives: a reload keeps no trace of
/// the earlier program or of anything it did.
pub proof fn lemma_reload_empty_is_fresh(s: Chip8View, rom: Seq<u8>)
    requires
        rom_fits(rom.len()),
        s.state == State::Ready,
    ensures
        load_spec(load_spec(s, rom), Seq::empty()) == new_spec(s.config),
{
    assert(loaded_view(Seq::empty()).ram =~= fresh_view().ram);
}

/// A subroutine call followed by a return gives back the machine the call
/// started from: the same program counter, the same call stack, nothing else
/// touched.
pub proof fn lemma_call_then_return(s: Chip8View, address: u16, rnd_call: u8, rnd_return: u8)
    requires
        address < 0x1000,
    ensures
        execute_spec(s, Instruction::SubroutineCall { address }, rnd_call) is Ok,
        execute_spec(
            execute_spec(s, Instruction::SubroutineCall { address }, rnd_call)->Ok_0,
            Instruction::SubroutineReturn,
            rnd_return,
        ) == Ok::<Chip8View, ExecuteError>(s),
{
    assert(s.memory.stack.push(s.memory.pc).drop_last() =~= s.memory.stack);
}

} // verus!
