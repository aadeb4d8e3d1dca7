use vstd::prelude::*;

verus! {

/// Compatibility toggles, each choosing between two historical behaviours of
/// one family of instructions. Fixed for the lifetime of a machine.
#[derive(Debug, Clone, Copy, PartialEq, Eq, Structural)]
pub struct Config {
    /// `8xy6` and `8xyE`: when `false`, `Vy` is copied into `Vx` before the
    /// shift; when `true`, `Vx` is shifted in place.
    pub shift_ignores_vy: bool,
    /// `Bnnn`: when `false`, the jump offset is read from `V0`; when `true`,
    /// from the `Vx` named by the opcode.
    pub jump_reads_from_vx: bool,
    /// `Fx1E`: when `true`, an index register at or above `0x1000` after the
    /// addition sets the flag register.
    pub add_to_index_stores_overflow: bool,
    /// Block store and load: whether the index register is advanced as a side
    /// effect.
    pub store_load_modifies_i: bool,
}

impl Config {
    /// The most compatible choice of every toggle.
    pub open spec fn default_spec() -> Config {
        Config {
            shift_ignores_vy: true,
            jump_reads_from_vx: false,
            add_to_index_stores_overflow: true,
            store_load_modifies_i: false,
        }
    }
}

impl Default for Config {
    fn default() -> (r: Config)
        ensures
            r == Config::default_spec(),
    {
        Config {
            shift_ignores_vy: true,
            jump_reads_from_vx: false,
            add_to_index_stores_overflow: true,
            store_load_modifies_i: false,
        }
    }
}

} // verus!
