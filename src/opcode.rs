use vstd::prelude::*;

verus! {

/// Bits 12 to 15 of an instruction word.
pub open spec fn nibble_i(w: u16) -> int {
    w as int / 0x1000
}

/// Bits 8 to 11 of an instruction word.
pub open spec fn nibble_x(w: u16) -> int {
    (w as int / 0x100) % 0x10
}

/// Bits 4 to 7 of an instruction word.
pub open spec fn nibble_y(w: u16) -> int {
    (w as int / 0x10) % 0x10
}

/// Bits 0 to 3 of an instruction word.
pub open spec fn nibble_n(w: u16) -> int {
    w as int % 0x10
}

/// Bits 0 to 7 of an instruction word.
pub open spec fn low_byte(w: u16) -> int {
    w as int % 0x100
}

/// Bits 0 to 11 of an instruction word.
pub open spec fn low_word(w: u16) -> int {
    w as int % 0x1000
}

/// The word made of two bytes, the first one the most significant.
pub open spec fn word_of(high: u8, low: u8) -> u16 {
    (high as int * 0x100 + low as int) as u16
}

/// Joining four nibbles into a word and splitting it again gives them back.
proof fn lemma_join(i: u16, x: u16, y: u16, n: u16)
    requires
        i < 0x10,
        x < 0x10,
        y < 0x10,
        n < 0x10,
    ensures
        ({
            let w = (i * 0x1000 + x * 0x100 + y * 0x10 + n) as u16;
            &&& w as int == i * 0x1000 + x * 0x100 + y * 0x10 + n
            &&& nibble_i(w) == i
            &&& nibble_x(w) == x
            &&& nibble_y(w) == y
            &&& nibble_n(w) == n
            &&& low_byte(w) == y * 0x10 + n
            &&& low_word(w) == x * 0x100 + y * 0x10 + n
        }),
{
    let w = (i * 0x1000 + x * 0x100 + y * 0x10 + n) as u16;
    assert(w as int == i * 0x1000 + x * 0x100 + y * 0x10 + n && w / 0x1000 == i && (w / 0x100)
        % 0x10 == x && (w / 0x10) % 0x10 == y && w % 0x10 == n && w % 0x100 == y * 0x10 + n && w
        % 0x1000 == x * 0x100 + y * 0x10 + n) by (bit_vector)
        requires
            i < 0x10,
            x < 0x10,
            y < 0x10,
            n < 0x10,
            w == (i * 0x1000 + x * 0x100 + y * 0x10 + n) as u16,
    ;
}

/// An instruction word split into its fields.
#[derive(Debug, Clone, Copy, PartialEq, Eq)]
pub struct Opcode {
    /// First nibble.
    i: usize,
    /// Second nibble.
    x: usize,
    /// Third nibble.
    y: usize,
    /// Fourth nibble.
    n: usize,
    /// Last byte.
    nn: u8,
    /// Last 12 bits.
    nnn: u16,
}

impl Opcode {
    /// The fields agree with one another: each is a part of the same word.
    #[verifier::type_invariant]
    spec fn fields_agree(&self) -> bool {
        &&& self.i < 0x10
        &&& self.x < 0x10
        &&& self.y < 0x10
        &&& self.n < 0x10
        &&& self.nn as int == self.y * 0x10 + self.n
        &&& self.nnn as int == self.x * 0x100 + self.nn
    }

    /// The split of `w`.
    pub closed spec fn spec_new(w: u16) -> Opcode {
        Opcode {
            i: nibble_i(w) as usize,
            x: nibble_x(w) as usize,
            y: nibble_y(w) as usize,
            n: nibble_n(w) as usize,
            nn: low_byte(w) as u8,
            nnn: low_word(w) as u16,
        }
    }

    /// Splitting a word and joining its fields gives the word back.
    pub broadcast proof fn lemma_spec_new_view(w: u16)
        ensures
            #[trigger] Opcode::spec_new(w)@ == w,
    {
    }

    /// Split a word into its fields.
    pub fn new(ins: u16) -> (r: Opcode)
        ensures
            r == Opcode::spec_new(ins),
            r@ == ins,
    {
        let i = (ins & 0xF000) >> 12;
        let x = (ins & 0x0F00) >> 8;
        let y = (ins & 0x00F0) >> 4;
        let n = ins & 0x000F;
        let nn = ins & 0x00FF;
        let nnn = ins & 0x0FFF;
        assert(i == ins / 0x1000 && x == (ins / 0x100) % 0x10 && y == (ins / 0x10) % 0x10 && n
            == ins % 0x10 && nn == ins % 0x100 && nnn == ins % 0x1000) by (bit_vector)
            requires
                i == (ins & 0xF000) >> 12,
                x == (ins & 0x0F00) >> 8,
                y == (ins & 0x00F0) >> 4,
                n == ins & 0x000F,
                nn == ins & 0x00FF,
                nnn == ins & 0x0FFF,
        ;
        Opcode { i: i as usize, x: x as usize, y: y as usize, n: n as usize, nn: nn as u8, nnn }
    }

    /// The fields, in the order first nibble, second, third, fourth, last byte,
    /// last 12 bits.
    pub fn parts(self) -> (r: (usize, usize, usize, usize, u8, u16))
        ensures
            r == (
                nibble_i(self@) as usize,
                nibble_x(self@) as usize,
                nibble_y(self@) as usize,
                nibble_n(self@) as usize,
                low_byte(self@) as u8,
                low_word(self@) as u16,
            ),
    {
        proof {
            use_type_invariant(&self);
            lemma_join(self.i as u16, self.x as u16, self.y as u16, self.n as u16);
        }
        (self.i, self.x, self.y, self.n, self.nn, self.nnn)
    }
}

impl View for Opcode {
    type V = u16;

    /// The instruction word the fields were split from.
    closed spec fn view(&self) -> u16 {
        (self.i * 0x1000 + self.nnn) as u16
    }
}

impl From<u16> for Opcode {
    fn from(ins: u16) -> (r: Opcode)
        ensures
            r@ == ins,
    {
        Opcode::new(ins)
    }
}

impl vstd::std_specs::convert::FromSpecImpl<u16> for Opcode {
    open spec fn obeys_from_spec() -> bool {
        true
    }

    open spec fn from_spec(v: u16) -> Opcode {
        Opcode::spec_new(v)
    }
}

impl From<(u8, u8)> for Opcode {
    /// Join two bytes, the first one the most significant, and split the word.
    fn from(bytes: (u8, u8)) -> (r: Opcode)
        ensures
            r@ == word_of(bytes.0, bytes.1),
    {
        let (a, b) = bytes;
        let w = ((a as u16) << 8) | (b as u16);
        assert(w == a as u16 * 0x100 + b as u16) by (bit_vector)
            requires
                w == ((a as u16) << 8) | (b as u16),
        ;
        Opcode::new(w)
    }
}

impl vstd::std_specs::convert::FromSpecImpl<(u8, u8)> for Opcode {
    open spec fn obeys_from_spec() -> bool {
        true
    }

    open spec fn from_spec(v: (u8, u8)) -> Opcode {
        Opcode::spec_new(word_of(v.0, v.1))
    }
}

impl From<Opcode> for (usize, usize, usize, usize, u8, u16) {
    fn from(value: Opcode) -> (r: (usize, usize, usize, usize, u8, u16)) {
        value.parts()
    }
}

impl vstd::std_specs::convert::FromSpecImpl<Opcode> for (usize, usize, usize, usize, u8, u16) {
    open spec fn obeys_from_spec() -> bool {
        true
    }

    open spec fn from_spec(v: Opcode) -> (usize, usize, usize, usize, u8, u16) {
        (
            nibble_i(v@) as usize,
            nibble_x(v@) as usize,
            nibble_y(v@) as usize,
            nibble_n(v@) as usize,
            low_byte(v@) as u8,
            low_word(v@) as u16,
        )
    }
}

} // verus!
