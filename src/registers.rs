use vstd::prelude::*;

verus! {

/// The four meaningful bits of the flags register.
#[derive(Clone, Copy, Debug, PartialEq, Eq, Structural)]
pub struct FlagsRegister {
    pub zero: bool,
    pub subtract: bool,
    pub half_carry: bool,
    pub carry: bool,
}

/// The 8-bit register file. The pairs BC, DE, HL and AF are views over two
/// halves, the first-named register being the high byte.
#[derive(Clone, Copy, Debug, PartialEq, Eq, Structural)]
pub struct Registers {
    pub a: u8,
    pub b: u8,
    pub c: u8,
    pub d: u8,
    pub e: u8,
    pub f: FlagsRegister,
    pub h: u8,
    pub l: u8,
}

/// The 16-bit word whose high byte is `high` and low byte is `low`.
pub open spec fn word(high: u8, low: u8) -> u16 {
    (high as int * 256 + low as int) as u16
}

pub open spec fn high_byte(value: u16) -> u8 {
    (value / 256) as u8
}

pub open spec fn low_byte(value: u16) -> u8 {
    (value % 256) as u8
}

/// The flags as the byte of the physical F register: zero in bit 7,
/// subtract in bit 6, half-carry in bit 5, carry in bit 4, the rest clear.
pub open spec fn flags_byte(f: FlagsRegister) -> u8 {
    ((if f.zero { 128int } else { 0 }) + (if f.subtract { 64int } else { 0 }) + (if f.half_carry {
        32int
    } else {
        0
    }) + (if f.carry { 16int } else { 0 })) as u8
}

/// The flags that a byte of the F register holds; bits 3 to 0 carry nothing.
pub open spec fn flags_of_byte(byte: u8) -> FlagsRegister {
    FlagsRegister {
        zero: (byte / 128) % 2 == 1,
        subtract: (byte / 64) % 2 == 1,
        half_carry: (byte / 32) % 2 == 1,
        carry: (byte / 16) % 2 == 1,
    }
}

/// Splitting a word into its bytes and joining them again gives it back.
pub proof fn lemma_word_split(value: u16)
    ensures
        word(high_byte(value), low_byte(value)) == value,
{
}

/// Joining two bytes into a word and splitting it gives them back.
pub proof fn lemma_word_join(high: u8, low: u8)
    ensures
        high_byte(word(high, low)) == high,
        low_byte(word(high, low)) == low,
{
}

/// Storing the flags as a byte and reading them back loses nothing.
pub proof fn lemma_flags_byte_round_trip(f: FlagsRegister)
    ensures
        flags_of_byte(flags_byte(f)) == f,
{
}

fn join(high: u8, low: u8) -> (r: u16)
    ensures
        r == word(high, low),
{
    high as u16 * 256 + low as u16
}

impl FlagsRegister {
    /// The byte that the F register holds for these flags.
    pub fn to_byte(&self) -> (r: u8)
        ensures
            r == flags_byte(*self),
    {
        let mut byte: u8 = 0;
        if self.zero {
            byte = byte + 0x80;
        }
        if self.subtract {
            byte = byte + 0x40;
        }
        if self.half_carry {
            byte = byte + 0x20;
        }
        if self.carry {
            byte = byte + 0x10;
        }
        byte
    }

    /// The flags that an F register byte holds.
    pub fn from_byte(byte: u8) -> (r: FlagsRegister)
        ensures
            r == flags_of_byte(byte),
    {
        FlagsRegister {
            zero: (byte / 128) % 2 == 1,
            subtract: (byte / 64) % 2 == 1,
            half_carry: (byte / 32) % 2 == 1,
            carry: (byte / 16) % 2 == 1,
        }
    }
}

impl Registers {
    pub open spec fn af(&self) -> u16 {
        word(self.a, flags_byte(self.f))
    }

    pub open spec fn bc(&self) -> u16 {
        word(self.b, self.c)
    }

    pub open spec fn de(&self) -> u16 {
        word(self.d, self.e)
    }

    pub open spec fn hl(&self) -> u16 {
        word(self.h, self.l)
    }

    /// The registers with AF set to `value`: A from the high byte, the
    /// flags from the low byte.
    pub open spec fn with_af(self, value: u16) -> Registers {
        Registers { a: high_byte(value), f: flags_of_byte(low_byte(value)), ..self }
    }

    pub open spec fn with_bc(self, value: u16) -> Registers {
        Registers { b: high_byte(value), c: low_byte(value), ..self }
    }

    pub open spec fn with_de(self, value: u16) -> Registers {
        Registers { d: high_byte(value), e: low_byte(value), ..self }
    }

    pub open spec fn with_hl(self, value: u16) -> Registers {
        Registers { h: high_byte(value), l: low_byte(value), ..self }
    }

    pub fn get_af(&self) -> (r: u16)
        ensures
            r == self.af(),
    {
        join(self.a, self.f.to_byte())
    }

    pub fn get_bc(&self) -> (r: u16)
        ensures
            r == self.bc(),
    {
        join(self.b, self.c)
    }

    pub fn get_de(&self) -> (r: u16)
        ensures
            r == self.de(),
    {
        join(self.d, self.e)
    }

    pub fn get_hl(&self) -> (r: u16)
        ensures
            r == self.hl(),
    {
        join(self.h, self.l)
    }

    /// Writes the high byte to A and the flags that the low byte holds to F.
    pub fn set_af(&mut self, value: u16)
        ensures
            *final(self) == old(self).with_af(value),
    {
        self.a = (value / 256) as u8;
        self.f = FlagsRegister::from_byte((value % 256) as u8);
    }

    pub fn set_bc(&mut self, value: u16)
        ensures
            *final(self) == old(self).with_bc(value),
            final(self).bc() == value,
    {
        self.b = (value / 256) as u8;
        self.c = (value % 256) as u8;
    }

    pub fn set_de(&mut self, value: u16)
        ensures
            *final(self) == old(self).with_de(value),
            final(self).de() == value,
    {
        self.d = (value / 256) as u8;
        self.e = (value % 256) as u8;
    }

    pub fn set_hl(&mut self, value: u16)
        ensures
            *final(self) == old(self).with_hl(value),
            final(self).hl() == value,
    {
        self.h = (value / 256) as u8;
        self.l = (value % 256) as u8;
    }
}

} // verus!
