use vstd::prelude::*;

verus! {

/// The 6502 processor status register, kept as one boolean per flag.
#[derive(Debug)]
pub struct FlagsRegister {
    pub carry: bool,
    pub zero: bool,
    pub interrupt_disable: bool,
    pub decimal: bool,
    pub overflow: bool,
    pub negative: bool,
}

/// The value that a flag contributes to the status byte.
pub open spec fn bit_if(flag: bool, weight: int) -> int {
    if flag { weight } else { 0 }
}

/// The status byte of `f`: bit 0 carry, bit 1 zero, bit 2 interrupt disable,
/// bit 3 decimal, bit 5 always set, bit 6 overflow, bit 7 negative; bit 4 clear.
pub open spec fn status_byte(f: FlagsRegister) -> int {
    bit_if(f.carry, 0x01) + bit_if(f.zero, 0x02) + bit_if(f.interrupt_disable, 0x04)
        + bit_if(f.decimal, 0x08) + 0x20 + bit_if(f.overflow, 0x40) + bit_if(f.negative, 0x80)
}

/// The flags that the status byte `b` loads: each flag is its bit of `b`
/// (bits 4 and 5 load nothing).
pub open spec fn flags_of_byte(b: u8) -> FlagsRegister {
    FlagsRegister {
        carry: b & 0x01 != 0,
        zero: b & 0x02 != 0,
        interrupt_disable: b & 0x04 != 0,
        decimal: b & 0x08 != 0,
        overflow: b & 0x40 != 0,
        negative: b & 0x80 != 0,
    }
}

impl Default for FlagsRegister {
    fn default() -> (r: FlagsRegister)
        ensures
            !r.carry && !r.zero && !r.interrupt_disable && !r.decimal && !r.overflow && !r.negative,
    {
        FlagsRegister {
            carry: false,
            zero: false,
            interrupt_disable: false,
            decimal: false,
            overflow: false,
            negative: false,
        }
    }
}

impl FlagsRegister {
    /// Loads every flag from its bit of `flag`.
    pub fn set(&mut self, flag: u8)
        ensures
            *final(self) == flags_of_byte(flag),
    {
        self.carry = flag & 0x01 > 0;
        self.zero = flag & 0x02 > 0;
        self.interrupt_disable = flag & 0x04 > 0;
        self.decimal = flag & 0x08 > 0;
        self.overflow = flag & 0x40 > 0;
        self.negative = flag & 0x80 > 0;
    }

    /// The status byte, with bit 5 set and bit 4 clear.
    pub fn get(&self) -> (r: u8)
        ensures
            r == status_byte(*self),
    {
        let c: u8 = if self.carry { 0x01 } else { 0 };
        let z: u8 = if self.zero { 0x02 } else { 0 };
        let i: u8 = if self.interrupt_disable { 0x04 } else { 0 };
        let d: u8 = if self.decimal { 0x08 } else { 0 };
        let v: u8 = if self.overflow { 0x40 } else { 0 };
        let n: u8 = if self.negative { 0x80 } else { 0 };
        let r: u8 = c | z | i | 0x20u8 | d | v | n;
        assert(r == c + z + i + 0x20 + d + v + n) by (bit_vector)
            requires
                r == c | z | i | 0x20u8 | d | v | n,
                c == 0 || c == 1,
                z == 0 || z == 2,
                i == 0 || i == 4,
                d == 0 || d == 8,
                v == 0 || v == 0x40,
                n == 0 || n == 0x80,
        ;
        r
    }
}

/// The status byte puts each flag in its bit: carry 0, zero 1, interrupt
/// disable 2, decimal 3, overflow 6, negative 7; bit 4 is clear and bit 5 set.
pub proof fn lemma_status_byte_bits(f: FlagsRegister)
    ensures
        ({
            let b = status_byte(f) as u8;
            &&& ((b >> 0u8) & 1u8 == 1u8) == f.carry
            &&& ((b >> 1u8) & 1u8 == 1u8) == f.zero
            &&& ((b >> 2u8) & 1u8 == 1u8) == f.interrupt_disable
            &&& ((b >> 3u8) & 1u8 == 1u8) == f.decimal
            &&& ((b >> 4u8) & 1u8 == 1u8) == false
            &&& ((b >> 5u8) & 1u8 == 1u8) == true
            &&& ((b >> 6u8) & 1u8 == 1u8) == f.overflow
            &&& ((b >> 7u8) & 1u8 == 1u8) == f.negative
        }),
{
    let c: u8 = if f.carry { 1 } else { 0 };
    let z: u8 = if f.zero { 2 } else { 0 };
    let i: u8 = if f.interrupt_disable { 4 } else { 0 };
    let d: u8 = if f.decimal { 8 } else { 0 };
    let v: u8 = if f.overflow { 0x40 } else { 0 };
    let n: u8 = if f.negative { 0x80 } else { 0 };
    let b: u8 = (c + z + i + 0x20 + d + v + n) as u8;
    assert(b == status_byte(f));
    assert(((b >> 0u8) & 1u8 == 1u8) == (c == 1) && ((b >> 1u8) & 1u8 == 1u8) == (z == 2) && ((b
        >> 2u8) & 1u8 == 1u8) == (i == 4) && ((b >> 3u8) & 1u8 == 1u8) == (d == 8) && ((b >> 4u8)
        & 1u8 == 1u8) == false && ((b >> 5u8) & 1u8 == 1u8) == true && ((b >> 6u8) & 1u8 == 1u8)
        == (v == 0x40) && ((b >> 7u8) & 1u8 == 1u8) == (n == 0x80)) by (bit_vector)
        requires
            b == c + z + i + 0x20 + d + v + n,
            c == 0 || c == 1,
            z == 0 || z == 2,
            i == 0 || i == 4,
            d == 0 || d == 8,
            v == 0 || v == 0x40,
            n == 0 || n == 0x80,
    ;
}

/// Loading the status byte that a register reports gives back every flag of it.
pub proof fn lemma_set_get_roundtrip(f: FlagsRegister)
    ensures
        status_byte(f) <= 0xFF,
        flags_of_byte(status_byte(f) as u8) == f,
{
    let c: u8 = if f.carry { 1 } else { 0 };
    let z: u8 = if f.zero { 2 } else { 0 };
    let i: u8 = if f.interrupt_disable { 4 } else { 0 };
    let d: u8 = if f.decimal { 8 } else { 0 };
    let v: u8 = if f.overflow { 0x40 } else { 0 };
    let n: u8 = if f.negative { 0x80 } else { 0 };
    let b: u8 = (c + z + i + 0x20 + d + v + n) as u8;
    assert(b == status_byte(f));
    assert((b & 0x01 != 0) == (c == 1) && (b & 0x02 != 0) == (z == 2) && (b & 0x04 != 0) == (i
        == 4) && (b & 0x08 != 0) == (d == 8) && (b & 0x40 != 0) == (v == 0x40) && (b & 0x80
        != 0) == (n == 0x80)) by (bit_vector)
        requires
            b == c + z + i + 0x20 + d + v + n,
            c == 0 || c == 1,
            z == 0 || z == 2,
            i == 0 || i == 4,
            d == 0 || d == 8,
            v == 0 || v == 0x40,
            n == 0 || n == 0x80,
    ;
}

/// The status byte always has bit 5 set and bit 4 clear, so setting bit 4
/// (alone, or together with bit 5) adds 0x10 to it.
pub proof fn lemma_status_byte_break_bits(f: FlagsRegister)
    ensures
        0x20 <= status_byte(f) <= 0xEF,
        (status_byte(f) as u8 | 0x10u8) == status_byte(f) + 0x10,
        (status_byte(f) as u8 | 0x30u8) == status_byte(f) + 0x10,
{
    let c: u8 = if f.carry { 1 } else { 0 };
    let z: u8 = if f.zero { 2 } else { 0 };
    let i: u8 = if f.interrupt_disable { 4 } else { 0 };
    let d: u8 = if f.decimal { 8 } else { 0 };
    let v: u8 = if f.overflow { 0x40 } else { 0 };
    let n: u8 = if f.negative { 0x80 } else { 0 };
    let b: u8 = (c + z + i + 0x20 + d + v + n) as u8;
    assert(b == status_byte(f));
    assert((b | 0x10u8) == b + 0x10 && (b | 0x30u8) == b + 0x10) by (bit_vector)
        requires
            b == c + z + i + 0x20 + d + v + n,
            c == 0 || c == 1,
            z == 0 || z == 2,
            i == 0 || i == 4,
            d == 0 || d == 8,
            v == 0 || v == 0x40,
            n == 0 || n == 0x80,
    ;
}

/// The status byte reported after loading `b` is `b` with bit 4 cleared and bit 5 set.
pub proof fn lemma_get_after_set(b: u8)
    ensures
        status_byte(flags_of_byte(b)) == ((b & 0xCF) | 0x20),
{
    let f = flags_of_byte(b);
    let c: u8 = if f.carry { 1 } else { 0 };
    let z: u8 = if f.zero { 2 } else { 0 };
    let i: u8 = if f.interrupt_disable { 4 } else { 0 };
    let d: u8 = if f.decimal { 8 } else { 0 };
    let v: u8 = if f.overflow { 0x40 } else { 0 };
    let n: u8 = if f.negative { 0x80 } else { 0 };
    assert(c + z + i + 0x20 + d + v + n == ((b & 0xCF) | 0x20)) by (bit_vector)
        requires
            c == (if b & 0x01 != 0 { 1u8 } else { 0u8 }),
            z == (if b & 0x02 != 0 { 2u8 } else { 0u8 }),
            i == (if b & 0x04 != 0 { 4u8 } else { 0u8 }),
            d == (if b & 0x08 != 0 { 8u8 } else { 0u8 }),
            v == (if b & 0x40 != 0 { 0x40u8 } else { 0u8 }),
            n == (if b & 0x80 != 0 { 0x80u8 } else { 0u8 }),
    ;
}

} // verus!
