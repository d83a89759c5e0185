use vstd::prelude::*;

verus! {

/// Bit masks of the status byte, most significant first: N V U B D I Z C.
pub const FLAG_N: u8 = 0x80;
pub const FLAG_V: u8 = 0x40;
pub const FLAG_U: u8 = 0x20;
pub const FLAG_B: u8 = 0x10;
pub const FLAG_D: u8 = 0x08;
pub const FLAG_I: u8 = 0x04;
pub const FLAG_Z: u8 = 0x02;
pub const FLAG_C: u8 = 0x01;

/// The six stored flags of the status register.
///
/// `U` reads as 1 and `B` exists only in pushed copies, so neither is stored:
/// both are supplied when the flags are composed into a byte.
#[derive(Clone, Copy, Debug, PartialEq, Eq, Structural)]
pub struct Status {
    pub n: bool,
    pub v: bool,
    pub d: bool,
    pub i: bool,
    pub z: bool,
    pub c: bool,
}

pub open spec fn bit_if(on: bool, mask: u8) -> u8 {
    if on {
        mask
    } else {
        0
    }
}

/// The bit of `mask` is set in `b`.
pub open spec fn has_bit(b: u8, mask: u8) -> bool {
    b & mask != 0
}

impl Status {
    /// The status byte as observed: the stored flags, `U` set, `B` clear.
    pub open spec fn spec_byte(self) -> u8 {
        bit_if(self.n, FLAG_N) | bit_if(self.v, FLAG_V) | FLAG_U | bit_if(self.d, FLAG_D)
            | bit_if(self.i, FLAG_I) | bit_if(self.z, FLAG_Z) | bit_if(self.c, FLAG_C)
    }

    /// The flags installed from a byte; its `U` and `B` bits are dropped.
    pub open spec fn spec_from_byte(b: u8) -> Status {
        Status {
            n: has_bit(b, FLAG_N),
            v: has_bit(b, FLAG_V),
            d: has_bit(b, FLAG_D),
            i: has_bit(b, FLAG_I),
            z: has_bit(b, FLAG_Z),
            c: has_bit(b, FLAG_C),
        }
    }

    /// All flags clear.
    pub fn cleared() -> (r: Status)
        ensures
            r == (Status { n: false, v: false, d: false, i: false, z: false, c: false }),
    {
        Status { n: false, v: false, d: false, i: false, z: false, c: false }
    }

    pub fn byte(&self) -> (r: u8)
        ensures
            r == self.spec_byte(),
    {
        (if self.n { FLAG_N } else { 0 }) | (if self.v { FLAG_V } else { 0 }) | FLAG_U | (
        if self.d {
            FLAG_D
        } else {
            0
        }) | (if self.i { FLAG_I } else { 0 }) | (if self.z { FLAG_Z } else { 0 }) | (if self.c {
            FLAG_C
        } else {
            0
        })
    }

    pub fn from_byte(b: u8) -> (r: Status)
        ensures
            r == Status::spec_from_byte(b),
    {
        Status {
            n: b & FLAG_N != 0,
            v: b & FLAG_V != 0,
            d: b & FLAG_D != 0,
            i: b & FLAG_I != 0,
            z: b & FLAG_Z != 0,
            c: b & FLAG_C != 0,
        }
    }
}

proof fn lemma_compose_bits(n: bool, v: bool, d: bool, i: bool, z: bool, c: bool)
    by (bit_vector)
    ensures
        ({
            let b = (if n { 0x80u8 } else { 0u8 }) | (if v { 0x40u8 } else { 0u8 }) | 0x20u8 | (
            if d {
                0x08u8
            } else {
                0u8
            }) | (if i { 0x04u8 } else { 0u8 }) | (if z { 0x02u8 } else { 0u8 }) | (if c {
                0x01u8
            } else {
                0u8
            });
            &&& b & 0x20u8 != 0
            &&& b & 0x10u8 == 0
            &&& (b & 0x80u8 != 0) == n
            &&& (b & 0x40u8 != 0) == v
            &&& (b & 0x08u8 != 0) == d
            &&& (b & 0x04u8 != 0) == i
            &&& (b & 0x02u8 != 0) == z
            &&& (b & 0x01u8 != 0) == c
            &&& ((b | 0x10u8) & 0x80u8 != 0) == n
            &&& ((b | 0x10u8) & 0x40u8 != 0) == v
            &&& ((b | 0x10u8) & 0x08u8 != 0) == d
            &&& ((b | 0x10u8) & 0x04u8 != 0) == i
            &&& ((b | 0x10u8) & 0x02u8 != 0) == z
            &&& ((b | 0x10u8) & 0x01u8 != 0) == c
        }),
{
}

/// The observed status byte always has `U` set and `B` clear, and reading
/// the flags back from it, or from its pushed copy with `B` set, gives the
/// same flags.
pub proof fn lemma_byte_round_trip(st: Status)
    ensures
        has_bit(st.spec_byte(), FLAG_U),
        !has_bit(st.spec_byte(), FLAG_B),
        Status::spec_from_byte(st.spec_byte()) == st,
        Status::spec_from_byte(st.spec_byte() | FLAG_B) == st,
{
    lemma_compose_bits(st.n, st.v, st.d, st.i, st.z, st.c);
}

} // verus!
