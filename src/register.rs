use vstd::prelude::*;
use crate::pointer::Pointer;

verus! {

/// An 8-bit register.
#[derive(Debug, Default, Clone, Copy, PartialEq, Eq, Structural)]
pub struct Register(pub u8);

/// The 16-bit address formed by a high byte and a low byte.
pub open spec fn pair_address(high: u8, low: u8) -> u16 {
    (high as int * 256 + low as int) as u16
}

impl Register {
    /// The address formed with this register as the high byte and `low` as
    /// the low byte.
    pub fn register_pair(&self, low: &Register) -> (r: Pointer)
        ensures
            r.0 == pair_address(self.0, low.0),
            r.addr() == self.0 as int * 256 + low.0 as int,
    {
        let high: u8 = self.0;
        let lo: u8 = low.0;
        let addr: u16 = (high as u16) << 8 | (lo as u16);
        assert(addr == high as u16 * 256 + lo as u16 && high as u16 * 256 + lo as u16 <= 0xFFFF)
            by (bit_vector)
            requires
                addr == (high as u16) << 8 | (lo as u16),
        ;
        Pointer(addr)
    }
}

} // verus!
