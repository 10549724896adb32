use vstd::prelude::*;
use crate::bits::{bit_of, get_bit, set_bit, with_bit};

verus! {

/// The UART control register: bit 0 enables the receive interrupt, bit 1 the
/// transmit interrupt.
#[derive(Debug, Clone, Copy)]
pub struct Ctrl(pub u32);

impl Ctrl {
    pub fn rxie(&self) -> (r: bool)
        ensures
            r == bit_of(self.0, 0),
    {
        get_bit(self.0, 0)
    }

    pub fn set_rxie(&mut self, value: bool)
        ensures
            final(self).0 == with_bit(old(self).0, 0, value),
    {
        set_bit(&mut self.0, 0, value);
    }

    pub fn txie(&self) -> (r: bool)
        ensures
            r == bit_of(self.0, 1),
    {
        get_bit(self.0, 1)
    }

    pub fn set_txie(&mut self, value: bool)
        ensures
            final(self).0 == with_bit(old(self).0, 1, value),
    {
        set_bit(&mut self.0, 1, value);
    }
}

/// The UART status register: bit 0 says a received byte is ready, bit 1 that the
/// transmitter can take a byte.
#[derive(Debug, Clone, Copy)]
pub struct Status(pub u32);

impl Status {
    pub fn rxr(&self) -> (r: bool)
        ensures
            r == bit_of(self.0, 0),
    {
        get_bit(self.0, 0)
    }

    pub fn txe(&self) -> (r: bool)
        ensures
            r == bit_of(self.0, 1),
    {
        get_bit(self.0, 1)
    }
}

} // verus!
