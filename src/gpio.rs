use vstd::prelude::*;
use crate::bits::{bit_of, get_bit, set_bit, with_bit};

verus! {

/// The direction of a GPIO pin.
#[derive(Debug, Clone, Copy, PartialEq, Eq, Structural)]
pub enum Direction {
    Input,
    Output,
}

/// The GPIO direction register: bit `n` is one when pin `n` is an input.
#[derive(Debug, Clone, Copy)]
pub struct Dir(pub u32);

impl Dir {
    pub fn dir(&self, n: usize) -> (r: Direction)
        requires
            n < 32,
        ensures
            r == (if bit_of(self.0, n as u32) {
                Direction::Input
            } else {
                Direction::Output
            }),
    {
        if get_bit(self.0, n) {
            Direction::Input
        } else {
            Direction::Output
        }
    }

    pub fn set_dir(&mut self, n: usize, dir: Direction)
        requires
            n < 32,
        ensures
            final(self).0 == with_bit(old(self).0, n as u32, dir == Direction::Input),
    {
        set_bit(&mut self.0, n, dir == Direction::Input);
    }
}

/// The GPIO output register: bit `n` is the level driven on pin `n`.
#[derive(Debug, Clone, Copy)]
pub struct Output(pub u32);

impl Output {
    pub fn value(&self, n: usize) -> (r: bool)
        requires
            n < 32,
        ensures
            r == bit_of(self.0, n as u32),
    {
        get_bit(self.0, n)
    }

    pub fn set_value(&mut self, n: usize, value: bool)
        requires
            n < 32,
        ensures
            final(self).0 == with_bit(old(self).0, n as u32, value),
    {
        set_bit(&mut self.0, n, value);
    }
}

/// The GPIO input register: bit `n` is the level read on pin `n`.
#[derive(Debug, Clone, Copy)]
pub struct Input(pub u32);

impl Input {
    pub fn value(&self, n: usize) -> (r: bool)
        requires
            n < 32,
        ensures
            r == bit_of(self.0, n as u32),
    {
        get_bit(self.0, n)
    }
}

} // verus!
