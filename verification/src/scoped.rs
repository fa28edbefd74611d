//! Decision logic for scope guards that restore or transform a coil or
//! register value when a caller-defined scope ends.
//!
//! The guards themselves live with the transport that owns the socket; the
//! functions here decide, from the policy and the last-read value, which
//! value the teardown write carries.  Teardown must never panic, so the
//! register arithmetic wraps instead of overflowing.

use vstd::prelude::*;

use crate::Coil;

verus! {

/// Action to perform when a scoped coil guard is dropped.
pub enum CoilDropFunction {
    /// Set the coil to `Coil::On`.
    On,
    /// Set the coil to `Coil::Off`.
    Off,
    /// Toggle the current value.
    Toggle,
}

impl CoilDropFunction {
    /// The coil value the teardown write carries, given the value read
    /// back just before the scope ends.
    pub open spec fn spec_drop_value(self, current: Coil) -> Coil {
        match self {
            CoilDropFunction::On => Coil::On,
            CoilDropFunction::Off => Coil::Off,
            CoilDropFunction::Toggle => match current {
                Coil::On => Coil::Off,
                Coil::Off => Coil::On,
            },
        }
    }

    /// Decide the coil value the teardown write carries.
    pub fn drop_value(&self, current: Coil) -> (r: Coil)
        ensures
            r == self.spec_drop_value(current),
    {
        match self {
            CoilDropFunction::On => Coil::On,
            CoilDropFunction::Off => Coil::Off,
            CoilDropFunction::Toggle => match current {
                Coil::On => Coil::Off,
                Coil::Off => Coil::On,
            },
        }
    }
}

/// Action to perform when a scoped register guard is dropped.
///
/// An arbitrary function of the last-read value cannot be carried here; a
/// transport that offers one computes the value itself and uses `Value`.
pub enum RegisterDropFunction {
    /// Set the register to zero.
    Zero,
    /// Increment the current register value by 1, wrapping at the largest
    /// 16-bit value.
    Increment,
    /// Decrement the current register value by 1, wrapping at zero.
    Decrement,
    /// Set the register to the given value.
    Value(u16),
}

impl RegisterDropFunction {
    /// The register value the teardown write carries, given the value read
    /// back just before the scope ends.
    pub open spec fn spec_drop_value(self, current: u16) -> u16 {
        match self {
            RegisterDropFunction::Zero => 0,
            RegisterDropFunction::Increment => if current == 0xffff {
                0
            } else {
                (current + 1) as u16
            },
            RegisterDropFunction::Decrement => if current == 0 {
                0xffff
            } else {
                (current - 1) as u16
            },
            RegisterDropFunction::Value(v) => v,
        }
    }

    /// Decide the register value the teardown write carries.
    pub fn drop_value(&self, current: u16) -> (r: u16)
        ensures
            r == self.spec_drop_value(current),
    {
        match self {
            RegisterDropFunction::Zero => 0,
            RegisterDropFunction::Increment => current.wrapping_add(1),
            RegisterDropFunction::Decrement => current.wrapping_sub(1),
            RegisterDropFunction::Value(v) => *v,
        }
    }
}

} // verus!
