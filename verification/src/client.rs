use vstd::prelude::*;

use crate::{Coil, Error};

verus! {

/// The abstract operation set a Modbus master exposes to callers.
///
/// The TCP transport of the embedding application implements it; an
/// alternate transport (for instance a mock used in testing) can substitute
/// for the real one by implementing the same trait.
pub trait Client {
    fn read_discrete_inputs(&mut self, address: u16, quantity: u16) -> Result<Vec<Coil>, Error>;

    fn read_coils(&mut self, address: u16, quantity: u16) -> Result<Vec<Coil>, Error>;

    fn write_single_coil(&mut self, address: u16, value: Coil) -> Result<(), Error>;

    fn write_multiple_coils(&mut self, address: u16, coils: &[Coil]) -> Result<(), Error>;

    fn read_input_registers(&mut self, address: u16, quantity: u16) -> Result<Vec<u16>, Error>;

    fn read_holding_registers(&mut self, address: u16, quantity: u16) -> Result<Vec<u16>, Error>;

    fn write_single_register(&mut self, address: u16, value: u16) -> Result<(), Error>;

    fn write_multiple_registers(&mut self, address: u16, values: &[u16]) -> Result<(), Error>;

    fn write_read_multiple_registers(
        &mut self,
        write_address: u16,
        write_quantity: u16,
        write_values: &[u16],
        read_address: u16,
        read_quantity: u16,
    ) -> Result<Vec<u16>, Error>;

    fn set_uid(&mut self, uid: u8);
}

} // verus!
