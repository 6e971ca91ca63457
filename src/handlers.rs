use vstd::prelude::*;
use crate::gatt::{Characteristic, Descriptor};

verus! {

/// A characteristic handler reported failure.
#[derive(Clone, Copy, Debug, PartialEq, Eq, Structural)]
pub struct HandlerError;

/// A characteristic the application serves: its description and the
/// descriptors to attach to it.
pub trait CharacteristicExt {
    fn characteristic(&self) -> Characteristic;

    /// The descriptors to attach; none unless the characteristic says so.
    fn descriptors(&self) -> Vec<Descriptor> {
        Vec::new()
    }
}

/// A characteristic whose value peers can read.
pub trait ReadExt: CharacteristicExt {
    type State;

    fn on_read(&self, state: Self::State) -> Result<Vec<u8>, HandlerError>;
}

/// A characteristic peers can write to.
pub trait WriteExt: CharacteristicExt {
    type State;

    fn on_write(&self, state: Self::State, data: &[u8]) -> Result<(), HandlerError>;
}

/// A characteristic peers can subscribe to.
pub trait NotifyExt: CharacteristicExt {
    type State;

    fn on_subscribe(&self, state: Self::State) -> Result<(), HandlerError>;

    fn on_unsubscribe(&self, state: Self::State) -> Result<(), HandlerError>;
}

} // verus!
