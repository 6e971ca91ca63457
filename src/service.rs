use vstd::prelude::*;
use crate::gatt::{Characteristic, Descriptor, ServiceId};

verus! {

/// A characteristic as the application declares it: its description and
/// the descriptors the stack should attach to it.
pub struct CharacteristicDef {
    pub characteristic: Characteristic,
    pub descriptors: Vec<Descriptor>,
}

impl CharacteristicDef {
    pub fn new(characteristic: Characteristic, descriptors: Vec<Descriptor>) -> (r: CharacteristicDef)
        ensures
            r.characteristic == characteristic,
            r.descriptors@ == descriptors@,
    {
        CharacteristicDef { characteristic, descriptors }
    }
}

/// One service of the descriptor registry, with its read-capable and
/// write-capable characteristics. A characteristic that is both appears in
/// both lists.
pub struct Service {
    pub service_id: ServiceId,
    pub num_handles: u16,
    pub read_characteristics: Vec<CharacteristicDef>,
    pub write_characteristics: Vec<CharacteristicDef>,
}

impl Service {
    pub fn new(service_id: ServiceId, num_handles: u16) -> (r: Service)
        ensures
            r.service_id == service_id,
            r.num_handles == num_handles,
            r.read_characteristics@.len() == 0,
            r.write_characteristics@.len() == 0,
    {
        Service {
            service_id,
            num_handles,
            read_characteristics: Vec::new(),
            write_characteristics: Vec::new(),
        }
    }

    pub fn add_read_characteristic(&mut self, characteristic: CharacteristicDef)
        ensures
            final(self).service_id == old(self).service_id,
            final(self).num_handles == old(self).num_handles,
            final(self).read_characteristics@ == old(self).read_characteristics@.push(characteristic),
            final(self).write_characteristics@ == old(self).write_characteristics@,
    {
        self.read_characteristics.push(characteristic);
    }

    pub fn add_write_characteristic(&mut self, characteristic: CharacteristicDef)
        ensures
            final(self).service_id == old(self).service_id,
            final(self).num_handles == old(self).num_handles,
            final(self).read_characteristics@ == old(self).read_characteristics@,
            final(self).write_characteristics@ == old(self).write_characteristics@.push(characteristic),
    {
        self.write_characteristics.push(characteristic);
    }
}

} // verus!
