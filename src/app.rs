use vstd::prelude::*;
use crate::gatt::{AdvConfig, Characteristic, Descriptor, ServiceId};
use crate::service::{CharacteristicDef, Service};
use crate::table::{has_key, index_of, lemma_filter_prefix_step, lemma_index_of_unique, lemma_upsert, lookup, unique_by, upsert};
use crate::uuid::BtUuid;

verus! {

/// A registered characteristic and the roles it was registered in.
#[derive(Clone, Copy, Debug, PartialEq, Eq, Structural)]
pub struct CharEntry {
    pub characteristic: Characteristic,
    pub readable: bool,
    pub writable: bool,
}

/// A descriptor to attach to the characteristic with UUID `owner`.
#[derive(Clone, Copy, Debug, PartialEq, Eq, Structural)]
pub struct DescriptorEntry {
    pub owner: BtUuid,
    pub descriptor: Descriptor,
}

/// A registered service with the characteristics it lists, write-capable
/// ones and read-capable ones, as the application gave them.
pub struct ServiceEntry {
    pub service_id: ServiceId,
    pub num_handles: u16,
    pub write_chars: Vec<Characteristic>,
    pub read_chars: Vec<Characteristic>,
}

pub open spec fn char_key() -> spec_fn(CharEntry) -> BtUuid {
    |e: CharEntry| e.characteristic.uuid
}

pub open spec fn service_key() -> spec_fn(ServiceEntry) -> BtUuid {
    |e: ServiceEntry| e.service_id.uuid
}

pub open spec fn owned_by(owner: BtUuid) -> spec_fn(DescriptorEntry) -> bool {
    |d: DescriptorEntry| d.owner == owner
}

pub open spec fn not_owned_by(owner: BtUuid) -> spec_fn(DescriptorEntry) -> bool {
    |d: DescriptorEntry| d.owner != owner
}

pub open spec fn descriptor_of() -> spec_fn(DescriptorEntry) -> Descriptor {
    |d: DescriptorEntry| d.descriptor
}

pub open spec fn attach_to(owner: BtUuid) -> spec_fn(Descriptor) -> DescriptorEntry {
    |d: Descriptor| DescriptorEntry { owner, descriptor: d }
}

pub open spec fn def_characteristic() -> spec_fn(CharacteristicDef) -> Characteristic {
    |d: CharacteristicDef| d.characteristic
}

/// The entry that registering `c` in the read role (`read`) or the write
/// role (`!read`) leaves: the new description, with the roles it already had.
pub open spec fn merged(chars: Seq<CharEntry>, c: Characteristic, read: bool) -> CharEntry {
    match lookup(chars, char_key(), c.uuid) {
        Some(e) => CharEntry { characteristic: c, readable: read || e.readable, writable: !read || e.writable },
        None => CharEntry { characteristic: c, readable: read, writable: !read },
    }
}

/// The descriptor table with the descriptors of `owner` replaced by `ds`.
pub open spec fn replace_descriptors(
    descs: Seq<DescriptorEntry>,
    owner: BtUuid,
    ds: Seq<Descriptor>,
) -> Seq<DescriptorEntry> {
    descs.filter(not_owned_by(owner)) + ds.map_values(attach_to(owner))
}

/// The characteristic table after registering each of `defs`, in order.
pub open spec fn registered_chars(chars: Seq<CharEntry>, defs: Seq<CharacteristicDef>, read: bool) -> Seq<CharEntry>
    decreases defs.len(),
{
    if defs.len() == 0 {
        chars
    } else {
        let prev = registered_chars(chars, defs.drop_last(), read);
        upsert(prev, char_key(), merged(prev, defs.last().characteristic, read))
    }
}

/// The descriptor table after registering each of `defs`, in order.
pub open spec fn registered_descriptors(descs: Seq<DescriptorEntry>, defs: Seq<CharacteristicDef>) -> Seq<DescriptorEntry>
    decreases defs.len(),
{
    if defs.len() == 0 {
        descs
    } else {
        replace_descriptors(
            registered_descriptors(descs, defs.drop_last()),
            defs.last().characteristic.uuid,
            defs.last().descriptors@,
        )
    }
}

/// The descriptor registry and the fixed configuration of the GATT
/// application: services by UUID, characteristics by UUID with their
/// read and write roles, and the descriptors of each characteristic.
pub struct BLEApp {
    pub app_id: u16,
    pub device_name: String,
    pub adv_configuration: AdvConfig,
    pub services: Vec<ServiceEntry>,
    pub characteristics: Vec<CharEntry>,
    pub descriptors: Vec<DescriptorEntry>,
}

impl BLEApp {
    /// Services and characteristics are each keyed by UUID.
    pub open spec fn wf(&self) -> bool {
        &&& unique_by(self.services@, service_key())
        &&& unique_by(self.characteristics@, char_key())
    }

    /// A registry with no services, advertising under `device_name`, or
    /// under the name "ESP32" when none is given.
    pub fn new(app_id: u16, adv_configuration: AdvConfig, device_name: Option<String>) -> (r: BLEApp)
        ensures
            r.wf(),
            r.app_id == app_id,
            r.adv_configuration == adv_configuration,
            r.device_name@ == (match device_name {
                Some(n) => n@,
                None => "ESP32"@,
            }),
            r.services@.len() == 0,
            r.characteristics@.len() == 0,
            r.descriptors@.len() == 0,
    {
        let device_name = match device_name {
            Some(n) => n,
            None => "ESP32".to_string(),
        };
        BLEApp {
            app_id,
            device_name,
            adv_configuration,
            services: Vec::new(),
            characteristics: Vec::new(),
            descriptors: Vec::new(),
        }
    }

    /// The position of the characteristic with the given UUID.
    pub fn characteristic_index(&self, uuid: BtUuid) -> (r: Option<usize>)
        requires
            self.wf(),
        ensures
            match r {
                Some(i) => {
                    &&& i < self.characteristics@.len()
                    &&& has_key(self.characteristics@, char_key(), uuid)
                    &&& index_of(self.characteristics@, char_key(), uuid) == i
                    &&& lookup(self.characteristics@, char_key(), uuid) == Some(self.characteristics@[i as int])
                },
                None => !has_key(self.characteristics@, char_key(), uuid),
            },
    {
        let mut i: usize = 0;
        while i < self.characteristics.len()
            invariant
                self.wf(),
                i <= self.characteristics@.len(),
                forall|k: int| 0 <= k < i ==> self.characteristics@[k].characteristic.uuid != uuid,
            decreases self.characteristics@.len() - i,
        {
            if self.characteristics[i].characteristic.uuid == uuid {
                proof {
                    lemma_index_of_unique(self.characteristics@, char_key(), i as int);
                }
                return Some(i);
            }
            i = i + 1;
        }
        None
    }

    /// The registered characteristic with the given UUID, if any.
    pub fn find_characteristic(&self, uuid: BtUuid) -> (r: Option<CharEntry>)
        requires
            self.wf(),
        ensures
            r == lookup(self.characteristics@, char_key(), uuid),
    {
        match self.characteristic_index(uuid) {
            Some(i) => Some(self.characteristics[i]),
            None => None,
        }
    }

    /// The position of the service with the given UUID.
    pub fn service_index(&self, uuid: BtUuid) -> (r: Option<usize>)
        requires
            self.wf(),
        ensures
            match r {
                Some(i) => {
                    &&& i < self.services@.len()
                    &&& has_key(self.services@, service_key(), uuid)
                    &&& index_of(self.services@, service_key(), uuid) == i
                    &&& lookup(self.services@, service_key(), uuid) == Some(self.services@[i as int])
                },
                None => !has_key(self.services@, service_key(), uuid),
            },
    {
        let mut i: usize = 0;
        while i < self.services.len()
            invariant
                self.wf(),
                i <= self.services@.len(),
                forall|k: int| 0 <= k < i ==> self.services@[k].service_id.uuid != uuid,
            decreases self.services@.len() - i,
        {
            if self.services[i].service_id.uuid == uuid {
                proof {
                    lemma_index_of_unique(self.services@, service_key(), i as int);
                }
                return Some(i);
            }
            i = i + 1;
        }
        None
    }

    /// The descriptors registered for the characteristic `owner`, in order.
    pub fn descriptors_of(&self, owner: BtUuid) -> (r: Vec<Descriptor>)
        ensures
            r@ == self.descriptors@.filter(owned_by(owner)).map_values(descriptor_of()),
    {
        let mut r: Vec<Descriptor> = Vec::new();
        let mut i: usize = 0;
        while i < self.descriptors.len()
            invariant
                i <= self.descriptors@.len(),
                r@ == self.descriptors@.take(i as int).filter(owned_by(owner)).map_values(descriptor_of()),
            decreases self.descriptors@.len() - i,
        {
            proof {
                lemma_filter_prefix_step(self.descriptors@, owned_by(owner), i as int);
            }
            let d = self.descriptors[i];
            if d.owner == owner {
                r.push(d.descriptor);
            }
            i = i + 1;
            proof {
                assert(r@ =~= self.descriptors@.take(i as int).filter(owned_by(owner)).map_values(descriptor_of()));
            }
        }
        proof {
            assert(self.descriptors@.take(i as int) =~= self.descriptors@);
        }
        r
    }

    /// Registers one characteristic in the read role (`read`) or the write
    /// role (`!read`), replacing an earlier registration of its UUID and the
    /// descriptors that came with it.
    fn register_characteristic(&mut self, def: &CharacteristicDef, read: bool)
        requires
            old(self).wf(),
        ensures
            final(self).wf(),
            final(self).characteristics@ == upsert(
                old(self).characteristics@,
                char_key(),
                merged(old(self).characteristics@, def.characteristic, read),
            ),
            final(self).descriptors@ == replace_descriptors(
                old(self).descriptors@,
                def.characteristic.uuid,
                def.descriptors@,
            ),
            final(self).services@ == old(self).services@,
            final(self).app_id == old(self).app_id,
            final(self).device_name == old(self).device_name,
            final(self).adv_configuration == old(self).adv_configuration,
    {
        let c = def.characteristic;
        let ghost chars0 = self.characteristics@;
        proof {
            lemma_upsert(chars0, char_key(), merged(chars0, c, read));
        }
        match self.characteristic_index(c.uuid) {
            Some(i) => {
                let e = self.characteristics[i];
                proof {
                    lemma_index_of_unique(chars0, char_key(), i as int);
                }
                self.characteristics.set(i, CharEntry {
                    characteristic: c,
                    readable: read || e.readable,
                    writable: !read || e.writable,
                });
            },
            None => {
                self.characteristics.push(CharEntry { characteristic: c, readable: read, writable: !read });
            },
        }
        assert(self.characteristics@ == upsert(chars0, char_key(), merged(chars0, c, read)));
        let ghost descs0 = self.descriptors@;
        let mut kept: Vec<DescriptorEntry> = Vec::new();
        let mut i: usize = 0;
        while i < self.descriptors.len()
            invariant
                i <= self.descriptors@.len(),
                self.descriptors@ == descs0,
                kept@ == descs0.take(i as int).filter(not_owned_by(c.uuid)),
            decreases self.descriptors@.len() - i,
        {
            proof {
                lemma_filter_prefix_step(descs0, not_owned_by(c.uuid), i as int);
            }
            let d = self.descriptors[i];
            if d.owner != c.uuid {
                kept.push(d);
            }
            i = i + 1;
        }
        proof {
            assert(descs0.take(i as int) =~= descs0);
        }
        let ghost base = kept@;
        let mut j: usize = 0;
        while j < def.descriptors.len()
            invariant
                j <= def.descriptors@.len(),
                kept@ == base + def.descriptors@.take(j as int).map_values(attach_to(c.uuid)),
            decreases def.descriptors@.len() - j,
        {
            kept.push(DescriptorEntry { owner: c.uuid, descriptor: def.descriptors[j] });
            j = j + 1;
            proof {
                assert(kept@ =~= base + def.descriptors@.take(j as int).map_values(attach_to(c.uuid)));
            }
        }
        proof {
            assert(def.descriptors@.take(j as int) =~= def.descriptors@);
        }
        self.descriptors = kept;
    }

    /// Registers the characteristics of `defs` in one role, in order.
    fn register_all(&mut self, defs: &Vec<CharacteristicDef>, read: bool) -> (r: Vec<Characteristic>)
        requires
            old(self).wf(),
        ensures
            final(self).wf(),
            r@ == defs@.map_values(def_characteristic()),
            final(self).characteristics@ == registered_chars(old(self).characteristics@, defs@, read),
            final(self).descriptors@ == registered_descriptors(old(self).descriptors@, defs@),
            final(self).services@ == old(self).services@,
            final(self).app_id == old(self).app_id,
            final(self).device_name == old(self).device_name,
            final(self).adv_configuration == old(self).adv_configuration,
    {
        let ghost chars0 = self.characteristics@;
        let ghost descs0 = self.descriptors@;
        let mut r: Vec<Characteristic> = Vec::new();
        let mut i: usize = 0;
        while i < defs.len()
            invariant
                self.wf(),
                i <= defs@.len(),
                r@ == defs@.take(i as int).map_values(def_characteristic()),
                self.characteristics@ == registered_chars(chars0, defs@.take(i as int), read),
                self.descriptors@ == registered_descriptors(descs0, defs@.take(i as int)),
                self.services@ == old(self).services@,
                self.app_id == old(self).app_id,
                self.device_name == old(self).device_name,
                self.adv_configuration == old(self).adv_configuration,
            decreases defs@.len() - i,
        {
            let def = &defs[i];
            r.push(def.characteristic);
            self.register_characteristic(def, read);
            proof {
                assert(defs@.take(i + 1).drop_last() =~= defs@.take(i as int));
                assert(defs@.take(i + 1).last() == defs@[i as int]);
            }
            i = i + 1;
            proof {
                assert(r@ =~= defs@.take(i as int).map_values(def_characteristic()));
            }
        }
        proof {
            assert(defs@.take(i as int) =~= defs@);
        }
        r
    }

    /// Adds a service to the registry: its characteristics are registered
    /// by UUID in their roles (read-capable first, then write-capable), and
    /// the service replaces an earlier one with the same UUID.
    pub fn add_service(&mut self, service: Service)
        requires
            old(self).wf(),
        ensures
            final(self).wf(),
            final(self).characteristics@ == registered_chars(
                registered_chars(old(self).characteristics@, service.read_characteristics@, true),
                service.write_characteristics@,
                false,
            ),
            final(self).descriptors@ == registered_descriptors(
                registered_descriptors(old(self).descriptors@, service.read_characteristics@),
                service.write_characteristics@,
            ),
            has_key(final(self).services@, service_key(), service.service_id.uuid),
            ({
                let e = lookup(final(self).services@, service_key(), service.service_id.uuid)->Some_0;
                &&& e.service_id == service.service_id
                &&& e.num_handles == service.num_handles
                &&& e.write_chars@ == service.write_characteristics@.map_values(def_characteristic())
                &&& e.read_chars@ == service.read_characteristics@.map_values(def_characteristic())
            }),
            forall|k: BtUuid| k != service.service_id.uuid ==>
                lookup(final(self).services@, service_key(), k) == lookup(old(self).services@, service_key(), k),
            forall|k: BtUuid| has_key(final(self).services@, service_key(), k) <==>
                (k == service.service_id.uuid || has_key(old(self).services@, service_key(), k)),
            final(self).app_id == old(self).app_id,
            final(self).device_name == old(self).device_name,
            final(self).adv_configuration == old(self).adv_configuration,
    {
        let read_chars = self.register_all(&service.read_characteristics, true);
        let write_chars = self.register_all(&service.write_characteristics, false);
        let entry = ServiceEntry {
            service_id: service.service_id,
            num_handles: service.num_handles,
            write_chars,
            read_chars,
        };
        let ghost services0 = self.services@;
        proof {
            lemma_upsert(services0, service_key(), entry);
        }
        match self.service_index(service.service_id.uuid) {
            Some(i) => {
                self.services.set(i, entry);
            },
            None => {
                self.services.push(entry);
            },
        }
        assert(self.services@ == upsert(services0, service_key(), entry));
    }
}

} // verus!
