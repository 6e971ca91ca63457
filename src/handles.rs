use vstd::prelude::*;
use crate::gatt::CCCD_UUID16;
use crate::table::{has_key, index_of, lemma_filter_prefix_step, lemma_filter_unique, lemma_index_of_unique, lemma_upsert, lookup, unique_by, upsert};
use crate::uuid::BtUuid;

verus! {

/// The stack handle of a created service.
#[derive(Clone, Copy, Debug, PartialEq, Eq, Structural)]
pub struct ServiceHandle {
    pub handle: u16,
    pub uuid: BtUuid,
}

/// The stack handle of an attribute of a service, and the UUID of the
/// characteristic it stands for (for a configuration descriptor: the
/// characteristic the descriptor configures).
#[derive(Clone, Copy, Debug, PartialEq, Eq, Structural)]
pub struct AttrHandle {
    pub handle: u16,
    pub service_handle: u16,
    pub uuid: BtUuid,
}

pub open spec fn service_handle_key() -> spec_fn(ServiceHandle) -> u16 {
    |e: ServiceHandle| e.handle
}

pub open spec fn attr_key() -> spec_fn(AttrHandle) -> u16 {
    |e: AttrHandle| e.handle
}

pub open spec fn outside_service(service_handle: u16) -> spec_fn(AttrHandle) -> bool {
    |e: AttrHandle| e.service_handle != service_handle
}

pub open spec fn other_service(service_handle: u16) -> spec_fn(ServiceHandle) -> bool {
    |e: ServiceHandle| e.handle != service_handle
}

/// Runtime map from stack handles to registry UUIDs, filled as the stack
/// confirms creations and emptied as it reports teardowns.
pub struct HandleMap {
    pub services: Vec<ServiceHandle>,
    pub attributes: Vec<AttrHandle>,
    pub cccds: Vec<AttrHandle>,
    /// The characteristic the stack confirmed last; descriptors the stack
    /// adds next belong to it.
    pub last_characteristic: Option<AttrHandle>,
}

/// The elements of `s` outside service `service_handle`, in order.
fn retain_attrs(s: &Vec<AttrHandle>, service_handle: u16) -> (r: Vec<AttrHandle>)
    ensures
        r@ == s@.filter(outside_service(service_handle)),
{
    let mut r: Vec<AttrHandle> = Vec::new();
    let mut i: usize = 0;
    while i < s.len()
        invariant
            i <= s@.len(),
            r@ == s@.take(i as int).filter(outside_service(service_handle)),
        decreases s@.len() - i,
    {
        proof {
            lemma_filter_prefix_step(s@, outside_service(service_handle), i as int);
        }
        if s[i].service_handle != service_handle {
            r.push(s[i]);
        }
        i = i + 1;
    }
    proof {
        assert(s@.take(i as int) =~= s@);
    }
    r
}

/// The position of the element with the given handle.
fn attr_index(s: &Vec<AttrHandle>, handle: u16) -> (r: Option<usize>)
    requires
        unique_by(s@, attr_key()),
    ensures
        match r {
            Some(i) => {
                &&& i < s@.len()
                &&& has_key(s@, attr_key(), handle)
                &&& index_of(s@, attr_key(), handle) == i
                &&& lookup(s@, attr_key(), handle) == Some(s@[i as int])
            },
            None => !has_key(s@, attr_key(), handle),
        },
{
    let mut i: usize = 0;
    while i < s.len()
        invariant
            unique_by(s@, attr_key()),
            i <= s@.len(),
            forall|k: int| 0 <= k < i ==> s@[k].handle != handle,
        decreases s@.len() - i,
    {
        if s[i].handle == handle {
            proof {
                lemma_index_of_unique(s@, attr_key(), i as int);
            }
            return Some(i);
        }
        i = i + 1;
    }
    None
}

/// Puts `e` in place of the element with its handle, or appends it.
fn upsert_attr(s: &mut Vec<AttrHandle>, e: AttrHandle)
    requires
        unique_by(old(s)@, attr_key()),
    ensures
        unique_by(final(s)@, attr_key()),
        final(s)@ == upsert(old(s)@, attr_key(), e),
{
    proof {
        lemma_upsert(old(s)@, attr_key(), e);
    }
    match attr_index(s, e.handle) {
        Some(i) => s.set(i, e),
        None => s.push(e),
    }
}

/// The position of the service with the given handle.
fn service_position(s: &Vec<ServiceHandle>, handle: u16) -> (r: Option<usize>)
    requires
        unique_by(s@, service_handle_key()),
    ensures
        match r {
            Some(i) => {
                &&& i < s@.len()
                &&& has_key(s@, service_handle_key(), handle)
                &&& index_of(s@, service_handle_key(), handle) == i
            },
            None => !has_key(s@, service_handle_key(), handle),
        },
{
    let mut i: usize = 0;
    while i < s.len()
        invariant
            unique_by(s@, service_handle_key()),
            i <= s@.len(),
            forall|k: int| 0 <= k < i ==> s@[k].handle != handle,
        decreases s@.len() - i,
    {
        if s[i].handle == handle {
            proof {
                lemma_index_of_unique(s@, service_handle_key(), i as int);
            }
            return Some(i);
        }
        i = i + 1;
    }
    None
}

impl HandleMap {
    pub open spec fn wf(&self) -> bool {
        &&& unique_by(self.services@, service_handle_key())
        &&& unique_by(self.attributes@, attr_key())
        &&& unique_by(self.cccds@, attr_key())
    }

    pub fn new() -> (r: HandleMap)
        ensures
            r.wf(),
            r.services@.len() == 0,
            r.attributes@.len() == 0,
            r.cccds@.len() == 0,
            r.last_characteristic is None,
    {
        HandleMap {
            services: Vec::new(),
            attributes: Vec::new(),
            cccds: Vec::new(),
            last_characteristic: None,
        }
    }

    /// Records that the stack created service `uuid` under `handle`.
    pub fn record_service(&mut self, handle: u16, uuid: BtUuid)
        requires
            old(self).wf(),
        ensures
            final(self).wf(),
            final(self).services@ == upsert(old(self).services@, service_handle_key(), ServiceHandle { handle, uuid }),
            final(self).attributes@ == old(self).attributes@,
            final(self).cccds@ == old(self).cccds@,
            final(self).last_characteristic == old(self).last_characteristic,
    {
        let e = ServiceHandle { handle, uuid };
        proof {
            lemma_upsert(self.services@, service_handle_key(), e);
        }
        match service_position(&self.services, handle) {
            Some(i) => self.services.set(i, e),
            None => self.services.push(e),
        }
    }

    /// Records that the stack added characteristic `uuid` to service
    /// `service_handle` under `handle`.
    pub fn record_attribute(&mut self, handle: u16, service_handle: u16, uuid: BtUuid)
        requires
            old(self).wf(),
        ensures
            final(self).wf(),
            final(self).attributes@ == upsert(old(self).attributes@, attr_key(), AttrHandle { handle, service_handle, uuid }),
            final(self).last_characteristic == Some(AttrHandle { handle, service_handle, uuid }),
            final(self).services@ == old(self).services@,
            final(self).cccds@ == old(self).cccds@,
    {
        let e = AttrHandle { handle, service_handle, uuid };
        upsert_attr(&mut self.attributes, e);
        self.last_characteristic = Some(e);
    }

    /// Records a descriptor the stack added to service `service_handle`:
    /// a configuration descriptor is mapped to the characteristic added
    /// last in that service; other descriptors are not tracked.
    pub fn record_descriptor(&mut self, handle: u16, service_handle: u16, descr_uuid: BtUuid)
        requires
            old(self).wf(),
        ensures
            final(self).wf(),
            final(self).cccds@ == (match old(self).last_characteristic {
                Some(c) if descr_uuid == BtUuid::Uuid16(CCCD_UUID16) && c.service_handle == service_handle =>
                    upsert(old(self).cccds@, attr_key(), AttrHandle { handle, service_handle, uuid: c.uuid }),
                _ => old(self).cccds@,
            }),
            final(self).services@ == old(self).services@,
            final(self).attributes@ == old(self).attributes@,
            final(self).last_characteristic == old(self).last_characteristic,
    {
        let is_cccd = match descr_uuid {
            BtUuid::Uuid16(v) => v == CCCD_UUID16,
            _ => false,
        };
        match self.last_characteristic {
            Some(c) => {
                if is_cccd && c.service_handle == service_handle {
                    upsert_attr(&mut self.cccds, AttrHandle { handle, service_handle, uuid: c.uuid });
                }
            },
            None => {},
        }
    }

    /// Forgets the attributes and configuration descriptors of a deleted
    /// service.
    pub fn remove_service_attributes(&mut self, service_handle: u16)
        requires
            old(self).wf(),
        ensures
            final(self).wf(),
            final(self).attributes@ == old(self).attributes@.filter(outside_service(service_handle)),
            final(self).cccds@ == old(self).cccds@.filter(outside_service(service_handle)),
            final(self).services@ == old(self).services@,
            final(self).last_characteristic == old(self).last_characteristic,
    {
        proof {
            lemma_filter_unique(self.attributes@, attr_key(), outside_service(service_handle));
            lemma_filter_unique(self.cccds@, attr_key(), outside_service(service_handle));
        }
        self.attributes = retain_attrs(&self.attributes, service_handle);
        self.cccds = retain_attrs(&self.cccds, service_handle);
    }

    /// Forgets the handle of an unregistered service.
    pub fn remove_service(&mut self, service_handle: u16)
        requires
            old(self).wf(),
        ensures
            final(self).wf(),
            final(self).services@ == old(self).services@.filter(other_service(service_handle)),
            final(self).attributes@ == old(self).attributes@,
            final(self).cccds@ == old(self).cccds@,
            final(self).last_characteristic == old(self).last_characteristic,
    {
        proof {
            lemma_filter_unique(self.services@, service_handle_key(), other_service(service_handle));
        }
        let ghost s0 = self.services@;
        let mut r: Vec<ServiceHandle> = Vec::new();
        let mut i: usize = 0;
        while i < self.services.len()
            invariant
                i <= self.services@.len(),
                self.services@ == s0,
                r@ == s0.take(i as int).filter(other_service(service_handle)),
            decreases self.services@.len() - i,
        {
            proof {
                lemma_filter_prefix_step(s0, other_service(service_handle), i as int);
            }
            if self.services[i].handle != service_handle {
                r.push(self.services[i]);
            }
            i = i + 1;
        }
        proof {
            assert(s0.take(i as int) =~= s0);
        }
        self.services = r;
    }

    /// The characteristic that `handle` stands for, if any.
    pub fn attribute(&self, handle: u16) -> (r: Option<AttrHandle>)
        requires
            self.wf(),
        ensures
            r == lookup(self.attributes@, attr_key(), handle),
    {
        match attr_index(&self.attributes, handle) {
            Some(i) => Some(self.attributes[i]),
            None => None,
        }
    }

    /// The configuration descriptor that `handle` stands for, if any.
    pub fn cccd(&self, handle: u16) -> (r: Option<AttrHandle>)
        requires
            self.wf(),
        ensures
            r == lookup(self.cccds@, attr_key(), handle),
    {
        match attr_index(&self.cccds, handle) {
            Some(i) => Some(self.cccds[i]),
            None => None,
        }
    }

    /// A handle under which characteristic `uuid` was added, if any.
    pub fn handle_of(&self, uuid: BtUuid) -> (r: Option<u16>)
        ensures
            match r {
                Some(h) => exists|i: int|
                    0 <= i < self.attributes@.len() && self.attributes@[i].uuid == uuid
                        && self.attributes@[i].handle == h,
                None => forall|i: int| 0 <= i < self.attributes@.len() ==> self.attributes@[i].uuid != uuid,
            },
    {
        let mut i: usize = 0;
        while i < self.attributes.len()
            invariant
                i <= self.attributes@.len(),
                forall|k: int| 0 <= k < i ==> self.attributes@[k].uuid != uuid,
            decreases self.attributes@.len() - i,
        {
            if self.attributes[i].uuid == uuid {
                return Some(self.attributes[i].handle);
            }
            i = i + 1;
        }
        None
    }
}

} // verus!
