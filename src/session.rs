use vstd::prelude::*;
use crate::app::{char_key, descriptor_of, owned_by, service_key, BLEApp, ServiceEntry};
use crate::connections::{disconnected, mtu_recorded, other_than, ConnectionTable, Subscription, MAX_CONNECTIONS};
use crate::events::{Action, AppError, AttrValue, GapEvent, GattsEvent, STATUS_OK};
use crate::gatt::{Characteristic, Descriptor, GattStatus, CCCD_UUID16, MAX_ATTR_LEN, SUBSCRIBE_VALUE};
use crate::handles::{attr_key, outside_service, other_service, service_handle_key, AttrHandle, HandleMap, ServiceHandle};
use crate::slot::ConfirmationSlot;
use crate::table::{has_key, lookup, upsert};
use crate::handlers::HandlerError;
use crate::uuid::{BdAddr, BtUuid};

verus! {

/// Connection parameters requested for every admitted peer.
pub const CONN_MIN_INTERVAL: u16 = 10;
pub const CONN_MAX_INTERVAL: u16 = 20;
pub const CONN_LATENCY: u16 = 0;
pub const CONN_TIMEOUT: u16 = 400;

/// The session state that stack events change: the connection table, the
/// handle map, the application's GATT interface once registered, and the
/// pending-indication slot.
pub struct ConnectedState {
    pub connections: ConnectionTable,
    pub gatt_if: Option<u8>,
    pub handles: HandleMap,
    pub notify_confirmed: ConfirmationSlot,
}

impl ConnectedState {
    pub open spec fn wf(&self) -> bool {
        &&& self.connections.wf()
        &&& self.handles.wf()
    }

    pub fn new() -> (r: ConnectedState)
        ensures
            r.wf(),
            r.connections.conns().len() == 0,
            r.connections.subscriptions@.len() == 0,
            r.gatt_if is None,
            r.handles.services@.len() == 0,
            r.handles.attributes@.len() == 0,
            r.handles.cccds@.len() == 0,
            r.handles.last_characteristic is None,
            r.notify_confirmed.owner is None,
    {
        ConnectedState {
            connections: ConnectionTable::new(),
            gatt_if: None,
            handles: HandleMap::new(),
            notify_confirmed: ConfirmationSlot::new(),
        }
    }
}

pub open spec fn create_action(gatt_if: u8) -> spec_fn(ServiceEntry) -> Action {
    |s: ServiceEntry| Action::CreateService { gatt_if, service_id: s.service_id, num_handles: s.num_handles }
}

pub open spec fn add_characteristic_action(service_handle: u16) -> spec_fn(Characteristic) -> Action {
    |c: Characteristic| Action::AddCharacteristic { service_handle, characteristic: c }
}

pub open spec fn add_descriptor_action(service_handle: u16) -> spec_fn(Descriptor) -> Action {
    |d: Descriptor| Action::AddDescriptor { service_handle, descriptor: d }
}

pub open spec fn has_uuid(s: Seq<Characteristic>, uuid: BtUuid) -> bool {
    exists|i: int| 0 <= i < s.len() && s[i].uuid == uuid
}

/// `acc` followed by the characteristics of `s` whose UUID is not yet
/// listed, in order.
pub open spec fn dedup_onto(acc: Seq<Characteristic>, s: Seq<Characteristic>) -> Seq<Characteristic>
    decreases s.len(),
{
    if s.len() == 0 {
        acc
    } else {
        let p = dedup_onto(acc, s.drop_last());
        if has_uuid(p, s.last().uuid) {
            p
        } else {
            p.push(s.last())
        }
    }
}

/// The characteristics to add for a created service: the write-capable
/// ones, then the read-capable ones, each UUID once.
pub open spec fn creation_list(e: ServiceEntry) -> Seq<Characteristic> {
    dedup_onto(dedup_onto(Seq::empty(), e.write_chars@), e.read_chars@)
}

/// The two little-endian bytes of a configuration write as a number.
pub open spec fn le_u16(value: Seq<u8>) -> int {
    value[0] as int + 256 * value[1] as int
}

/// The acknowledgment of a write: an empty success for a simple write; for
/// a prepared write, the handle, offset and value echoed back, or an
/// invalid-length status for a value the stack cannot carry.
pub open spec fn write_ack(
    a: Action,
    gatt_if: u8,
    conn_id: u16,
    trans_id: u32,
    handle: u16,
    offset: u16,
    is_prep: bool,
    value: Seq<u8>,
) -> bool {
    match a {
        Action::SendResponse { gatt_if: g, conn_id: c, trans_id: t, status, response: v } => {
            &&& g == gatt_if
            &&& c == conn_id
            &&& t == trans_id
            &&& if !is_prep {
                status == GattStatus::Success && v is None
            } else if value.len() <= MAX_ATTR_LEN {
                &&& status == GattStatus::Success
                &&& v matches Some(av)
                &&& av.handle == handle
                &&& av.offset == offset
                &&& av.value@ == value
            } else {
                status == GattStatus::InvalidAttrLen && v is None
            }
        },
        _ => false,
    }
}

/// An event whose status reports failure changes nothing and issues nothing.
pub open spec fn refused(
    old: ConnectedState,
    new: ConnectedState,
    acts0: Seq<Action>,
    acts: Seq<Action>,
    r: Result<(), AppError>,
    status: u32,
) -> bool {
    &&& r == Err::<(), AppError>(AppError::GattStatus(status))
    &&& new == old
    &&& acts == acts0
}

impl BLEApp {
    /// The commands that follow the registration of this application:
    /// name, advertising parameters, then one creation per service.
    pub open spec fn registration_actions(&self, gatt_if: u8) -> Seq<Action> {
        seq![
            Action::SetDeviceName { name: self.device_name },
            Action::SetAdvConf { config: self.adv_configuration },
        ] + self.services@.map_values(create_action(gatt_if))
    }

    pub open spec fn registered_post(
        &self,
        old: ConnectedState,
        new: ConnectedState,
        acts0: Seq<Action>,
        acts: Seq<Action>,
        r: Result<(), AppError>,
        gatt_if: u8,
        status: u32,
        app_id: u16,
    ) -> bool {
        if status != STATUS_OK {
            refused(old, new, acts0, acts, r, status)
        } else if app_id != self.app_id {
            r is Ok && new == old && acts == acts0
        } else {
            &&& r is Ok
            &&& new == ConnectedState { gatt_if: Some(gatt_if), ..old }
            &&& acts == acts0 + self.registration_actions(gatt_if)
        }
    }

    pub open spec fn created_post(
        &self,
        old: ConnectedState,
        new: ConnectedState,
        acts0: Seq<Action>,
        acts: Seq<Action>,
        r: Result<(), AppError>,
        status: u32,
        service_handle: u16,
        uuid: BtUuid,
    ) -> bool {
        if status != STATUS_OK {
            refused(old, new, acts0, acts, r, status)
        } else {
            match lookup(self.services@, service_key(), uuid) {
                None => {
                    &&& r == Err::<(), AppError>(AppError::ServiceNotFound)
                    &&& new == old
                    &&& acts == acts0.push(Action::StartService { service_handle })
                },
                Some(e) => {
                    &&& r is Ok
                    &&& new.handles.services@ == upsert(
                        old.handles.services@,
                        service_handle_key(),
                        ServiceHandle { handle: service_handle, uuid },
                    )
                    &&& new.handles.attributes@ == old.handles.attributes@
                    &&& new.handles.cccds@ == old.handles.cccds@
                    &&& new.handles.last_characteristic == old.handles.last_characteristic
                    &&& new.connections == old.connections
                    &&& new.gatt_if == old.gatt_if
                    &&& new.notify_confirmed == old.notify_confirmed
                    &&& acts == acts0.push(Action::StartService { service_handle })
                        + creation_list(e).map_values(add_characteristic_action(service_handle))
                },
            }
        }
    }

    pub open spec fn characteristic_added_post(
        &self,
        old: ConnectedState,
        new: ConnectedState,
        acts0: Seq<Action>,
        acts: Seq<Action>,
        r: Result<(), AppError>,
        status: u32,
        attr_handle: u16,
        service_handle: u16,
        uuid: BtUuid,
    ) -> bool {
        if status != STATUS_OK {
            refused(old, new, acts0, acts, r, status)
        } else if !has_key(self.characteristics@, char_key(), uuid) {
            &&& r == Err::<(), AppError>(AppError::CharacteristicNotFound)
            &&& new == old
            &&& acts == acts0
        } else {
            &&& r is Ok
            &&& new.handles.attributes@ == upsert(
                old.handles.attributes@,
                attr_key(),
                AttrHandle { handle: attr_handle, service_handle, uuid },
            )
            &&& new.handles.last_characteristic == Some(AttrHandle { handle: attr_handle, service_handle, uuid })
            &&& new.handles.services@ == old.handles.services@
            &&& new.handles.cccds@ == old.handles.cccds@
            &&& new.connections == old.connections
            &&& new.gatt_if == old.gatt_if
            &&& new.notify_confirmed == old.notify_confirmed
            &&& acts == acts0 + self.descriptors@.filter(owned_by(uuid)).map_values(descriptor_of()).map_values(
                add_descriptor_action(service_handle),
            )
        }
    }

    pub fn check_gatt_status(status: u32) -> (r: Result<(), AppError>)
        ensures
            r == (if status == STATUS_OK {
                Ok::<(), AppError>(())
            } else {
                Err(AppError::GattStatus(status))
            }),
    {
        if status == STATUS_OK {
            Ok(())
        } else {
            Err(AppError::GattStatus(status))
        }
    }

    pub fn check_bt_status(status: u32) -> (r: Result<(), AppError>)
        ensures
            r == (if status == STATUS_OK {
                Ok::<(), AppError>(())
            } else {
                Err(AppError::BtStatus(status))
            }),
    {
        if status == STATUS_OK {
            Ok(())
        } else {
            Err(AppError::BtStatus(status))
        }
    }

    /// Advertising starts only once the stack has accepted the
    /// advertising parameters.
    pub fn on_gap_event(&self, event: GapEvent, actions: &mut Vec<Action>) -> (r: Result<(), AppError>)
        ensures
            match event {
                GapEvent::AdvertisingConfigured { status } => if status == STATUS_OK {
                    r is Ok && final(actions)@ == old(actions)@.push(Action::StartAdvertising)
                } else {
                    r == Err::<(), AppError>(AppError::BtStatus(status)) && final(actions)@ == old(actions)@
                },
                GapEvent::Other => r is Ok && final(actions)@ == old(actions)@,
            },
    {
        match event {
            GapEvent::AdvertisingConfigured { status } => {
                Self::check_bt_status(status)?;
                actions.push(Action::StartAdvertising);
                Ok(())
            },
            GapEvent::Other => Ok(()),
        }
    }

    fn on_service_registered(
        &self,
        state: &mut ConnectedState,
        gatt_if: u8,
        status: u32,
        app_id: u16,
        actions: &mut Vec<Action>,
    ) -> (r: Result<(), AppError>)
        ensures
            self.registered_post(*old(state), *final(state), old(actions)@, final(actions)@, r, gatt_if, status, app_id),
    {
        Self::check_gatt_status(status)?;
        if app_id != self.app_id {
            return Ok(());
        }
        let ghost acts0 = actions@;
        actions.push(Action::SetDeviceName { name: self.device_name.clone() });
        actions.push(Action::SetAdvConf { config: self.adv_configuration });
        let mut i: usize = 0;
        while i < self.services.len()
            invariant
                i <= self.services@.len(),
                actions@ == acts0 + seq![
                    Action::SetDeviceName { name: self.device_name },
                    Action::SetAdvConf { config: self.adv_configuration },
                ] + self.services@.take(i as int).map_values(create_action(gatt_if)),
            decreases self.services@.len() - i,
        {
            let s = &self.services[i];
            actions.push(Action::CreateService { gatt_if, service_id: s.service_id, num_handles: s.num_handles });
            i = i + 1;
            proof {
                assert(self.services@.take(i as int).map_values(create_action(gatt_if))
                    =~= self.services@.take(i - 1).map_values(create_action(gatt_if)).push(
                        create_action(gatt_if)(self.services@[i - 1]),
                    ));
                assert(actions@ =~= acts0 + seq![
                    Action::SetDeviceName { name: self.device_name },
                    Action::SetAdvConf { config: self.adv_configuration },
                ] + self.services@.take(i as int).map_values(create_action(gatt_if)));
            }
        }
        proof {
            assert(self.services@.take(i as int) =~= self.services@);
            assert(actions@ =~= acts0 + self.registration_actions(gatt_if));
        }
        state.gatt_if = Some(gatt_if);
        Ok(())
    }
}

impl BLEApp {
    fn on_service_created(
        &self,
        state: &mut ConnectedState,
        status: u32,
        service_handle: u16,
        uuid: BtUuid,
        actions: &mut Vec<Action>,
    ) -> (r: Result<(), AppError>)
        requires
            self.wf(),
            old(state).wf(),
        ensures
            final(state).wf(),
            self.created_post(*old(state), *final(state), old(actions)@, final(actions)@, r, status, service_handle, uuid),
    {
        Self::check_gatt_status(status)?;
        actions.push(Action::StartService { service_handle });
        let idx = match self.service_index(uuid) {
            Some(i) => i,
            None => {
                return Err(AppError::ServiceNotFound);
            },
        };
        let e = &self.services[idx];
        state.handles.record_service(service_handle, uuid);
        let mut list: Vec<Characteristic> = Vec::new();
        dedup_into(&mut list, &e.write_chars);
        dedup_into(&mut list, &e.read_chars);
        assert(list@ == creation_list(*e));
        let ghost acts1 = actions@;
        let mut i: usize = 0;
        while i < list.len()
            invariant
                i <= list@.len(),
                actions@ == acts1 + list@.take(i as int).map_values(add_characteristic_action(service_handle)),
            decreases list@.len() - i,
        {
            actions.push(Action::AddCharacteristic { service_handle, characteristic: list[i] });
            i = i + 1;
            proof {
                assert(actions@ =~= acts1 + list@.take(i as int).map_values(add_characteristic_action(service_handle)));
            }
        }
        proof {
            assert(list@.take(i as int) =~= list@);
        }
        Ok(())
    }

    fn on_characteristic_added(
        &self,
        state: &mut ConnectedState,
        status: u32,
        attr_handle: u16,
        service_handle: u16,
        uuid: BtUuid,
        actions: &mut Vec<Action>,
    ) -> (r: Result<(), AppError>)
        requires
            self.wf(),
            old(state).wf(),
        ensures
            final(state).wf(),
            self.characteristic_added_post(
                *old(state),
                *final(state),
                old(actions)@,
                final(actions)@,
                r,
                status,
                attr_handle,
                service_handle,
                uuid,
            ),
    {
        Self::check_gatt_status(status)?;
        if self.characteristic_index(uuid).is_none() {
            return Err(AppError::CharacteristicNotFound);
        }
        state.handles.record_attribute(attr_handle, service_handle, uuid);
        let ds = self.descriptors_of(uuid);
        let ghost acts1 = actions@;
        let mut i: usize = 0;
        while i < ds.len()
            invariant
                i <= ds@.len(),
                actions@ == acts1 + ds@.take(i as int).map_values(add_descriptor_action(service_handle)),
            decreases ds@.len() - i,
        {
            actions.push(Action::AddDescriptor { service_handle, descriptor: ds[i] });
            i = i + 1;
            proof {
                assert(actions@ =~= acts1 + ds@.take(i as int).map_values(add_descriptor_action(service_handle)));
            }
        }
        proof {
            assert(ds@.take(i as int) =~= ds@);
        }
        Ok(())
    }
}

impl BLEApp {
    /// What follows a write once it is acknowledged: a write to a
    /// configuration descriptor, from a tracked connection, with a 2-byte
    /// value at offset 0, subscribes (value 0x0002) or unsubscribes (any
    /// other value) that connection, and reports only an actual change; a
    /// write to a characteristic goes to its write handler; a write to an
    /// unknown handle does nothing.
    pub open spec fn write_dispatch(
        &self,
        old: ConnectedState,
        new: ConnectedState,
        acts: Seq<Action>,
        r: Result<(), AppError>,
        conn_id: u16,
        addr: BdAddr,
        handle: u16,
        offset: u16,
        value: Vec<u8>,
    ) -> bool {
        match lookup(old.handles.cccds@, attr_key(), handle) {
            Some(d) => {
                let sub = Subscription { conn_id, uuid: d.uuid };
                let subscribed = old.connections.spec_is_subscribed(conn_id, d.uuid);
                let applies = offset == 0 && value@.len() == 2 && exists|k: int|
                    0 <= k < old.connections.conns().len() && old.connections.conns()[k].conn_id == conn_id;
                &&& r is Ok
                &&& new.handles == old.handles
                &&& new.gatt_if == old.gatt_if
                &&& new.notify_confirmed == old.notify_confirmed
                &&& new.connections.conns() == old.connections.conns()
                &&& if applies && le_u16(value@) == SUBSCRIBE_VALUE && !subscribed {
                    &&& new.connections.subscriptions@ == old.connections.subscriptions@.push(sub)
                    &&& acts == seq![Action::Subscribed { uuid: d.uuid, peer: addr }]
                } else if applies && le_u16(value@) != SUBSCRIBE_VALUE && subscribed {
                    &&& new.connections.subscriptions@ == old.connections.subscriptions@.filter(other_than(sub))
                    &&& acts == seq![Action::Unsubscribed { uuid: d.uuid, peer: addr }]
                } else {
                    &&& new.connections.subscriptions@ == old.connections.subscriptions@
                    &&& acts == Seq::<Action>::empty()
                }
            },
            None => {
                &&& new == old
                &&& match lookup(old.handles.attributes@, attr_key(), handle) {
                    Some(a) => match lookup(self.characteristics@, char_key(), a.uuid) {
                        Some(c) => if c.writable {
                            r is Ok && acts == seq![Action::Write { uuid: a.uuid, peer: addr, offset, value }]
                        } else {
                            r == Err::<(), AppError>(AppError::CharacteristicNotFound) && acts.len() == 0
                        },
                        None => r == Err::<(), AppError>(AppError::CharacteristicNotFound) && acts.len() == 0,
                    },
                    None => r is Ok && acts.len() == 0,
                }
            },
        }
    }

    pub open spec fn write_post(
        &self,
        old: ConnectedState,
        new: ConnectedState,
        acts0: Seq<Action>,
        acts: Seq<Action>,
        r: Result<(), AppError>,
        gatt_if: u8,
        conn_id: u16,
        trans_id: u32,
        addr: BdAddr,
        handle: u16,
        offset: u16,
        need_rsp: bool,
        is_prep: bool,
        value: Vec<u8>,
    ) -> bool {
        let n = acts0.len();
        let k: int = if need_rsp { 1 } else { 0 };
        &&& acts.len() >= n + k
        &&& acts.take(n as int) == acts0
        &&& need_rsp ==> write_ack(acts[n as int], gatt_if, conn_id, trans_id, handle, offset, is_prep, value@)
        &&& self.write_dispatch(old, new, acts.skip(n + k), r, conn_id, addr, handle, offset, value)
    }

    /// How a read request is answered: through the read handler of a
    /// read-capable characteristic, or with an error status for an unknown
    /// handle or a characteristic that cannot be read.
    pub open spec fn read_route(
        &self,
        st: ConnectedState,
        gatt_if: u8,
        conn_id: u16,
        trans_id: u32,
        handle: u16,
        offset: u16,
    ) -> Action {
        match lookup(st.handles.attributes@, attr_key(), handle) {
            None => Action::SendResponse {
                gatt_if,
                conn_id,
                trans_id,
                status: GattStatus::InvalidHandle,
                response: None,
            },
            Some(a) => match lookup(self.characteristics@, char_key(), a.uuid) {
                Some(c) => if c.readable {
                    Action::ReadValue { uuid: a.uuid, gatt_if, conn_id, trans_id, handle, offset }
                } else {
                    Action::SendResponse { gatt_if, conn_id, trans_id, status: GattStatus::ReadNotPermitted, response: None }
                },
                None => Action::SendResponse {
                    gatt_if,
                    conn_id,
                    trans_id,
                    status: GattStatus::ReadNotPermitted,
                    response: None,
                },
            },
        }
    }

    fn on_write(
        &self,
        state: &mut ConnectedState,
        gatt_if: u8,
        conn_id: u16,
        trans_id: u32,
        addr: BdAddr,
        handle: u16,
        offset: u16,
        need_rsp: bool,
        is_prep: bool,
        value: Vec<u8>,
        actions: &mut Vec<Action>,
    ) -> (r: Result<(), AppError>)
        requires
            self.wf(),
            old(state).wf(),
        ensures
            final(state).wf(),
            self.write_post(
                *old(state),
                *final(state),
                old(actions)@,
                final(actions)@,
                r,
                gatt_if,
                conn_id,
                trans_id,
                addr,
                handle,
                offset,
                need_rsp,
                is_prep,
                value,
            ),
    {
        let ghost acts0 = actions@;
        if need_rsp {
            if !is_prep {
                actions.push(Action::SendResponse { gatt_if, conn_id, trans_id, status: GattStatus::Success, response: None });
            } else if value.len() <= MAX_ATTR_LEN {
                let echo = value.clone();
                assert(echo@ =~= value@);
                actions.push(Action::SendResponse {
                    gatt_if,
                    conn_id,
                    trans_id,
                    status: GattStatus::Success,
                    response: Some(AttrValue { handle, offset, value: echo }),
                });
            } else {
                actions.push(Action::SendResponse {
                    gatt_if,
                    conn_id,
                    trans_id,
                    status: GattStatus::InvalidAttrLen,
                    response: None,
                });
            }
        }
        let ghost acts1 = actions@;
        let ghost k: int = if need_rsp { 1 } else { 0 };
        assert(acts1.len() == acts0.len() + k);
        assert(acts1.take(acts0.len() as int) =~= acts0);
        let r = match state.handles.cccd(handle) {
            Some(d) => {
                if offset == 0 && value.len() == 2 && state.connections.position_of_conn(conn_id).is_some() {
                    let v: u16 = value[0] as u16 + 256 * (value[1] as u16);
                    assert(v == le_u16(value@));
                    let subscribed = state.connections.is_subscribed(conn_id, d.uuid);
                    if v == SUBSCRIBE_VALUE {
                        if !subscribed {
                            state.connections.subscribe(conn_id, d.uuid);
                            actions.push(Action::Subscribed { uuid: d.uuid, peer: addr });
                        }
                    } else if subscribed {
                        state.connections.unsubscribe(conn_id, d.uuid);
                        actions.push(Action::Unsubscribed { uuid: d.uuid, peer: addr });
                    }
                }
                Ok(())
            },
            None => match state.handles.attribute(handle) {
                Some(a) => match self.find_characteristic(a.uuid) {
                    Some(c) => {
                        if c.writable {
                            actions.push(Action::Write { uuid: a.uuid, peer: addr, offset, value });
                            Ok(())
                        } else {
                            Err(AppError::CharacteristicNotFound)
                        }
                    },
                    None => Err(AppError::CharacteristicNotFound),
                },
                None => Ok(()),
            },
        };
        proof {
            assert(actions@.take(acts0.len() as int) =~= acts0);
            if need_rsp {
                assert(actions@[acts0.len() as int] == acts1[acts0.len() as int]);
            }
            let rest = actions@.skip(acts0.len() + k);
            if actions@.len() == acts1.len() {
                assert(rest =~= Seq::<Action>::empty());
            } else {
                assert(rest =~= seq![actions@.last()]);
            }
        }
        r
    }
}

impl BLEApp {
    /// What each stack event does to the session state, which commands and
    /// handler calls it issues, in order, and how it ends.
    pub open spec fn event_post(
        &self,
        old: ConnectedState,
        new: ConnectedState,
        acts0: Seq<Action>,
        acts: Seq<Action>,
        r: Result<(), AppError>,
        gatt_if: u8,
        event: GattsEvent,
    ) -> bool {
        match event {
            GattsEvent::ServiceRegistered { status, app_id } =>
                self.registered_post(old, new, acts0, acts, r, gatt_if, status, app_id),
            GattsEvent::ServiceCreated { status, service_handle, service_id } =>
                self.created_post(old, new, acts0, acts, r, status, service_handle, service_id.uuid),
            GattsEvent::CharacteristicAdded { status, attr_handle, service_handle, char_uuid } =>
                self.characteristic_added_post(old, new, acts0, acts, r, status, attr_handle, service_handle, char_uuid),
            GattsEvent::DescriptorAdded { status, attr_handle, service_handle, descr_uuid } => if status != STATUS_OK {
                refused(old, new, acts0, acts, r, status)
            } else {
                &&& r is Ok
                &&& acts == acts0
                &&& new.handles.cccds@ == (match old.handles.last_characteristic {
                    Some(c) => if descr_uuid == BtUuid::Uuid16(CCCD_UUID16) && c.service_handle == service_handle {
                        upsert(old.handles.cccds@, attr_key(), AttrHandle { handle: attr_handle, service_handle, uuid: c.uuid })
                    } else {
                        old.handles.cccds@
                    },
                    None => old.handles.cccds@,
                })
                &&& new.handles.services@ == old.handles.services@
                &&& new.handles.attributes@ == old.handles.attributes@
                &&& new.handles.last_characteristic == old.handles.last_characteristic
                &&& new.connections == old.connections
                &&& new.gatt_if == old.gatt_if
                &&& new.notify_confirmed == old.notify_confirmed
            },
            GattsEvent::ServiceDeleted { status, service_handle } => if status != STATUS_OK {
                refused(old, new, acts0, acts, r, status)
            } else {
                &&& r is Ok
                &&& acts == acts0
                &&& new.handles.attributes@ == old.handles.attributes@.filter(outside_service(service_handle))
                &&& new.handles.cccds@ == old.handles.cccds@.filter(outside_service(service_handle))
                &&& new.handles.services@ == old.handles.services@
                &&& new.handles.last_characteristic == old.handles.last_characteristic
                &&& new.connections == old.connections
                &&& new.gatt_if == old.gatt_if
                &&& new.notify_confirmed == old.notify_confirmed
            },
            GattsEvent::ServiceUnregistered { status, service_handle } => if status != STATUS_OK {
                refused(old, new, acts0, acts, r, status)
            } else {
                &&& r is Ok
                &&& acts == acts0
                &&& new.handles.services@ == old.handles.services@.filter(other_service(service_handle))
                &&& new.handles.attributes@ == old.handles.attributes@
                &&& new.handles.cccds@ == old.handles.cccds@
                &&& new.handles.last_characteristic == old.handles.last_characteristic
                &&& new.connections == old.connections
                &&& new.gatt_if == old.gatt_if
                &&& new.notify_confirmed == old.notify_confirmed
            },
            GattsEvent::Mtu { conn_id, mtu } => {
                &&& r is Ok
                &&& acts == acts0
                &&& mtu_recorded(old.connections, new.connections, conn_id, mtu)
                &&& new.handles == old.handles
                &&& new.gatt_if == old.gatt_if
                &&& new.notify_confirmed == old.notify_confirmed
            },
            GattsEvent::PeerConnected { conn_id, addr } => {
                let admitted = old.connections.conns().len() < MAX_CONNECTIONS;
                &&& r is Ok
                &&& new.connections.conns() == (if admitted {
                    old.connections.conns().push(crate::connections::Connection { peer: addr, conn_id, mtu: None })
                } else {
                    old.connections.conns()
                })
                &&& new.connections.subscriptions@ == old.connections.subscriptions@
                &&& acts == (if admitted {
                    acts0.push(Action::SetConnParams {
                        addr,
                        min_interval: CONN_MIN_INTERVAL,
                        max_interval: CONN_MAX_INTERVAL,
                        latency: CONN_LATENCY,
                        timeout: CONN_TIMEOUT,
                    })
                } else {
                    acts0
                })
                &&& new.handles == old.handles
                &&& new.gatt_if == old.gatt_if
                &&& new.notify_confirmed == old.notify_confirmed
            },
            GattsEvent::PeerDisconnected { addr } => {
                &&& r is Ok
                &&& acts == acts0
                &&& disconnected(old.connections, new.connections, addr)
                &&& new.notify_confirmed.owner == (if old.notify_confirmed.owner == Some(addr) {
                    None
                } else {
                    old.notify_confirmed.owner
                })
                &&& new.handles == old.handles
                &&& new.gatt_if == old.gatt_if
            },
            GattsEvent::Write { conn_id, trans_id, addr, handle, offset, need_rsp, is_prep, value } =>
                self.write_post(old, new, acts0, acts, r, gatt_if, conn_id, trans_id, addr, handle, offset, need_rsp, is_prep, value),
            GattsEvent::Read { conn_id, trans_id, addr, handle, offset, need_rsp } => {
                &&& r is Ok
                &&& new == old
                &&& acts == (if need_rsp {
                    acts0.push(self.read_route(old, gatt_if, conn_id, trans_id, handle, offset))
                } else {
                    acts0
                })
            },
            GattsEvent::Confirm { status } => if status != STATUS_OK {
                refused(old, new, acts0, acts, r, status)
            } else if old.notify_confirmed.owner is None {
                &&& r == Err::<(), AppError>(AppError::UnexpectedConfirmation)
                &&& new == old
                &&& acts == acts0
            } else {
                &&& r is Ok
                &&& acts == acts0
                &&& new == ConnectedState { notify_confirmed: ConfirmationSlot { owner: None }, ..old }
            },
            GattsEvent::Other => r is Ok && new == old && acts == acts0,
        }
    }

    /// Handles one GATT server event: updates the session state and appends
    /// to `actions` the stack commands and handler calls it calls for, to be
    /// carried out in order. An error ends the event's processing; the
    /// actions appended before it still stand.
    pub fn on_gatts_event(
        &self,
        state: &mut ConnectedState,
        gatt_if: u8,
        event: GattsEvent,
        actions: &mut Vec<Action>,
    ) -> (r: Result<(), AppError>)
        requires
            self.wf(),
            old(state).wf(),
        ensures
            final(state).wf(),
            self.event_post(*old(state), *final(state), old(actions)@, final(actions)@, r, gatt_if, event),
    {
        match event {
            GattsEvent::ServiceRegistered { status, app_id } =>
                self.on_service_registered(state, gatt_if, status, app_id, actions),
            GattsEvent::ServiceCreated { status, service_handle, service_id } =>
                self.on_service_created(state, status, service_handle, service_id.uuid, actions),
            GattsEvent::CharacteristicAdded { status, attr_handle, service_handle, char_uuid } =>
                self.on_characteristic_added(state, status, attr_handle, service_handle, char_uuid, actions),
            GattsEvent::DescriptorAdded { status, attr_handle, service_handle, descr_uuid } => {
                Self::check_gatt_status(status)?;
                state.handles.record_descriptor(attr_handle, service_handle, descr_uuid);
                Ok(())
            },
            GattsEvent::ServiceDeleted { status, service_handle } => {
                Self::check_gatt_status(status)?;
                state.handles.remove_service_attributes(service_handle);
                Ok(())
            },
            GattsEvent::ServiceUnregistered { status, service_handle } => {
                Self::check_gatt_status(status)?;
                state.handles.remove_service(service_handle);
                Ok(())
            },
            GattsEvent::Mtu { conn_id, mtu } => {
                state.connections.set_mtu(conn_id, mtu);
                Ok(())
            },
            GattsEvent::PeerConnected { conn_id, addr } => {
                if state.connections.connect(conn_id, addr) {
                    actions.push(Action::SetConnParams {
                        addr,
                        min_interval: CONN_MIN_INTERVAL,
                        max_interval: CONN_MAX_INTERVAL,
                        latency: CONN_LATENCY,
                        timeout: CONN_TIMEOUT,
                    });
                }
                Ok(())
            },
            GattsEvent::PeerDisconnected { addr } => {
                state.connections.disconnect(addr);
                state.notify_confirmed.release_if_owner(addr);
                Ok(())
            },
            GattsEvent::Write { conn_id, trans_id, addr, handle, offset, need_rsp, is_prep, value } =>
                self.on_write(state, gatt_if, conn_id, trans_id, addr, handle, offset, need_rsp, is_prep, value, actions),
            GattsEvent::Read { conn_id, trans_id, addr, handle, offset, need_rsp } => {
                if need_rsp {
                    let route = match state.handles.attribute(handle) {
                        None => Action::SendResponse {
                            gatt_if,
                            conn_id,
                            trans_id,
                            status: GattStatus::InvalidHandle,
                            response: None,
                        },
                        Some(a) => match self.find_characteristic(a.uuid) {
                            Some(c) => if c.readable {
                                Action::ReadValue { uuid: a.uuid, gatt_if, conn_id, trans_id, handle, offset }
                            } else {
                                Action::SendResponse {
                                    gatt_if,
                                    conn_id,
                                    trans_id,
                                    status: GattStatus::ReadNotPermitted,
                                    response: None,
                                }
                            },
                            None => Action::SendResponse {
                                gatt_if,
                                conn_id,
                                trans_id,
                                status: GattStatus::ReadNotPermitted,
                                response: None,
                            },
                        },
                    };
                    actions.push(route);
                }
                Ok(())
            },
            GattsEvent::Confirm { status } => {
                Self::check_gatt_status(status)?;
                if state.notify_confirmed.is_empty() {
                    return Err(AppError::UnexpectedConfirmation);
                }
                state.notify_confirmed.confirm();
                Ok(())
            },
            GattsEvent::Other => Ok(()),
        }
    }

    /// The response to a read request once the read handler has answered:
    /// its value, or an error status when the handler failed or the value
    /// is longer than the stack can carry.
    pub fn read_response(
        gatt_if: u8,
        conn_id: u16,
        trans_id: u32,
        handle: u16,
        offset: u16,
        result: Result<Vec<u8>, HandlerError>,
    ) -> (r: Action)
        ensures
            r == (match result {
                Ok(v) => if v@.len() <= MAX_ATTR_LEN {
                    Action::SendResponse {
                        gatt_if,
                        conn_id,
                        trans_id,
                        status: GattStatus::Success,
                        response: Some(AttrValue { handle, offset, value: v }),
                    }
                } else {
                    Action::SendResponse { gatt_if, conn_id, trans_id, status: GattStatus::InvalidAttrLen, response: None }
                },
                Err(_) => Action::SendResponse { gatt_if, conn_id, trans_id, status: GattStatus::Error, response: None },
            }),
    {
        match result {
            Ok(v) => {
                if v.len() <= MAX_ATTR_LEN {
                    Action::SendResponse {
                        gatt_if,
                        conn_id,
                        trans_id,
                        status: GattStatus::Success,
                        response: Some(AttrValue { handle, offset, value: v }),
                    }
                } else {
                    Action::SendResponse { gatt_if, conn_id, trans_id, status: GattStatus::InvalidAttrLen, response: None }
                }
            },
            Err(_) => Action::SendResponse { gatt_if, conn_id, trans_id, status: GattStatus::Error, response: None },
        }
    }
}

/// Appends to `out` the characteristics of `s` whose UUID it does not list yet.
fn dedup_into(out: &mut Vec<Characteristic>, s: &Vec<Characteristic>)
    ensures
        final(out)@ == dedup_onto(old(out)@, s@),
{
    let ghost acc = out@;
    let mut i: usize = 0;
    while i < s.len()
        invariant
            i <= s@.len(),
            out@ == dedup_onto(acc, s@.take(i as int)),
        decreases s@.len() - i,
    {
        let c = s[i];
        let mut seen = false;
        let mut j: usize = 0;
        while j < out.len()
            invariant
                j <= out@.len(),
                seen == exists|k: int| 0 <= k < j && out@[k].uuid == c.uuid,
            decreases out@.len() - j,
        {
            if out[j].uuid == c.uuid {
                seen = true;
            }
            j = j + 1;
        }
        proof {
            assert(s@.take(i + 1).drop_last() =~= s@.take(i as int));
            assert(s@.take(i + 1).last() == c);
            assert(seen == has_uuid(out@, c.uuid));
        }
        if !seen {
            out.push(c);
        }
        i = i + 1;
    }
    proof {
        assert(s@.take(i as int) =~= s@);
    }
}

} // verus!
