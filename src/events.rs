use vstd::prelude::*;
use crate::gatt::{AdvConfig, Characteristic, Descriptor, GattStatus, ServiceId};
use crate::uuid::{BdAddr, BtUuid};

verus! {

/// The status code with which the stack reports success.
pub const STATUS_OK: u32 = 0;

/// Events from the advertising and connection side of the stack.
pub enum GapEvent {
    AdvertisingConfigured { status: u32 },
    Other,
}

/// Events from the GATT server side of the stack.
pub enum GattsEvent {
    ServiceRegistered { status: u32, app_id: u16 },
    ServiceCreated { status: u32, service_handle: u16, service_id: ServiceId },
    CharacteristicAdded { status: u32, attr_handle: u16, service_handle: u16, char_uuid: BtUuid },
    DescriptorAdded { status: u32, attr_handle: u16, service_handle: u16, descr_uuid: BtUuid },
    ServiceDeleted { status: u32, service_handle: u16 },
    ServiceUnregistered { status: u32, service_handle: u16 },
    Mtu { conn_id: u16, mtu: u16 },
    PeerConnected { conn_id: u16, addr: BdAddr },
    PeerDisconnected { addr: BdAddr },
    Write {
        conn_id: u16,
        trans_id: u32,
        addr: BdAddr,
        handle: u16,
        offset: u16,
        need_rsp: bool,
        is_prep: bool,
        value: Vec<u8>,
    },
    Read { conn_id: u16, trans_id: u32, addr: BdAddr, handle: u16, offset: u16, need_rsp: bool },
    Confirm { status: u32 },
    Other,
}

/// An attribute value carried in a response.
#[derive(Debug)]
pub struct AttrValue {
    pub handle: u16,
    pub offset: u16,
    pub value: Vec<u8>,
}

/// What the session asks of its surroundings: commands to the stack, and
/// calls of the application's characteristic handlers.
#[derive(Debug)]
pub enum Action {
    SetDeviceName { name: String },
    SetAdvConf { config: AdvConfig },
    StartAdvertising,
    CreateService { gatt_if: u8, service_id: ServiceId, num_handles: u16 },
    StartService { service_handle: u16 },
    AddCharacteristic { service_handle: u16, characteristic: Characteristic },
    AddDescriptor { service_handle: u16, descriptor: Descriptor },
    SendResponse { gatt_if: u8, conn_id: u16, trans_id: u32, status: GattStatus, response: Option<AttrValue> },
    SetConnParams { addr: BdAddr, min_interval: u16, max_interval: u16, latency: u16, timeout: u16 },
    Indicate { gatt_if: u8, conn_id: u16, attr_handle: u16, payload: Vec<u8> },
    Notify { gatt_if: u8, conn_id: u16, attr_handle: u16, payload: Vec<u8> },
    /// Hand a written value to the write handler of characteristic `uuid`.
    Write { uuid: BtUuid, peer: BdAddr, offset: u16, value: Vec<u8> },
    /// Ask the read handler of characteristic `uuid` for its value, then
    /// answer the request through `read_response`.
    ReadValue { uuid: BtUuid, gatt_if: u8, conn_id: u16, trans_id: u32, handle: u16, offset: u16 },
    Subscribed { uuid: BtUuid, peer: BdAddr },
    Unsubscribed { uuid: BtUuid, peer: BdAddr },
}

/// Why an event could not be handled.
#[derive(Clone, Copy, Debug, PartialEq, Eq, Structural)]
pub enum AppError {
    /// The stack reported a GATT operation as failed.
    GattStatus(u32),
    /// The stack reported an advertising operation as failed.
    BtStatus(u32),
    ServiceNotFound,
    CharacteristicNotFound,
    /// A confirmation arrived while no indication was outstanding.
    UnexpectedConfirmation,
    GattIfMissing,
    AttrHandleNotFound,
}

} // verus!
