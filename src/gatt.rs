use vstd::prelude::*;
use crate::uuid::BtUuid;

verus! {

/// The 16-bit UUID of the client characteristic configuration descriptor,
/// through which a peer subscribes to notifications or indications.
pub const CCCD_UUID16: u16 = 0x2902;

/// The value a peer writes to the configuration descriptor to subscribe.
pub const SUBSCRIBE_VALUE: u16 = 0x0002;

/// The largest attribute value the stack accepts in a response.
pub const MAX_ATTR_LEN: usize = 600;

/// Access permissions of an attribute.
#[derive(Clone, Copy, Debug, PartialEq, Eq, Structural)]
pub struct Permissions {
    pub read: bool,
    pub write: bool,
}

/// Declared properties of a characteristic.
#[derive(Clone, Copy, Debug, PartialEq, Eq, Structural)]
pub struct Properties {
    pub read: bool,
    pub write: bool,
    pub notify: bool,
    pub indicate: bool,
}

/// Who answers read and write requests: the stack itself, or the application.
#[derive(Clone, Copy, Debug, PartialEq, Eq, Structural)]
pub enum AutoResponse {
    ByApp,
    ByGatt,
}

/// The static description of one characteristic.
#[derive(Clone, Copy, Debug, PartialEq, Eq, Structural)]
pub struct Characteristic {
    pub uuid: BtUuid,
    pub permissions: Permissions,
    pub properties: Properties,
    pub max_len: u16,
    pub auto_rsp: AutoResponse,
}

impl Characteristic {
    pub fn new(
        uuid: BtUuid,
        permissions: Permissions,
        properties: Properties,
        max_len: u16,
        auto_rsp: AutoResponse,
    ) -> (r: Characteristic)
        ensures
            r == (Characteristic { uuid, permissions, properties, max_len, auto_rsp }),
    {
        Characteristic { uuid, permissions, properties, max_len, auto_rsp }
    }

    /// Whether values of this characteristic are pushed to subscribed peers.
    pub open spec fn spec_is_subscribable(self) -> bool {
        self.properties.notify || self.properties.indicate
    }
}

/// The static description of one descriptor of a characteristic.
#[derive(Clone, Copy, Debug, PartialEq, Eq, Structural)]
pub struct Descriptor {
    pub uuid: BtUuid,
    pub permissions: Permissions,
}

impl Descriptor {
    pub open spec fn spec_is_cccd(self) -> bool {
        self.uuid == BtUuid::Uuid16(CCCD_UUID16)
    }

    /// The standard configuration descriptor, readable and writable.
    pub fn cccd() -> (r: Descriptor)
        ensures
            r.spec_is_cccd(),
            r.permissions == (Permissions { read: true, write: true }),
    {
        Descriptor {
            uuid: BtUuid::Uuid16(CCCD_UUID16),
            permissions: Permissions { read: true, write: true },
        }
    }

    pub fn is_cccd(&self) -> (r: bool)
        ensures
            r == self.spec_is_cccd(),
    {
        match self.uuid {
            BtUuid::Uuid16(v) => v == CCCD_UUID16,
            _ => false,
        }
    }
}

/// Identity of a service: its UUID, its instance id among services with
/// the same UUID, and whether it is primary.
#[derive(Clone, Copy, Debug, PartialEq, Eq, Structural)]
pub struct ServiceId {
    pub uuid: BtUuid,
    pub inst_id: u8,
    pub is_primary: bool,
}

/// Advertising parameters handed to the stack.
#[derive(Clone, Copy, Debug, PartialEq, Eq, Structural)]
pub struct AdvConfig {
    pub include_name: bool,
    pub include_txpower: bool,
    pub flag: u8,
    pub service_uuid: Option<BtUuid>,
}

/// Status codes that the application reports back in a response.
#[derive(Clone, Copy, Debug, PartialEq, Eq, Structural)]
pub enum GattStatus {
    Success,
    InvalidHandle,
    ReadNotPermitted,
    InvalidAttrLen,
    Error,
}

} // verus!
