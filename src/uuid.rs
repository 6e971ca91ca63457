use vstd::prelude::*;

verus! {

/// A Bluetooth UUID in one of its three wire widths.
///
/// Two UUIDs are equal only when they have the same width and the same
/// value: a 16-bit UUID never equals a 128-bit one.
#[derive(Clone, Copy, Debug, PartialEq, Eq, Structural, Hash)]
pub enum BtUuid {
    Uuid16(u16),
    Uuid32(u32),
    Uuid128(u128),
}

impl BtUuid {
    pub fn uuid16(v: u16) -> (r: BtUuid)
        ensures
            r == BtUuid::Uuid16(v),
    {
        BtUuid::Uuid16(v)
    }

    pub fn uuid32(v: u32) -> (r: BtUuid)
        ensures
            r == BtUuid::Uuid32(v),
    {
        BtUuid::Uuid32(v)
    }

    pub fn uuid128(v: u128) -> (r: BtUuid)
        ensures
            r == BtUuid::Uuid128(v),
    {
        BtUuid::Uuid128(v)
    }
}

/// A peer's 48-bit Bluetooth device address.
#[derive(Clone, Copy, Debug, Hash)]
pub struct BdAddr {
    pub bytes: [u8; 6],
}

impl PartialEq for BdAddr {
    fn eq(&self, o: &BdAddr) -> (r: bool)
        ensures
            r == (*self == *o),
    {
        let mut i: usize = 0;
        while i < 6
            invariant
                i <= 6,
                forall|k: int| 0 <= k < i ==> self.bytes@[k] == o.bytes@[k],
            decreases 6 - i,
        {
            if self.bytes[i] != o.bytes[i] {
                assert(self.bytes@[i as int] != o.bytes@[i as int]);
                return false;
            }
            i = i + 1;
        }
        assert(self.bytes =~= o.bytes);
        true
    }
}

impl vstd::std_specs::cmp::PartialEqSpecImpl for BdAddr {
    open spec fn obeys_eq_spec() -> bool {
        true
    }

    open spec fn eq_spec(&self, o: &BdAddr) -> bool {
        *self == *o
    }
}

impl Eq for BdAddr {
}

impl BdAddr {
    pub fn from_bytes(bytes: [u8; 6]) -> (r: BdAddr)
        ensures
            r.bytes == bytes,
    {
        BdAddr { bytes }
    }
}

} // verus!
