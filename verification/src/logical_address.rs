use vstd::prelude::*;

verus! {

/// A DoIP logical address: the 16-bit identifier of a tester, ECU or gateway.
#[derive(Clone, Copy, Debug, PartialEq, Eq, Structural)]
pub struct LogicalAddress(pub u16);

impl LogicalAddress {
    /// Lower bound of the tester (external test equipment) address range.
    pub const MIN_CLIENT_ADDRESS: u16 = 0x0E00;

    /// Upper bound of the tester address range.
    pub const MAX_CLIENT_ADDRESS: u16 = 0x0FFF;

    /// Sub-range of tester addresses meant for on-board diagnostics tooling
    /// (`0x0F00`-`0x0F7F`); addresses in it are still valid tester addresses.
    pub const OBD_ADDRESS_RANGE: (u16, u16) = (0x0F00, 0x0F7F);

    /// Whether the address lies in the tester range `0x0E00..=0x0FFF`.
    pub open spec fn spec_is_valid_client_address(self) -> bool {
        0x0E00 <= self.0 <= 0x0FFF
    }

    /// Verify if the logical address is within the valid range for a client address.
    pub fn is_valid_client_address(&self) -> (valid: bool)
        ensures
            valid == self.spec_is_valid_client_address(),
    {
        Self::MIN_CLIENT_ADDRESS <= self.0 && self.0 <= Self::MAX_CLIENT_ADDRESS
    }
}

impl From<u16> for LogicalAddress {
    fn from(addr: u16) -> (address: LogicalAddress)
        ensures
            address == LogicalAddress(addr),
    {
        LogicalAddress(addr)
    }
}

impl vstd::std_specs::convert::FromSpecImpl<u16> for LogicalAddress {
    open spec fn obeys_from_spec() -> bool {
        true
    }

    open spec fn from_spec(v: u16) -> LogicalAddress {
        LogicalAddress(v)
    }
}

impl From<LogicalAddress> for u16 {
    fn from(addr: LogicalAddress) -> (value: u16)
        ensures
            value == addr.0,
    {
        addr.0
    }
}

impl vstd::std_specs::convert::FromSpecImpl<LogicalAddress> for u16 {
    open spec fn obeys_from_spec() -> bool {
        true
    }

    open spec fn from_spec(v: LogicalAddress) -> u16 {
        v.0
    }
}

impl PartialEq<u16> for LogicalAddress {
    fn eq(&self, other: &u16) -> (same: bool) {
        self.0 == *other
    }
}

impl vstd::std_specs::cmp::PartialEqSpecImpl<u16> for LogicalAddress {
    open spec fn obeys_eq_spec() -> bool {
        true
    }

    open spec fn eq_spec(&self, other: &u16) -> bool {
        self.0 == *other
    }
}

/// Tester addresses are exactly `0x0E00..=0x0FFF`, the bounds the address type
/// names; the OBD sub-range `0x0F00..=0x0F7F` lies inside it.
pub proof fn lemma_client_address_range(a: u16)
    ensures
        LogicalAddress(a).spec_is_valid_client_address() == (0x0E00 <= a && a <= 0x0FFF),
        LogicalAddress::MIN_CLIENT_ADDRESS == 0x0E00,
        LogicalAddress::MAX_CLIENT_ADDRESS == 0x0FFF,
        LogicalAddress::OBD_ADDRESS_RANGE == (0x0F00u16, 0x0F7Fu16),
        0x0F00 <= a && a <= 0x0F7F ==> LogicalAddress(a).spec_is_valid_client_address(),
{
}

} // verus!
