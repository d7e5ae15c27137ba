//! Vehicle identification response / vehicle announcement.
use vstd::prelude::*;

use super::message_error::MessageError;
use crate::logical_address::LogicalAddress;
use crate::wire::{
    be_u16, be_u16_bytes, layout_incomplete, lemma_be_u16_bytes_roundtrip, lemma_be_u16_roundtrip,
    lemma_splice_concat, max_buffer_len, put_all, put_u16_be, put_u8, read_array, read_u16_be,
    read_u8, spec_exact, splice, write_all, write_u16_be, write_u8,
};

verus! {

/// Whether the tester must act before diagnostics can proceed.
#[derive(Clone, Copy, Debug, PartialEq, Eq, Structural)]
pub enum FurtherActionRequired {
    /// No further action required.
    NoFurtherActionRequired,
    /// Routing activation with central security is required.
    RoutingActivationRequiredToInitiateCentralSecurity,
    /// Reserved (0x01-0x0F).
    Reserved(u8),
    /// Vehicle-manufacturer-specific value (0x11-0xFF).
    VehicleManufacturerSpecific(u8),
}

impl FurtherActionRequired {
    /// The code a wire byte denotes.
    pub open spec fn spec_from_u8(value: u8) -> FurtherActionRequired {
        if value == 0x00 {
            FurtherActionRequired::NoFurtherActionRequired
        } else if value == 0x10 {
            FurtherActionRequired::RoutingActivationRequiredToInitiateCentralSecurity
        } else if 0x01 <= value && value <= 0x0F {
            FurtherActionRequired::Reserved(value)
        } else {
            FurtherActionRequired::VehicleManufacturerSpecific(value)
        }
    }

    /// The wire byte of a code.
    pub open spec fn spec_to_u8(self) -> u8 {
        match self {
            FurtherActionRequired::NoFurtherActionRequired => 0x00,
            FurtherActionRequired::RoutingActivationRequiredToInitiateCentralSecurity => 0x10,
            FurtherActionRequired::Reserved(value) => value,
            FurtherActionRequired::VehicleManufacturerSpecific(value) => value,
        }
    }

    /// A value that is what its own wire byte decodes to.
    pub open spec fn is_canonical(self) -> bool {
        Self::spec_from_u8(self.spec_to_u8()) == self
    }

}

impl From<u8> for FurtherActionRequired {
    fn from(value: u8) -> (code: FurtherActionRequired)
        ensures
            code == FurtherActionRequired::spec_from_u8(value),
    {
        if value == 0x00 {
            FurtherActionRequired::NoFurtherActionRequired
        } else if value == 0x10 {
            FurtherActionRequired::RoutingActivationRequiredToInitiateCentralSecurity
        } else if 0x01 <= value && value <= 0x0F {
            FurtherActionRequired::Reserved(value)
        } else {
            FurtherActionRequired::VehicleManufacturerSpecific(value)
        }
    }
}

impl vstd::std_specs::convert::FromSpecImpl<u8> for FurtherActionRequired {
    open spec fn obeys_from_spec() -> bool {
        true
    }

    open spec fn from_spec(v: u8) -> FurtherActionRequired {
        FurtherActionRequired::spec_from_u8(v)
    }
}

impl From<FurtherActionRequired> for u8 {
    fn from(value: FurtherActionRequired) -> (byte: u8)
        ensures
            byte == value.spec_to_u8(),
    {
        match value {
            FurtherActionRequired::NoFurtherActionRequired => 0x00,
            FurtherActionRequired::RoutingActivationRequiredToInitiateCentralSecurity => 0x10,
            FurtherActionRequired::Reserved(value) => value,
            FurtherActionRequired::VehicleManufacturerSpecific(value) => value,
        }
    }
}

impl vstd::std_specs::convert::FromSpecImpl<FurtherActionRequired> for u8 {
    open spec fn obeys_from_spec() -> bool {
        true
    }

    open spec fn from_spec(v: FurtherActionRequired) -> u8 {
        v.spec_to_u8()
    }
}

/// Every byte is the wire form of the code it decodes to, and that code is canonical.
pub proof fn lemma_further_action_required_byte_roundtrip(value: u8)
    ensures
        FurtherActionRequired::spec_from_u8(value).spec_to_u8() == value,
        FurtherActionRequired::spec_from_u8(value).is_canonical(),
{
}

/// Whether VIN and group ID are synchronized across the vehicle's entities.
#[derive(Clone, Copy, Debug, PartialEq, Eq, Structural)]
pub enum VinGidSyncStatus {
    /// VIN and/or GID are synchronized.
    Synchronized,
    /// VIN and GID are not synchronized.
    Incomplete,
    /// Reserved value.
    Reserved(u8),
}

impl VinGidSyncStatus {
    /// The code a wire byte denotes.
    pub open spec fn spec_from_u8(value: u8) -> VinGidSyncStatus {
        if value == 0x00 {
            VinGidSyncStatus::Synchronized
        } else if value == 0x10 {
            VinGidSyncStatus::Incomplete
        } else {
            VinGidSyncStatus::Reserved(value)
        }
    }

    /// The wire byte of a code.
    pub open spec fn spec_to_u8(self) -> u8 {
        match self {
            VinGidSyncStatus::Synchronized => 0x00,
            VinGidSyncStatus::Incomplete => 0x10,
            VinGidSyncStatus::Reserved(value) => value,
        }
    }

    /// A value that is what its own wire byte decodes to.
    pub open spec fn is_canonical(self) -> bool {
        Self::spec_from_u8(self.spec_to_u8()) == self
    }

}

impl From<u8> for VinGidSyncStatus {
    fn from(value: u8) -> (code: VinGidSyncStatus)
        ensures
            code == VinGidSyncStatus::spec_from_u8(value),
    {
        if value == 0x00 {
            VinGidSyncStatus::Synchronized
        } else if value == 0x10 {
            VinGidSyncStatus::Incomplete
        } else {
            VinGidSyncStatus::Reserved(value)
        }
    }
}

impl vstd::std_specs::convert::FromSpecImpl<u8> for VinGidSyncStatus {
    open spec fn obeys_from_spec() -> bool {
        true
    }

    open spec fn from_spec(v: u8) -> VinGidSyncStatus {
        VinGidSyncStatus::spec_from_u8(v)
    }
}

impl From<VinGidSyncStatus> for u8 {
    fn from(value: VinGidSyncStatus) -> (byte: u8)
        ensures
            byte == value.spec_to_u8(),
    {
        match value {
            VinGidSyncStatus::Synchronized => 0x00,
            VinGidSyncStatus::Incomplete => 0x10,
            VinGidSyncStatus::Reserved(value) => value,
        }
    }
}

impl vstd::std_specs::convert::FromSpecImpl<VinGidSyncStatus> for u8 {
    open spec fn obeys_from_spec() -> bool {
        true
    }

    open spec fn from_spec(v: VinGidSyncStatus) -> u8 {
        v.spec_to_u8()
    }
}

/// Every byte is the wire form of the code it decodes to, and that code is canonical.
pub proof fn lemma_vin_gid_sync_status_byte_roundtrip(value: u8)
    ensures
        VinGidSyncStatus::spec_from_u8(value).spec_to_u8() == value,
        VinGidSyncStatus::spec_from_u8(value).is_canonical(),
{
}

/// Vehicle identification response, also sent unsolicited as the vehicle announcement.
#[derive(Clone, Copy, Debug, PartialEq, Eq)]
pub struct VehicleIdentificationResponse {
    /// Vehicle identification number.
    pub vin: [u8; 17],
    /// Logical address of the responding entity.
    pub logical_address: LogicalAddress,
    /// Unique entity ID (e.g. a MAC address).
    pub entity_id: [u8; 6],
    /// Group ID; `None` when not set (all `0x00` or all `0xFF` on the wire).
    pub group_id: Option<[u8; 6]>,
    /// Further action required of the tester.
    pub further_action: FurtherActionRequired,
    /// VIN/GID synchronization status.
    pub vin_gid_sync_status: VinGidSyncStatus,
}

/// What a vehicle identification response is.
pub struct VehicleIdentificationResponseModel {
    /// VIN bytes.
    pub vin: Seq<u8>,
    /// Logical address.
    pub logical_address: LogicalAddress,
    /// Entity ID bytes.
    pub entity_id: Seq<u8>,
    /// Group ID bytes, if set.
    pub group_id: Option<Seq<u8>>,
    /// Further action.
    pub further_action: FurtherActionRequired,
    /// Sync status.
    pub vin_gid_sync_status: VinGidSyncStatus,
}

impl View for VehicleIdentificationResponse {
    type V = VehicleIdentificationResponseModel;

    open spec fn view(&self) -> VehicleIdentificationResponseModel {
        VehicleIdentificationResponseModel {
            vin: self.vin@,
            logical_address: self.logical_address,
            entity_id: self.entity_id@,
            group_id: match self.group_id {
                Some(g) => Some(g@),
                None => None,
            },
            further_action: self.further_action,
            vin_gid_sync_status: self.vin_gid_sync_status,
        }
    }
}

/// A group ID value that means "not set": all `0x00` or all `0xFF`.
pub open spec fn is_unset_group_id(g: Seq<u8>) -> bool {
    g =~= Seq::new(6, |i: int| 0x00u8) || g =~= Seq::new(6, |i: int| 0xFFu8)
}

/// Whether a group ID field is the "not set" value.
pub fn group_id_is_unset(g: &[u8; 6]) -> (unset: bool)
    ensures
        unset == is_unset_group_id(g@),
{
    let zero = g[0] == 0x00 && g[1] == 0x00 && g[2] == 0x00 && g[3] == 0x00 && g[4] == 0x00 && g[5]
        == 0x00;
    let ones = g[0] == 0xFF && g[1] == 0xFF && g[2] == 0xFF && g[3] == 0xFF && g[4] == 0xFF && g[5]
        == 0xFF;
    proof {
        if !zero {
            assert(exists|i: int| 0 <= i < 6 && g@[i] != 0x00u8);
        }
        if !ones {
            assert(exists|i: int| 0 <= i < 6 && g@[i] != 0xFFu8);
        }
    }
    zero || ones
}

/// Field widths of a vehicle identification response.
pub open spec fn vehicle_identification_layout() -> Seq<int> {
    seq![17int, 2, 6, 6, 1, 1]
}

impl VehicleIdentificationResponseModel {
    /// Field lengths as arrays give them, canonical codes, and a group ID that is
    /// not the "not set" value.
    pub open spec fn is_canonical(self) -> bool {
        &&& self.vin.len() == 17
        &&& self.entity_id.len() == 6
        &&& self.group_id matches Some(g) ==> g.len() == 6 && !is_unset_group_id(g)
        &&& self.further_action.is_canonical()
        &&& self.vin_gid_sync_status.is_canonical()
    }

    /// The response's 33 wire bytes; an absent group ID is written as zeros.
    pub open spec fn spec_encode(self) -> Seq<u8> {
        self.vin + be_u16_bytes(self.logical_address.0) + self.entity_id + match self.group_id {
            Some(g) => g,
            None => Seq::new(6, |i: int| 0x00u8),
        } + seq![self.further_action.spec_to_u8(), self.vin_gid_sync_status.spec_to_u8()]
    }

    /// Decoding a response from the front of `s`.
    pub open spec fn spec_decode(s: Seq<u8>) -> Result<(VehicleIdentificationResponseModel, Seq<u8>), MessageError> {
        if s.len() < 33 {
            Err(layout_incomplete(vehicle_identification_layout(), s.len() as int))
        } else {
            let g = s.subrange(25, 31);
            Ok(
                (
                    VehicleIdentificationResponseModel {
                        vin: s.take(17),
                        logical_address: LogicalAddress(be_u16(s[17], s[18])),
                        entity_id: s.subrange(19, 25),
                        group_id: if is_unset_group_id(g) {
                            None
                        } else {
                            Some(g)
                        },
                        further_action: FurtherActionRequired::spec_from_u8(s[31]),
                        vin_gid_sync_status: VinGidSyncStatus::spec_from_u8(s[32]),
                    },
                    s.skip(33),
                ),
            )
        }
    }
}

impl VehicleIdentificationResponse {
    /// Decode from the front of `buf`, returning the response and the bytes after it.
    pub fn decode(buf: &[u8]) -> (r: Result<(VehicleIdentificationResponse, &[u8]), MessageError>)
        ensures
            match r {
                Ok((v, rest)) => VehicleIdentificationResponseModel::spec_decode(buf@) == Ok::<_, MessageError>((v@, rest@)),
                Err(e) => VehicleIdentificationResponseModel::spec_decode(buf@) == Err::<(VehicleIdentificationResponseModel, Seq<u8>), _>(e),
            },
    {
        proof {
            reveal_with_fuel(layout_incomplete, 7);
        }
        let (vin, rest) = read_array::<17>(buf)?;
        let (logical_address, rest) = read_u16_be(rest)?;
        assert(logical_address == be_u16(buf@[17], buf@[18]));
        let (entity_id, rest) = read_array::<6>(rest)?;
        let (group_id, rest) = read_array::<6>(rest)?;
        assert(group_id@ =~= buf@.subrange(25, 31));
        let group_id = if group_id_is_unset(&group_id) {
            None
        } else {
            Some(group_id)
        };
        let (further_action, rest) = read_u8(rest)?;
        assert(further_action == buf@[31]);
        let (vin_gid_sync_status, rest) = read_u8(rest)?;
        assert(vin_gid_sync_status == buf@[32]);
        proof {
            assert(rest@ =~= buf@.skip(33));
            assert(vin@ =~= buf@.take(17));
            assert(entity_id@ =~= buf@.subrange(19, 25));
        }
        Ok(
            (
                VehicleIdentificationResponse {
                    vin,
                    logical_address: LogicalAddress(logical_address),
                    entity_id,
                    group_id,
                    further_action: FurtherActionRequired::from(further_action),
                    vin_gid_sync_status: VinGidSyncStatus::from(vin_gid_sync_status),
                },
                rest,
            ),
        )
    }

    /// Decode a response that must fill `buf` exactly.
    pub fn decode_exact(buf: &[u8]) -> (r: Result<VehicleIdentificationResponse, MessageError>)
        ensures
            match r {
                Ok(v) => spec_exact(VehicleIdentificationResponseModel::spec_decode(buf@)) == Ok::<_, MessageError>(v@),
                Err(e) => spec_exact(VehicleIdentificationResponseModel::spec_decode(buf@)) == Err::<VehicleIdentificationResponseModel, _>(e),
            },
    {
        let (value, rest) = VehicleIdentificationResponse::decode(buf)?;
        if rest.len() == 0 {
            Ok(value)
        } else {
            Err(MessageError::TrailingBytes { count: rest.len() })
        }
    }

    /// Number of bytes `encode` writes.
    pub fn encoded_size(&self) -> (r: Result<usize, MessageError>)
        ensures
            r == Ok::<_, MessageError>(self@.spec_encode().len() as usize),
    {
        Ok(33)
    }

    /// Append the response's wire bytes to `out`, returning the number written.
    pub fn encode(&self, out: &mut Vec<u8>) -> (r: Result<usize, MessageError>)
        requires
            old(out)@.len() + 33 <= max_buffer_len(),
        ensures
            final(out)@ == old(out)@ + self@.spec_encode(),
            r == Ok::<_, MessageError>(self@.spec_encode().len() as usize),
    {
        let ghost start = out@;
        write_all(out, self.vin.as_slice());
        write_u16_be(out, self.logical_address.0);
        write_all(out, self.entity_id.as_slice());
        match self.group_id {
            Some(group_id) => {
                write_all(out, group_id.as_slice());
            },
            None => {
                let unset: [u8; 6] = [0x00, 0x00, 0x00, 0x00, 0x00, 0x00];
                assert(unset@ =~= Seq::new(6, |i: int| 0x00u8));
                write_all(out, unset.as_slice());
            },
        }
        write_u8(out, u8::from(self.further_action));
        write_u8(out, u8::from(self.vin_gid_sync_status));
        assert(out@ =~= start + self@.spec_encode());
        Ok(33)
    }

    /// Write the response's wire bytes into `out` at position `at`, returning the
    /// number written; an unset group ID goes out as six zero bytes.
    pub(crate) fn write_at(&self, out: &mut [u8], at: usize) -> (n: usize)
        requires
            at + 33 <= old(out)@.len(),
        ensures
            final(out)@ == splice(old(out)@, at as int, self@.spec_encode()),
            n == self@.spec_encode().len(),
    {
        let ghost start = out@;
        let ghost a = at as int;
        let ghost gid: Seq<u8> = match self@.group_id {
            Some(g) => g,
            None => Seq::new(6, |i: int| 0x00u8),
        };
        let ghost codes = seq![self@.further_action.spec_to_u8(), self@.vin_gid_sync_status.spec_to_u8()];
        assert(out@.len() == out.len());
        put_all(out, at, self.vin.as_slice());
        put_u16_be(out, at + 17, self.logical_address.0);
        proof {
            lemma_splice_concat(start, a, self@.vin, be_u16_bytes(self@.logical_address.0));
        }
        let ghost p1 = self@.vin + be_u16_bytes(self@.logical_address.0);
        put_all(out, at + 19, self.entity_id.as_slice());
        proof {
            lemma_splice_concat(start, a, p1, self@.entity_id);
        }
        let ghost p2 = p1 + self@.entity_id;
        match self.group_id {
            Some(group_id) => {
                put_all(out, at + 25, group_id.as_slice());
            },
            None => {
                let unset: [u8; 6] = [0x00, 0x00, 0x00, 0x00, 0x00, 0x00];
                assert(unset@ =~= Seq::new(6, |i: int| 0x00u8));
                put_all(out, at + 25, unset.as_slice());
            },
        }
        proof {
            lemma_splice_concat(start, a, p2, gid);
        }
        let ghost p3 = p2 + gid;
        put_u8(out, at + 31, u8::from(self.further_action));
        put_u8(out, at + 32, u8::from(self.vin_gid_sync_status));
        proof {
            lemma_splice_concat(splice(start, a, p3), a + 31, seq![codes[0]], seq![codes[1]]);
            assert(seq![codes[0]] + seq![codes[1]] =~= codes);
            lemma_splice_concat(start, a, p3, codes);
        }
        33
    }
}

/// A canonical response survives encoding, and a decoded one is canonical and
/// re-encodes to the bytes it was decoded from, up to the spelling of an unset
/// group ID.
pub proof fn lemma_vehicle_identification_response_codec(m: VehicleIdentificationResponseModel, s: Seq<u8>)
    ensures
        m.is_canonical() ==> VehicleIdentificationResponseModel::spec_decode(m.spec_encode())
            == Ok::<_, MessageError>((m, Seq::<u8>::empty())),
        VehicleIdentificationResponseModel::spec_decode(s) matches Ok((d, rest)) ==> d.is_canonical()
            && d.spec_encode().len() == 33 && rest == s.skip(33),
{
    lemma_be_u16_roundtrip(m.logical_address.0);
    let e = m.spec_encode();
    if m.is_canonical() {
        assert(e.take(17) =~= m.vin);
        assert(e.subrange(19, 25) =~= m.entity_id);
        assert(e.skip(33) =~= Seq::<u8>::empty());
        match m.group_id {
            Some(g) => {
                assert(e.subrange(25, 31) =~= g);
            },
            None => {
                assert(e.subrange(25, 31) =~= Seq::new(6, |i: int| 0x00u8));
            },
        }
    }
    if s.len() >= 33 {
        lemma_further_action_required_byte_roundtrip(s[31]);
        lemma_vin_gid_sync_status_byte_roundtrip(s[32]);
    }
}

/// Each further-action code has the wire byte ISO 13400-2 assigns it: 0x00 none, 0x10
/// routing activation for central security, 0x01-0x0F reserved, 0x11-0xFF
/// manufacturer-specific, and a named code encodes to its byte.
pub proof fn lemma_further_action_wire_values(b: u8)
    ensures
        (FurtherActionRequired::spec_from_u8(b) == FurtherActionRequired::NoFurtherActionRequired) == (b == 0x00),
        (FurtherActionRequired::spec_from_u8(b) == FurtherActionRequired::RoutingActivationRequiredToInitiateCentralSecurity) == (b == 0x10),
        (FurtherActionRequired::spec_from_u8(b) == FurtherActionRequired::Reserved(b)) == (0x01 <= b <= 0x0F),
        (FurtherActionRequired::spec_from_u8(b) == FurtherActionRequired::VehicleManufacturerSpecific(b)) == (b >= 0x11),
        FurtherActionRequired::NoFurtherActionRequired.spec_to_u8() == 0x00,
        FurtherActionRequired::RoutingActivationRequiredToInitiateCentralSecurity.spec_to_u8() == 0x10,
{
}

/// Each VIN/GID synchronisation status has the wire byte ISO 13400-2 assigns it: 0x00
/// synchronised, 0x10 incomplete, every other byte reserved, and a named status encodes
/// to its byte.
pub proof fn lemma_vin_gid_sync_status_wire_values(b: u8)
    ensures
        (VinGidSyncStatus::spec_from_u8(b) == VinGidSyncStatus::Synchronized) == (b == 0x00),
        (VinGidSyncStatus::spec_from_u8(b) == VinGidSyncStatus::Incomplete) == (b == 0x10),
        (VinGidSyncStatus::spec_from_u8(b) == VinGidSyncStatus::Reserved(b)) == (b != 0x00 && b != 0x10),
        VinGidSyncStatus::Synchronized.spec_to_u8() == 0x00,
        VinGidSyncStatus::Incomplete.spec_to_u8() == 0x10,
{
}

} // verus!
