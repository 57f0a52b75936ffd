use vstd::prelude::*;

verus! {

/// Declared type of a link-layer frame. Only `Data` frames carry a nested
/// network-layer payload; every other type is terminal at this layer.
#[derive(Clone, Copy, PartialEq, Eq, Structural, Debug)]
pub enum MacFrameType {
    Acknowledgement,
    Beacon,
    Data,
    MacCommand,
    Multipurpose,
    FragOrFragAck,
    Extended,
}

/// Revision of the link-layer standard a frame declares.
#[derive(Clone, Copy, PartialEq, Eq, Structural, Debug)]
pub enum MacFrameVersion {
    Ieee802154_2003,
    Ieee802154_2006,
    Ieee802154,
}

/// A link-layer address: a PAN identifier together with a short or an
/// extended device address.
#[derive(Clone, Copy, PartialEq, Eq, Structural, Debug)]
pub enum MacAddress {
    Short(u16, u16),
    Extended(u16, u64),
}

/// How often a coordinator emits beacons.
#[derive(Clone, Copy, PartialEq, Eq, Structural, Debug)]
pub enum BeaconOrder {
    OnDemand,
    Periodic(u8),
}

/// Fields of a beacon rendered by the sniffer.
#[derive(Clone, Copy, PartialEq, Eq, Structural, Debug)]
pub struct MacBeacon {
    pub beacon_order: BeaconOrder,
    pub pan_coordinator: bool,
    pub association_permit: bool,
    pub battery_life_extension: bool,
    pub guaranteed_time_slots_permit: bool,
    pub guaranteed_time_slots: u8,
}

/// Why a device left the network.
#[derive(Clone, Copy, PartialEq, Eq, Structural, Debug)]
pub enum DisassociationReason {
    CoordinatorLeave,
    DeviceLeave,
}

/// A link-layer command. Commands with no handling of their own are kept as
/// `Other` and rendered as such, not treated as errors.
#[derive(Clone, Copy, PartialEq, Eq, Structural, Debug)]
pub enum MacCommand {
    AssociationRequest {
        full_function_device: bool,
        mains_power: bool,
        idle_receive: bool,
        frame_protection: bool,
        allocate_address: bool,
    },
    AssociationResponse(u16),
    DisassociationNotification(DisassociationReason),
    BeaconRequest,
    DataRequest,
    Other,
}

/// Content carried by a link-layer frame.
#[derive(Clone, Copy, PartialEq, Eq, Structural, Debug)]
pub enum MacContent {
    Acknowledgement,
    Beacon(MacBeacon),
    Data,
    Command(MacCommand),
    Multipurpose,
    FragOrFragAck,
    Extended,
}

/// Header fields of a link-layer frame rendered by the sniffer.
#[derive(Clone, Copy, PartialEq, Eq, Structural, Debug)]
pub struct MacHeader {
    pub frame_type: MacFrameType,
    pub version: MacFrameVersion,
    pub frame_pending: bool,
    pub ack_request: bool,
    pub pan_id_compress: bool,
    pub seq: u8,
    pub destination: Option<MacAddress>,
    pub source: Option<MacAddress>,
}

/// A decoded link-layer frame: the outermost record handed to the layer
/// dispatcher, with the not-yet-interpreted payload bytes.
#[derive(Clone, PartialEq, Debug)]
pub struct MacFrame {
    pub header: MacHeader,
    pub content: MacContent,
    pub payload: Vec<u8>,
}

impl MacFrame {
    /// Whether this frame carries a nested network-layer payload.
    pub open spec fn spec_carries_network_payload(self) -> bool {
        self.content is Data
    }

    /// Only the `Data` content carries a nested network-layer payload.
    pub fn carries_network_payload(&self) -> (r: bool)
        ensures
            r == self.spec_carries_network_payload(),
    {
        match self.content {
            MacContent::Data => true,
            _ => false,
        }
    }
}

} // verus!
