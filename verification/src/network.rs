use vstd::prelude::*;

verus! {

/// Declared type of a network-layer frame, deciding how its payload is
/// interpreted once it is available as plaintext.
#[derive(Clone, Copy, PartialEq, Eq, Structural, Debug)]
pub enum NetworkFrameType {
    Data,
    Command,
    InterPan,
}

/// Whether the frame asks routes to be discovered along its way.
#[derive(Clone, Copy, PartialEq, Eq, Structural, Debug)]
pub enum DiscoverRoute {
    EnableDiscovery,
    SuppressDiscovery,
}

/// Multicast addressing mode of a network-layer frame.
#[derive(Clone, Copy, PartialEq, Eq, Structural, Debug)]
pub enum MulticastMode {
    NonmemberMode,
    MemberMode,
}

/// Multicast control fields rendered by the sniffer.
#[derive(Clone, Copy, PartialEq, Eq, Structural, Debug)]
pub struct MulticastControl {
    pub mode: MulticastMode,
    pub radius: u8,
    pub max_radius: u8,
}

/// A recorded source route: the relay list and the index of the next relay.
#[derive(Clone, PartialEq, Eq, Debug)]
pub struct SourceRouteFrame {
    pub index: u8,
    pub entries: Vec<u16>,
}

/// A decoded network-layer header. Produced by the frame codec; the
/// dispatcher reads `frame_type` and `security`, the rest is rendered.
#[derive(Clone, PartialEq, Eq, Debug)]
pub struct NetworkHeader {
    pub frame_type: NetworkFrameType,
    pub protocol_version: u8,
    pub discover_route: DiscoverRoute,
    pub security: bool,
    pub destination_address: u16,
    pub source_address: u16,
    pub radius: u8,
    pub sequence_number: u8,
    pub destination_ieee_address: Option<u64>,
    pub source_ieee_address: Option<u64>,
    pub multicast_control: Option<MulticastControl>,
    pub source_route_frame: Option<SourceRouteFrame>,
}

/// Kind of a many-to-one route request.
#[derive(Clone, Copy, PartialEq, Eq, Structural, Debug)]
pub enum ManyToOne {
    No,
    RouteRequestTableSupport,
    NoRouteRequestTableSupport,
}

/// Destination of a route request: a single device or a group.
#[derive(Clone, Copy, PartialEq, Eq, Structural, Debug)]
pub enum AddressType {
    Singlecast(u16),
    Multicast(u16),
}

/// A route request command.
#[derive(Clone, Copy, PartialEq, Eq, Structural, Debug)]
pub struct RouteRequest {
    pub identifier: u8,
    pub path_cost: u8,
    pub many_to_one: ManyToOne,
    pub destination_address: AddressType,
    pub destination_ieee_address: Option<u64>,
}

/// A route reply command.
#[derive(Clone, Copy, PartialEq, Eq, Structural, Debug)]
pub struct RouteReply {
    pub identifier: u8,
    pub originator_address: u16,
    pub responder_address: u16,
    pub path_cost: u8,
    pub originator_ieee_address: Option<u64>,
    pub responder_ieee_address: Option<u64>,
}

/// A network status command.
#[derive(Clone, Copy, PartialEq, Eq, Structural, Debug)]
pub struct NetworkStatus {
    pub destination: u16,
    pub status: u8,
}

/// A leave command.
#[derive(Clone, Copy, PartialEq, Eq, Structural, Debug)]
pub struct Leave {
    pub rejoin: bool,
    pub request: bool,
    pub remove_children: bool,
}

/// A route record command: the relays a frame has passed.
#[derive(Clone, PartialEq, Eq, Debug)]
pub struct RouteRecord {
    pub entries: Vec<u16>,
}

/// One neighbour entry of a link status command.
#[derive(Clone, Copy, PartialEq, Eq, Structural, Debug)]
pub struct LinkStatusEntry {
    pub address: u16,
    pub incoming_cost: u8,
    pub outgoing_cost: u8,
}

/// A link status command.
#[derive(Clone, PartialEq, Eq, Debug)]
pub struct LinkStatus {
    pub first_frame: bool,
    pub last_frame: bool,
    pub entries: Vec<LinkStatusEntry>,
}

/// A network report command.
#[derive(Clone, Copy, PartialEq, Eq, Structural, Debug)]
pub struct NetworkReport {
    pub extended_pan_identifier: u64,
    pub pan_identifier: u16,
}

/// A network update command.
#[derive(Clone, Copy, PartialEq, Eq, Structural, Debug)]
pub struct NetworkUpdate {
    pub extended_pan_identifier: u64,
    pub pan_identifier: u16,
}

/// An end-device timeout request command.
#[derive(Clone, Copy, PartialEq, Eq, Structural, Debug)]
pub struct EndDeviceTimeoutRequest {
    pub timeout_seconds: u32,
}

/// An end-device timeout response command.
#[derive(Clone, Copy, PartialEq, Eq, Structural, Debug)]
pub struct EndDeviceTimeoutResponse {
    pub status: u8,
    pub mac_keep_alive: bool,
    pub end_device_keep_alive: bool,
}

/// A decoded network-layer command. These are rendered; none of them
/// carries key material, so none feeds key learning.
#[derive(Clone, PartialEq, Eq, Debug)]
pub enum NetworkCommand {
    RouteRequest(RouteRequest),
    RouteReply(RouteReply),
    NetworkStatus(NetworkStatus),
    Leave(Leave),
    RouteRecord(RouteRecord),
    RejoinRequest,
    RejoinResponse,
    LinkStatus(LinkStatus),
    NetworkReport(NetworkReport),
    NetworkUpdate(NetworkUpdate),
    EndDeviceTimeoutRequest(EndDeviceTimeoutRequest),
    EndDeviceTimeoutResponse(EndDeviceTimeoutResponse),
}

} // verus!
