use vstd::prelude::*;

use crate::key::Key;

verus! {

/// Declared type of an application-layer frame, deciding how its payload is
/// interpreted once it is available as plaintext.
#[derive(Clone, Copy, PartialEq, Eq, Structural, Debug)]
pub enum ApplicationFrameType {
    Data,
    Command,
    Acknowledgement,
    InterPan,
}

/// A decoded application-layer header. Produced by the frame codec; the
/// dispatcher reads `frame_type` and `security`, the rest is rendered.
#[derive(Clone, Copy, PartialEq, Eq, Structural, Debug)]
pub struct ApplicationHeader {
    pub frame_type: ApplicationFrameType,
    pub acknowledge_format: bool,
    pub security: bool,
    pub acknowledge_request: bool,
    pub extended_header: bool,
    pub destination: Option<u8>,
    pub group: Option<u16>,
    pub cluster: Option<u16>,
    pub profile: Option<u16>,
    pub source: Option<u8>,
    pub counter: u8,
}

/// One round of symmetric-key key establishment between two devices.
#[derive(Clone, PartialEq, Eq, Debug)]
pub struct KeyEstablishment {
    pub initiator: u64,
    pub responder: u64,
    pub data: Vec<u8>,
}

/// A transported standard network key: the one transport-key subtype that
/// key learning folds back into the key store.
#[derive(Clone, Copy, PartialEq, Debug)]
pub struct NetworkKeyPayload {
    pub key: Key,
    pub destination: u64,
    pub source: u64,
    pub sequence: u8,
}

/// A transported key addressed from one device to another.
#[derive(Clone, Copy, PartialEq, Debug)]
pub struct AddressedKeyPayload {
    pub key: Key,
    pub destination: u64,
    pub source: u64,
}

/// A transported key shared with a partner device.
#[derive(Clone, Copy, PartialEq, Debug)]
pub struct PartnerKeyPayload {
    pub key: Key,
    pub partner: u64,
    pub initiator: bool,
}

/// A key-transport command. Only the standard network key is learned;
/// the other subtypes are rendered but deliberately not learned.
#[derive(Clone, Copy, PartialEq, Debug)]
pub enum TransportKey {
    TrustCenterMasterKey(AddressedKeyPayload),
    StandardNetworkKey(NetworkKeyPayload),
    ApplicationMasterKey(PartnerKeyPayload),
    ApplicationLinkKey(PartnerKeyPayload),
    UniqueTrustCenterLinkKey(AddressedKeyPayload),
    HighSecurityNetworkKey(NetworkKeyPayload),
}

/// An update-device command.
#[derive(Clone, Copy, PartialEq, Eq, Structural, Debug)]
pub struct UpdateDevice {
    pub address: u64,
    pub short_address: u16,
    pub status: u8,
}

/// A remove-device command.
#[derive(Clone, Copy, PartialEq, Eq, Structural, Debug)]
pub struct RemoveDevice {
    pub address: u64,
}

/// A request-key command.
#[derive(Clone, Copy, PartialEq, Eq, Structural, Debug)]
pub struct RequestKey {
    pub key_type: u8,
    pub partner_address: Option<u64>,
}

/// A switch-key command.
#[derive(Clone, Copy, PartialEq, Eq, Structural, Debug)]
pub struct SwitchKey {
    pub sequence: u8,
}

/// A tunnel command.
#[derive(Clone, Copy, PartialEq, Eq, Structural, Debug)]
pub struct Tunnel {
    pub destination: u64,
}

/// A verify-key command.
#[derive(Clone, PartialEq, Eq, Debug)]
pub struct VerifyKey {
    pub source: u64,
    pub key_type: u8,
    pub value: Vec<u8>,
}

/// A confirm-key command.
#[derive(Clone, Copy, PartialEq, Eq, Structural, Debug)]
pub struct ConfirmKey {
    pub destination: u64,
    pub key_type: u8,
    pub status: u8,
}

/// A decoded application-layer command.
#[derive(Clone, PartialEq, Debug)]
pub enum ApplicationCommand {
    SymmetricKeyKeyEstablishment1(KeyEstablishment),
    SymmetricKeyKeyEstablishment2(KeyEstablishment),
    SymmetricKeyKeyEstablishment3(KeyEstablishment),
    SymmetricKeyKeyEstablishment4(KeyEstablishment),
    TransportKey(TransportKey),
    UpdateDevice(UpdateDevice),
    RemoveDevice(RemoveDevice),
    RequestKey(RequestKey),
    SwitchKey(SwitchKey),
    EntityAuthenticationInitiatorChallenge,
    EntityAuthenticationResponderChallenge,
    EntityAuthenticationInitiatorMacAndData,
    EntityAuthenticationResponderMacAndData,
    Tunnel(Tunnel),
    VerifyKey(VerifyKey),
    ConfirmKey(ConfirmKey),
}

impl ApplicationCommand {
    /// The standard network key this command transports, if it is a
    /// standard-network-key transport command.
    pub open spec fn spec_transported_network_key(self) -> Option<NetworkKeyPayload> {
        match self {
            ApplicationCommand::TransportKey(TransportKey::StandardNetworkKey(payload)) => {
                Some(payload)
            },
            _ => None,
        }
    }

    /// Extract the standard network key a command transports, if any. The
    /// other transport-key subtypes yield nothing: they are rendered but
    /// not learned.
    pub fn transported_network_key(&self) -> (r: Option<NetworkKeyPayload>)
        ensures
            r == self.spec_transported_network_key(),
    {
        match self {
            ApplicationCommand::TransportKey(TransportKey::StandardNetworkKey(payload)) => {
                Some(*payload)
            },
            _ => None,
        }
    }
}

} // verus!
