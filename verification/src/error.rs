use vstd::prelude::*;

verus! {

/// The frame codec's error taxonomy. A decode failure at any layer is
/// reported with one of these kinds and drops the remaining layers of the
/// frame, never the receive loop.
#[derive(Clone, Copy, PartialEq, Eq, Structural, Debug)]
pub enum ErrorKind {
    NotEnoughSpace,
    WrongNumberOfBytes,
    InvalidValue,
    NotImplemented,
    NoShortAddress,
    NoExtendedAddress,
    UnknownFrameType,
    BrokenRelayList,
    UnknownNetworkCommand,
    UnknownDeliveryMode,
    UnknownSecurityLevel,
    UnknownKeyIdentifier,
    UnknownApplicationCommandIdentifier,
    UnknownDiscoverRoute,
    UnknownClusterIdentifier,
    UnsupportedAttributeValue,
    CryptoError,
}

impl ErrorKind {
    /// Human-readable description of the error kind.
    pub fn message(&self) -> (r: &'static str)
        ensures
            r@ == self.spec_message(),
    {
        match self {
            ErrorKind::NotEnoughSpace => "Not enough space",
            ErrorKind::WrongNumberOfBytes => "Wrong number of bytes",
            ErrorKind::InvalidValue => "Invalid value",
            ErrorKind::NotImplemented => "Not implemented",
            ErrorKind::NoShortAddress => "No short address",
            ErrorKind::NoExtendedAddress => "No extended address",
            ErrorKind::UnknownFrameType => "Unknown frame type",
            ErrorKind::BrokenRelayList => "Broken relay list",
            ErrorKind::UnknownNetworkCommand => "Unknown network command",
            ErrorKind::UnknownDeliveryMode => "Unknown delivery mode",
            ErrorKind::UnknownSecurityLevel => "Unknown security level",
            ErrorKind::UnknownKeyIdentifier => "Unknown key identifier",
            ErrorKind::UnknownApplicationCommandIdentifier => {
                "Unknown application command identifier"
            },
            ErrorKind::UnknownDiscoverRoute => "Unknown discovery route",
            ErrorKind::UnknownClusterIdentifier => "Unknown cluster identifier",
            ErrorKind::UnsupportedAttributeValue => "Unsupported attribute value",
            ErrorKind::CryptoError => "Crypto error",
        }
    }

    /// What `message` returns, for use in contracts.
    pub open spec fn spec_message(self) -> Seq<char> {
        match self {
            ErrorKind::NotEnoughSpace => "Not enough space"@,
            ErrorKind::WrongNumberOfBytes => "Wrong number of bytes"@,
            ErrorKind::InvalidValue => "Invalid value"@,
            ErrorKind::NotImplemented => "Not implemented"@,
            ErrorKind::NoShortAddress => "No short address"@,
            ErrorKind::NoExtendedAddress => "No extended address"@,
            ErrorKind::UnknownFrameType => "Unknown frame type"@,
            ErrorKind::BrokenRelayList => "Broken relay list"@,
            ErrorKind::UnknownNetworkCommand => "Unknown network command"@,
            ErrorKind::UnknownDeliveryMode => "Unknown delivery mode"@,
            ErrorKind::UnknownSecurityLevel => "Unknown security level"@,
            ErrorKind::UnknownKeyIdentifier => "Unknown key identifier"@,
            ErrorKind::UnknownApplicationCommandIdentifier => {
                "Unknown application command identifier"@
            },
            ErrorKind::UnknownDiscoverRoute => "Unknown discovery route"@,
            ErrorKind::UnknownClusterIdentifier => "Unknown cluster identifier"@,
            ErrorKind::UnsupportedAttributeValue => "Unsupported attribute value"@,
            ErrorKind::CryptoError => "Crypto error"@,
        }
    }
}

/// The decode stage at which a frame was dropped. Each stage corresponds to
/// one collaborator call whose failure ends the frame's processing.
#[derive(Clone, Copy, PartialEq, Eq, Structural, Debug)]
pub enum DecodeStage {
    NetworkHeader,
    SecurityHeader,
    NetworkCommand,
    ApplicationHeader,
    ApplicationCommand,
}

impl DecodeStage {
    /// Human-readable description of the failed stage.
    pub fn message(&self) -> (r: &'static str)
        ensures
            r@ == self.spec_message(),
    {
        match self {
            DecodeStage::NetworkHeader => "Failed to decode network frame",
            DecodeStage::SecurityHeader => "Failed to parse security header",
            DecodeStage::NetworkCommand => "Failed to decode network command",
            DecodeStage::ApplicationHeader => "Failed to parse APS header",
            DecodeStage::ApplicationCommand => "Failed to parse APS command",
        }
    }

    /// What `message` returns, for use in contracts.
    pub open spec fn spec_message(self) -> Seq<char> {
        match self {
            DecodeStage::NetworkHeader => "Failed to decode network frame"@,
            DecodeStage::SecurityHeader => "Failed to parse security header"@,
            DecodeStage::NetworkCommand => "Failed to decode network command"@,
            DecodeStage::ApplicationHeader => "Failed to parse APS header"@,
            DecodeStage::ApplicationCommand => "Failed to parse APS command"@,
        }
    }
}

/// Returned when an insertion into the key store finds it already holding
/// its maximum number of keys. The new key is not retained; existing keys
/// are untouched.
#[derive(Clone, Copy, PartialEq, Eq, Structural, Debug)]
pub struct CapacityExceeded;

} // verus!
