use psila_sniffer::application::{
    AddressedKeyPayload, ApplicationCommand, ApplicationFrameType, ApplicationHeader,
    NetworkKeyPayload, SwitchKey, TransportKey,
};
use psila_sniffer::error::{DecodeStage, ErrorKind};
use psila_sniffer::key::Key;
use psila_sniffer::link::{
    BeaconOrder, MacBeacon, MacContent, MacFrame, MacFrameType, MacFrameVersion, MacHeader,
};
use psila_sniffer::network::{DiscoverRoute, NetworkCommand, NetworkFrameType, NetworkHeader};
use psila_sniffer::network::{Leave, NetworkStatus};
use psila_sniffer::parser::{Event, LayerParse, NextStep, Parser, Resume};

fn mac_header(frame_type: MacFrameType) -> MacHeader {
    MacHeader {
        frame_type,
        version: MacFrameVersion::Ieee802154_2003,
        frame_pending: false,
        ack_request: false,
        pan_id_compress: false,
        seq: 17,
        destination: None,
        source: None,
    }
}

fn network_header(frame_type: NetworkFrameType, security: bool) -> NetworkHeader {
    NetworkHeader {
        frame_type,
        protocol_version: 2,
        discover_route: DiscoverRoute::SuppressDiscovery,
        security,
        destination_address: 0x1234,
        source_address: 0x5678,
        radius: 30,
        sequence_number: 99,
        destination_ieee_address: None,
        source_ieee_address: None,
        multicast_control: None,
        source_route_frame: None,
    }
}

fn application_header(frame_type: ApplicationFrameType, security: bool) -> ApplicationHeader {
    ApplicationHeader {
        frame_type,
        acknowledge_format: false,
        security,
        acknowledge_request: false,
        extended_header: false,
        destination: Some(1),
        group: None,
        cluster: Some(0x0006),
        profile: Some(0x0104),
        source: Some(2),
        counter: 5,
    }
}

fn network_key_command(bytes: [u8; 16]) -> ApplicationCommand {
    ApplicationCommand::TransportKey(TransportKey::StandardNetworkKey(NetworkKeyPayload {
        key: Key::from_bytes(bytes),
        destination: 0x1122_3344_5566_7788,
        source: 0x99AA_BBCC_DDEE_FF00,
        sequence: 0,
    }))
}

#[test]
fn beacon_frame_is_terminal_at_the_link_layer() {
    let parser = Parser::new();
    let frame = MacFrame {
        header: mac_header(MacFrameType::Beacon),
        content: MacContent::Beacon(MacBeacon {
            beacon_order: BeaconOrder::OnDemand,
            pan_coordinator: true,
            association_permit: true,
            battery_life_extension: false,
            guaranteed_time_slots_permit: false,
            guaranteed_time_slots: 0,
        }),
        payload: Vec::new(),
    };
    let parse = parser.parse_802154_mac(frame);
    assert_eq!(parse.events.len(), 1);
    assert!(matches!(parse.events[0], Event::Link(_)));
    assert!(parse.network_payload.is_none());
}

#[test]
fn data_frame_hands_its_payload_to_the_network_layer() {
    let parser = Parser::new();
    let frame = MacFrame {
        header: mac_header(MacFrameType::Data),
        content: MacContent::Data,
        payload: vec![1, 2, 3, 4],
    };
    let parse = parser.parse_802154_mac(frame);
    assert_eq!(parse.events.len(), 1);
    assert_eq!(parse.network_payload, Some(vec![1, 2, 3, 4]));
}

#[test]
fn acknowledgement_frame_is_terminal_at_the_link_layer() {
    let parser = Parser::new();
    let frame = MacFrame {
        header: mac_header(MacFrameType::Acknowledgement),
        content: MacContent::Acknowledgement,
        payload: Vec::new(),
    };
    let parse = parser.parse_802154_mac(frame);
    assert_eq!(parse.events.len(), 1);
    assert!(parse.network_payload.is_none());
}

#[test]
fn network_header_failure_drops_the_frame() {
    let parser = Parser::new();
    let parse = parser.parse_network_frame(vec![1, 2], Err(ErrorKind::InvalidValue));
    match parse {
        LayerParse::Dropped { events } => {
            assert_eq!(events.len(), 1);
            assert_eq!(
                events[0],
                Event::DecodeFailure {
                    stage: DecodeStage::NetworkHeader,
                    error: ErrorKind::InvalidValue,
                }
            );
        }
        _ => panic!("expected the frame to be dropped"),
    }
}

#[test]
fn unsecured_network_data_reaches_the_application_layer_without_the_engine() {
    // Network security off: the engine is not invoked at this layer and
    // the remaining bytes pass through unchanged.
    let parser = Parser::new();
    let payload = vec![0xAA, 0xBB, 0xCC, 0xDD, 0xEE];
    let parse = parser.parse_network_frame(
        payload,
        Ok((network_header(NetworkFrameType::Data, false), 2)),
    );
    match parse {
        LayerParse::Ready { events, next } => {
            assert_eq!(events.len(), 1);
            assert!(matches!(events[0], Event::Network(_)));
            match next {
                NextStep::DecodeApplication { payload } => {
                    assert_eq!(payload, vec![0xCC, 0xDD, 0xEE]);
                }
                _ => panic!("a data frame's payload goes to the application layer"),
            }
        }
        _ => panic!("no decryption may be requested without the security flag"),
    }
}

#[test]
fn secured_network_header_requests_exactly_one_trial() {
    let parser = Parser::new();
    let payload = vec![0xAA, 0xBB, 0xCC, 0xDD, 0xEE];
    let parse = parser.parse_network_frame(
        payload,
        Ok((network_header(NetworkFrameType::Command, true), 2)),
    );
    match parse {
        LayerParse::Decrypt { events, request } => {
            assert_eq!(events.len(), 1);
            assert_eq!(request.payload, vec![0xAA, 0xBB, 0xCC, 0xDD, 0xEE]);
            assert_eq!(request.offset, 2);
            assert_eq!(request.resume, Resume::Network(NetworkFrameType::Command));
        }
        _ => panic!("the security flag must invoke the trial engine"),
    }
}

#[test]
fn layer_security_flags_are_independent() {
    // Network layer in the clear, application layer protected: no trial at
    // the network layer, exactly one requested for the application layer.
    let parser = Parser::new();
    let parse = parser.parse_network_frame(
        vec![0x10, 0x20, 0x30],
        Ok((network_header(NetworkFrameType::Data, false), 1)),
    );
    let aps_payload = match parse {
        LayerParse::Ready { next: NextStep::DecodeApplication { payload }, .. } => payload,
        _ => panic!("network layer must pass through in the clear"),
    };
    let parse = parser.parse_application_service_frame(
        aps_payload,
        Ok((application_header(ApplicationFrameType::Command, true), 1)),
    );
    match parse {
        LayerParse::Decrypt { request, .. } => {
            assert_eq!(request.payload, vec![0x20, 0x30]);
            assert_eq!(request.offset, 1);
            assert_eq!(
                request.resume,
                Resume::Application(ApplicationFrameType::Command)
            );
        }
        _ => panic!("the application layer's own flag must invoke the engine"),
    }
}

#[test]
fn layer_security_flags_are_independent_the_other_way() {
    // Network layer protected, application layer in the clear.
    let parser = Parser::new();
    let parse = parser.parse_network_frame(
        vec![0x10, 0x20, 0x30],
        Ok((network_header(NetworkFrameType::Data, true), 1)),
    );
    let request = match parse {
        LayerParse::Decrypt { request, .. } => request,
        _ => panic!("the network layer's flag must invoke the engine"),
    };
    assert_eq!(request.resume, Resume::Network(NetworkFrameType::Data));
    // Once the engine has produced the plaintext, the application header
    // without its own flag passes through without another trial.
    let next = parser.continue_with_plaintext(request.resume, vec![0x41, 0x42]);
    let aps_payload = match next {
        NextStep::DecodeApplication { payload } => payload,
        _ => panic!("a data frame's plaintext goes to the application layer"),
    };
    let parse = parser.parse_application_service_frame(
        aps_payload,
        Ok((application_header(ApplicationFrameType::Data, false), 1)),
    );
    match parse {
        LayerParse::Ready { next: NextStep::Finished { events }, .. } => {
            assert_eq!(events.len(), 1);
            assert_eq!(events[0], Event::DataPayload(vec![0x42]));
        }
        _ => panic!("no second trial may be requested"),
    }
}

#[test]
fn empty_network_plaintext_ends_the_frame_without_error() {
    let parser = Parser::new();
    let parse = parser.parse_network_frame(
        vec![0x10, 0x20],
        Ok((network_header(NetworkFrameType::Data, false), 2)),
    );
    match parse {
        LayerParse::Ready { next: NextStep::Finished { events }, .. } => {
            assert!(events.is_empty());
        }
        _ => panic!("an empty payload ends the frame quietly"),
    }
}

#[test]
fn network_command_plaintext_is_decoded_as_a_command() {
    let parser = Parser::new();
    let next = parser.continue_with_plaintext(
        Resume::Network(NetworkFrameType::Command),
        vec![0x09, 0x0A],
    );
    match next {
        NextStep::DecodeNetworkCommand { payload } => assert_eq!(payload, vec![0x09, 0x0A]),
        _ => panic!("a command frame's plaintext is decoded as a network command"),
    }
}

#[test]
fn network_command_is_rendered() {
    let parser = Parser::new();
    let command = NetworkCommand::NetworkStatus(NetworkStatus {
        destination: 0x1234,
        status: 0x0B,
    });
    let events = parser.parse_network_command(Ok(command.clone()));
    assert_eq!(events.len(), 1);
    assert_eq!(events[0], Event::NetworkCommand(command));
}

#[test]
fn network_command_failure_is_reported() {
    let parser = Parser::new();
    let events = parser.parse_network_command(Err(ErrorKind::UnknownNetworkCommand));
    assert_eq!(events.len(), 1);
    assert_eq!(
        events[0],
        Event::DecodeFailure {
            stage: DecodeStage::NetworkCommand,
            error: ErrorKind::UnknownNetworkCommand,
        }
    );
}

#[test]
fn application_header_failure_is_reported() {
    let parser = Parser::new();
    let parse =
        parser.parse_application_service_frame(vec![1], Err(ErrorKind::NotEnoughSpace));
    match parse {
        LayerParse::Dropped { events } => {
            assert_eq!(
                events[0],
                Event::DecodeFailure {
                    stage: DecodeStage::ApplicationHeader,
                    error: ErrorKind::NotEnoughSpace,
                }
            );
        }
        _ => panic!("expected the frame to be dropped"),
    }
}

#[test]
fn application_acknowledgement_payload_is_rendered_only_when_present() {
    let parser = Parser::new();
    let next = parser.continue_with_plaintext(
        Resume::Application(ApplicationFrameType::Acknowledgement),
        Vec::new(),
    );
    match next {
        NextStep::Finished { events } => assert!(events.is_empty()),
        _ => panic!("an acknowledgement is terminal"),
    }
    let next = parser.continue_with_plaintext(
        Resume::Application(ApplicationFrameType::Acknowledgement),
        vec![7, 8],
    );
    match next {
        NextStep::Finished { events } => {
            assert_eq!(events, vec![Event::AcknowledgementPayload(vec![7, 8])]);
        }
        _ => panic!("an acknowledgement is terminal"),
    }
}

#[test]
fn application_inter_pan_payload_is_rendered() {
    let parser = Parser::new();
    let next = parser.continue_with_plaintext(
        Resume::Application(ApplicationFrameType::InterPan),
        vec![3],
    );
    match next {
        NextStep::Finished { events } => {
            assert_eq!(events, vec![Event::InterPanPayload(vec![3])]);
        }
        _ => panic!("an inter-PAN payload is terminal"),
    }
}

#[test]
fn standard_network_key_command_is_learned() {
    let mut parser = Parser::new();
    let events = parser.handle_application_service_command(Ok(network_key_command([0x42; 16])));
    assert_eq!(events.len(), 2);
    assert!(matches!(events[0], Event::ApplicationCommand(_)));
    assert_eq!(events[1], Event::KeyLearned(Key::from_bytes([0x42; 16])));
    assert_eq!(parser.security.keys.len(), 2);
    assert_eq!(parser.security.keys[1].bytes, [0x42; 16]);
}

#[test]
fn duplicate_network_key_command_is_not_learned_twice() {
    let mut parser = Parser::new();
    parser.handle_application_service_command(Ok(network_key_command([0x42; 16])));
    let events = parser.handle_application_service_command(Ok(network_key_command([0x42; 16])));
    assert_eq!(events.len(), 2);
    assert_eq!(events[1], Event::KeyAlreadyKnown(Key::from_bytes([0x42; 16])));
    assert_eq!(parser.security.keys.len(), 2);
}

#[test]
fn other_transport_key_subtypes_are_rendered_but_not_learned() {
    let mut parser = Parser::new();
    let command = ApplicationCommand::TransportKey(TransportKey::TrustCenterMasterKey(
        AddressedKeyPayload {
            key: Key::from_bytes([0x55; 16]),
            destination: 1,
            source: 2,
        },
    ));
    let events = parser.handle_application_service_command(Ok(command));
    assert_eq!(events.len(), 1);
    assert!(matches!(events[0], Event::ApplicationCommand(_)));
    assert_eq!(parser.security.keys.len(), 1);
}

#[test]
fn non_key_application_commands_leave_the_store_alone() {
    let mut parser = Parser::new();
    let command = ApplicationCommand::SwitchKey(SwitchKey {
        sequence: 9,
    });
    let events = parser.handle_application_service_command(Ok(command.clone()));
    assert_eq!(events, vec![Event::ApplicationCommand(command)]);
    assert_eq!(parser.security.keys.len(), 1);
}

#[test]
fn application_command_failure_is_reported() {
    let mut parser = Parser::new();
    let events = parser.handle_application_service_command(Err(
        ErrorKind::UnknownApplicationCommandIdentifier,
    ));
    assert_eq!(
        events,
        vec![Event::DecodeFailure {
            stage: DecodeStage::ApplicationCommand,
            error: ErrorKind::UnknownApplicationCommandIdentifier,
        }]
    );
    assert_eq!(parser.security.keys.len(), 1);
}

#[test]
fn full_store_is_reported_through_the_dispatcher() {
    let mut parser = Parser::new();
    for i in 0..15u8 {
        assert!(parser.security.add_key(Key::from_bytes([i + 1; 16])).is_ok());
    }
    let events = parser.handle_application_service_command(Ok(network_key_command([0xEE; 16])));
    assert_eq!(events.len(), 2);
    assert_eq!(events[1], Event::KeyStoreFull(Key::from_bytes([0xEE; 16])));
    assert_eq!(parser.security.keys.len(), 16);
}

#[test]
fn leave_command_round_trips_through_the_event() {
    let parser = Parser::new();
    let command = NetworkCommand::Leave(Leave {
        rejoin: true,
        request: false,
        remove_children: true,
    });
    let events = parser.parse_network_command(Ok(command.clone()));
    assert_eq!(events[0], Event::NetworkCommand(command));
}

#[test]
fn error_messages_match_their_kinds() {
    assert_eq!(ErrorKind::NotEnoughSpace.message(), "Not enough space");
    assert_eq!(ErrorKind::WrongNumberOfBytes.message(), "Wrong number of bytes");
    assert_eq!(ErrorKind::InvalidValue.message(), "Invalid value");
    assert_eq!(ErrorKind::NotImplemented.message(), "Not implemented");
    assert_eq!(ErrorKind::NoShortAddress.message(), "No short address");
    assert_eq!(ErrorKind::NoExtendedAddress.message(), "No extended address");
    assert_eq!(ErrorKind::UnknownFrameType.message(), "Unknown frame type");
    assert_eq!(ErrorKind::BrokenRelayList.message(), "Broken relay list");
    assert_eq!(ErrorKind::UnknownNetworkCommand.message(), "Unknown network command");
    assert_eq!(ErrorKind::UnknownDeliveryMode.message(), "Unknown delivery mode");
    assert_eq!(ErrorKind::UnknownSecurityLevel.message(), "Unknown security level");
    assert_eq!(ErrorKind::UnknownKeyIdentifier.message(), "Unknown key identifier");
    assert_eq!(
        ErrorKind::UnknownApplicationCommandIdentifier.message(),
        "Unknown application command identifier"
    );
    assert_eq!(ErrorKind::UnknownDiscoverRoute.message(), "Unknown discovery route");
    assert_eq!(
        ErrorKind::UnknownClusterIdentifier.message(),
        "Unknown cluster identifier"
    );
    assert_eq!(
        ErrorKind::UnsupportedAttributeValue.message(),
        "Unsupported attribute value"
    );
    assert_eq!(ErrorKind::CryptoError.message(), "Crypto error");
}

#[test]
fn stage_messages_match_their_stages() {
    assert_eq!(DecodeStage::NetworkHeader.message(), "Failed to decode network frame");
    assert_eq!(DecodeStage::SecurityHeader.message(), "Failed to parse security header");
    assert_eq!(DecodeStage::NetworkCommand.message(), "Failed to decode network command");
    assert_eq!(DecodeStage::ApplicationHeader.message(), "Failed to parse APS header");
    assert_eq!(DecodeStage::ApplicationCommand.message(), "Failed to parse APS command");
}
