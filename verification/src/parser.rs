use vstd::prelude::*;

use crate::application::{ApplicationCommand, ApplicationFrameType, ApplicationHeader};
use crate::error::{DecodeStage, ErrorKind};
use crate::key::Key;
use crate::link::MacFrame;
use crate::network::{NetworkCommand, NetworkFrameType, NetworkHeader};
use crate::security::{contains_key, learn_spec, LearnOutcome, SecurityService, KEY_STORE_CAPACITY};

verus! {

/// One rendered decode record: every layer that is fully interpreted yields
/// exactly one of these, and every layer where decoding stopped yields a
/// `DecodeFailure` with the reason, so nothing is lost silently.
#[derive(Clone, PartialEq, Debug)]
pub enum Event {
    /// A link-layer frame was interpreted.
    Link(MacFrame),
    /// A network-layer header was interpreted.
    Network(NetworkHeader),
    /// A network-layer command was interpreted.
    NetworkCommand(NetworkCommand),
    /// An application-layer header was interpreted.
    Application(ApplicationHeader),
    /// An application-layer command was interpreted.
    ApplicationCommand(ApplicationCommand),
    /// An application-layer data payload, rendered as-is.
    DataPayload(Vec<u8>),
    /// A non-empty application-layer acknowledgement payload.
    AcknowledgementPayload(Vec<u8>),
    /// An application-layer inter-PAN payload.
    InterPanPayload(Vec<u8>),
    /// Key learning appended this newly observed key to the store.
    KeyLearned(Key),
    /// Key learning saw a key already present; the store is unchanged.
    KeyAlreadyKnown(Key),
    /// Key learning had to drop this key: the store is at capacity.
    KeyStoreFull(Key),
    /// Decoding stopped at this stage with this reason; the frame is
    /// dropped here and later layers are not attempted.
    DecodeFailure { stage: DecodeStage, error: ErrorKind },
}

/// Where processing picks up once a decrypted payload is available: the
/// frame type of the layer whose payload was protected.
#[derive(Clone, Copy, PartialEq, Debug)]
pub enum Resume {
    Network(NetworkFrameType),
    Application(ApplicationFrameType),
}

/// A request to run the decryption trial engine: the layer's bytes, where
/// its security envelope starts, and where to pick up on success.
pub struct DecryptRequest {
    pub payload: Vec<u8>,
    pub offset: usize,
    pub resume: Resume,
}

/// What the dispatcher asks for after a layer's plaintext was interpreted.
pub enum NextStep {
    /// This frame is fully handled; nothing deeper to decode.
    Finished { events: Vec<Event> },
    /// Hand these bytes to the codec as a network-layer command.
    DecodeNetworkCommand { payload: Vec<u8> },
    /// Hand these bytes to the codec as an application-layer frame.
    DecodeApplication { payload: Vec<u8> },
    /// Hand these bytes to the codec as an application-layer command.
    DecodeApplicationCommand { payload: Vec<u8> },
}

/// Outcome of dispatching one layer's header.
pub enum LayerParse {
    /// Decoding stopped here; the reason is in the events.
    Dropped { events: Vec<Event> },
    /// The payload is available in the clear; processing continues.
    Ready { events: Vec<Event>, next: NextStep },
    /// The payload is protected: the trial engine must run first.
    Decrypt { events: Vec<Event>, request: DecryptRequest },
}

/// Result of dispatching a link-layer frame.
pub struct MacParse {
    pub events: Vec<Event>,
    /// For a data frame, the bytes to decode as a network-layer frame;
    /// every other frame type is terminal at the link layer.
    pub network_payload: Option<Vec<u8>>,
}

/// How the dispatcher continues at the network layer once that layer's
/// payload is available as plaintext.
pub open spec fn network_next_ok(next: NextStep, frame_type: NetworkFrameType, plaintext: Seq<
    u8,
>) -> bool {
    if plaintext.len() == 0 {
        next matches NextStep::Finished { events } && events@.len() == 0
    } else {
        match frame_type {
            NetworkFrameType::Command => next matches NextStep::DecodeNetworkCommand { payload }
                && payload@ == plaintext,
            NetworkFrameType::Data | NetworkFrameType::InterPan => next
                matches NextStep::DecodeApplication { payload } && payload@ == plaintext,
        }
    }
}

/// How the dispatcher continues at the application layer once that layer's
/// payload is available as plaintext.
pub open spec fn application_next_ok(
    next: NextStep,
    frame_type: ApplicationFrameType,
    plaintext: Seq<u8>,
) -> bool {
    match frame_type {
        ApplicationFrameType::Data => next matches NextStep::Finished { events }
            && events@.len() == 1 && (events@[0] matches Event::DataPayload(payload) && payload@
            == plaintext),
        ApplicationFrameType::Command => next matches NextStep::DecodeApplicationCommand {
            payload,
        } && payload@ == plaintext,
        ApplicationFrameType::Acknowledgement => {
            if plaintext.len() == 0 {
                next matches NextStep::Finished { events } && events@.len() == 0
            } else {
                next matches NextStep::Finished { events } && events@.len() == 1 && (events@[0]
                    matches Event::AcknowledgementPayload(payload) && payload@ == plaintext)
            }
        },
        ApplicationFrameType::InterPan => next matches NextStep::Finished { events }
            && events@.len() == 1 && (events@[0] matches Event::InterPanPayload(payload)
            && payload@ == plaintext),
    }
}

/// The layer dispatcher: classifies each decoded record, decides which
/// decoding step comes next, runs key learning on observed key transport
/// commands, and owns the key store that carries over between frames.
pub struct Parser {
    pub security: SecurityService,
}

impl Parser {
    /// A fresh dispatcher whose key store holds only the default
    /// pre-shared key.
    pub fn new() -> (r: Parser)
        ensures
            r.security.keys@.len() == 1,
            r.security.keys@[0]@ == crate::security::DEFAULT_LINK_KEY@,
    {
        Parser { security: SecurityService::new() }
    }

    /// Classify a link-layer frame. Every frame yields exactly one
    /// rendered record; only the data type carries a nested network-layer
    /// payload, all other types are terminal at this layer.
    pub fn parse_802154_mac(&self, frame: MacFrame) -> (r: MacParse)
        ensures
            r.events@.len() == 1,
            r.events@[0] == Event::Link(frame),
            match r.network_payload {
                Some(payload) => frame.spec_carries_network_payload() && payload@
                    == frame.payload@,
                None => !frame.spec_carries_network_payload(),
            },
    {
        let network_payload = if frame.carries_network_payload() {
            Some(copy_suffix(&frame.payload, 0))
        } else {
            None
        };
        let mut events: Vec<Event> = Vec::new();
        events.push(Event::Link(frame));
        MacParse { events, network_payload }
    }

    /// Dispatch the codec's decode of a network-layer header: drop the
    /// frame on a decode failure, ask for decryption when the header's
    /// security flag is set, and otherwise pass the remaining bytes on
    /// unchanged. The trial engine runs for this layer exactly when the
    /// security flag is set.
    pub fn parse_network_frame(&self, payload: Vec<u8>, decoded: Result<
        (NetworkHeader, usize),
        ErrorKind,
    >) -> (r: LayerParse)
        requires
            decoded matches Ok((header, used)) ==> used <= payload@.len(),
        ensures
            match decoded {
                Err(error) => r matches LayerParse::Dropped { events } && events@.len() == 1
                    && events@[0] == (Event::DecodeFailure {
                    stage: DecodeStage::NetworkHeader,
                    error,
                }),
                Ok((header, used)) => {
                    if header.security {
                        r matches LayerParse::Decrypt { events, request } && events@.len() == 1
                            && events@[0] == Event::Network(header) && request.payload@
                            == payload@ && request.offset == used && request.resume
                            == Resume::Network(header.frame_type)
                    } else {
                        r matches LayerParse::Ready { events, next } && events@.len() == 1
                            && events@[0] == Event::Network(header) && network_next_ok(
                            next,
                            header.frame_type,
                            payload@.skip(used as int),
                        )
                    }
                },
            },
    {
        let (header, used) = match decoded {
            Ok(pair) => pair,
            Err(error) => {
                let mut events: Vec<Event> = Vec::new();
                events.push(Event::DecodeFailure { stage: DecodeStage::NetworkHeader, error });
                return LayerParse::Dropped { events };
            },
        };
        let frame_type = header.frame_type;
        let security = header.security;
        let mut events: Vec<Event> = Vec::new();
        events.push(Event::Network(header));
        if security {
            let request = DecryptRequest {
                payload,
                offset: used,
                resume: Resume::Network(frame_type),
            };
            LayerParse::Decrypt { events, request }
        } else {
            let plaintext = copy_suffix(&payload, used);
            let next = self.continue_with_plaintext(Resume::Network(frame_type), plaintext);
            LayerParse::Ready { events, next }
        }
    }

    /// Dispatch the codec's decode of an application-layer header, in the
    /// same way as at the network layer. Application-layer encryption is
    /// independent of network-layer encryption: the trial engine runs for
    /// this layer exactly when this header's own security flag is set.
    pub fn parse_application_service_frame(&self, payload: Vec<u8>, decoded: Result<
        (ApplicationHeader, usize),
        ErrorKind,
    >) -> (r: LayerParse)
        requires
            decoded matches Ok((header, used)) ==> used <= payload@.len(),
        ensures
            match decoded {
                Err(error) => r matches LayerParse::Dropped { events } && events@.len() == 1
                    && events@[0] == (Event::DecodeFailure {
                    stage: DecodeStage::ApplicationHeader,
                    error,
                }),
                Ok((header, used)) => {
                    if header.security {
                        r matches LayerParse::Decrypt { events, request } && events@.len() == 1
                            && events@[0] == Event::Application(header) && request.payload@
                            == payload@ && request.offset == used && request.resume
                            == Resume::Application(header.frame_type)
                    } else {
                        r matches LayerParse::Ready { events, next } && events@.len() == 1
                            && events@[0] == Event::Application(header) && application_next_ok(
                            next,
                            header.frame_type,
                            payload@.skip(used as int),
                        )
                    }
                },
            },
    {
        let (header, used) = match decoded {
            Ok(pair) => pair,
            Err(error) => {
                let mut events: Vec<Event> = Vec::new();
                events.push(
                    Event::DecodeFailure { stage: DecodeStage::ApplicationHeader, error },
                );
                return LayerParse::Dropped { events };
            },
        };
        let frame_type = header.frame_type;
        let security = header.security;
        let mut events: Vec<Event> = Vec::new();
        events.push(Event::Application(header));
        if security {
            let request = DecryptRequest {
                payload,
                offset: used,
                resume: Resume::Application(frame_type),
            };
            LayerParse::Decrypt { events, request }
        } else {
            let plaintext = copy_suffix(&payload, used);
            let next = self.continue_with_plaintext(Resume::Application(frame_type), plaintext);
            LayerParse::Ready { events, next }
        }
    }

    /// Continue once a layer's payload is available as plaintext, whether
    /// it was passed through in the clear or produced by the trial engine:
    /// branch on the frame type recorded when the layer's header was
    /// dispatched. At the network layer an empty plaintext ends the frame
    /// without being an error.
    pub fn continue_with_plaintext(&self, resume: Resume, plaintext: Vec<u8>) -> (r: NextStep)
        ensures
            match resume {
                Resume::Network(frame_type) => network_next_ok(r, frame_type, plaintext@),
                Resume::Application(frame_type) => application_next_ok(r, frame_type, plaintext@),
            },
    {
        match resume {
            Resume::Network(frame_type) => {
                if plaintext.len() == 0 {
                    NextStep::Finished { events: Vec::new() }
                } else {
                    match frame_type {
                        NetworkFrameType::Command => NextStep::DecodeNetworkCommand {
                            payload: plaintext,
                        },
                        NetworkFrameType::Data | NetworkFrameType::InterPan => {
                            NextStep::DecodeApplication { payload: plaintext }
                        },
                    }
                }
            },
            Resume::Application(frame_type) => {
                match frame_type {
                    ApplicationFrameType::Data => {
                        let mut events: Vec<Event> = Vec::new();
                        events.push(Event::DataPayload(plaintext));
                        NextStep::Finished { events }
                    },
                    ApplicationFrameType::Command => NextStep::DecodeApplicationCommand {
                        payload: plaintext,
                    },
                    ApplicationFrameType::Acknowledgement => {
                        let mut events: Vec<Event> = Vec::new();
                        if plaintext.len() > 0 {
                            events.push(Event::AcknowledgementPayload(plaintext));
                        }
                        NextStep::Finished { events }
                    },
                    ApplicationFrameType::InterPan => {
                        let mut events: Vec<Event> = Vec::new();
                        events.push(Event::InterPanPayload(plaintext));
                        NextStep::Finished { events }
                    },
                }
            },
        }
    }

    /// Render the codec's decode of a network-layer command. None of these
    /// commands carries key material, so the store is never consulted.
    pub fn parse_network_command(&self, decoded: Result<NetworkCommand, ErrorKind>) -> (events:
        Vec<Event>)
        ensures
            match decoded {
                Ok(command) => events@.len() == 1 && events@[0] == Event::NetworkCommand(command),
                Err(error) => events@.len() == 1 && events@[0] == (Event::DecodeFailure {
                    stage: DecodeStage::NetworkCommand,
                    error,
                }),
            },
    {
        let mut events: Vec<Event> = Vec::new();
        match decoded {
            Ok(command) => events.push(Event::NetworkCommand(command)),
            Err(error) => events.push(
                Event::DecodeFailure { stage: DecodeStage::NetworkCommand, error },
            ),
        }
        events
    }

    /// Render the codec's decode of an application-layer command and, when
    /// it is a standard-network-key transport command, fold the carried
    /// key into the store through key learning. Every other command, the
    /// other transport-key subtypes included, leaves the store untouched.
    pub fn handle_application_service_command(&mut self, decoded: Result<
        ApplicationCommand,
        ErrorKind,
    >) -> (events: Vec<Event>)
        ensures
            match decoded {
                Err(error) => {
                    &&& final(self).security.keys@ == old(self).security.keys@
                    &&& events@.len() == 1
                    &&& events@[0] == (Event::DecodeFailure {
                        stage: DecodeStage::ApplicationCommand,
                        error,
                    })
                },
                Ok(command) => {
                    match command.spec_transported_network_key() {
                        None => {
                            &&& final(self).security.keys@ == old(self).security.keys@
                            &&& events@.len() == 1
                            &&& events@[0] == Event::ApplicationCommand(command)
                        },
                        Some(transported) => {
                            &&& final(self).security.keys@ == learn_spec(
                                old(self).security.keys@,
                                transported.key,
                            )
                            &&& events@.len() == 2
                            &&& events@[0] == Event::ApplicationCommand(command)
                            &&& events@[1] == (if contains_key(
                                old(self).security.keys@,
                                transported.key,
                            ) {
                                Event::KeyAlreadyKnown(transported.key)
                            } else if old(self).security.keys@.len() < KEY_STORE_CAPACITY {
                                Event::KeyLearned(transported.key)
                            } else {
                                Event::KeyStoreFull(transported.key)
                            })
                        },
                    }
                },
            },
    {
        let command = match decoded {
            Ok(command) => command,
            Err(error) => {
                let mut events: Vec<Event> = Vec::new();
                events.push(
                    Event::DecodeFailure { stage: DecodeStage::ApplicationCommand, error },
                );
                return events;
            },
        };
        let transported = command.transported_network_key();
        let mut events: Vec<Event> = Vec::new();
        events.push(Event::ApplicationCommand(command));
        if let Some(payload) = transported {
            match self.security.add_transport_key(&payload) {
                LearnOutcome::Added => events.push(Event::KeyLearned(payload.key)),
                LearnOutcome::AlreadyKnown => events.push(Event::KeyAlreadyKnown(payload.key)),
                LearnOutcome::StoreFull => events.push(Event::KeyStoreFull(payload.key)),
            }
        }
        events
    }
}

/// Copy of a payload's bytes from `from` to its end: the logical copy into
/// a fresh work buffer that stands in for decryption when a layer is not
/// protected.
fn copy_suffix(payload: &Vec<u8>, from: usize) -> (r: Vec<u8>)
    requires
        from <= payload@.len(),
    ensures
        r@ == payload@.skip(from as int),
{
    let mut r: Vec<u8> = Vec::new();
    let mut i: usize = from;
    while i < payload.len()
        invariant
            from <= i <= payload@.len(),
            r@ == payload@.subrange(from as int, i as int),
        decreases payload@.len() - i,
    {
        r.push(payload[i]);
        i += 1;
    }
    proof {
        assert(r@ =~= payload@.skip(from as int));
    }
    r
}

} // verus!

