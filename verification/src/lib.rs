//! Passive decoder for a layered wireless mesh protocol stack: a link-layer
//! frame that may carry a network-layer frame, which may carry an
//! application-layer frame, with an encryption envelope possibly wrapping the
//! payload at either of the two upper layers.
//!
//! The crate holds the decision core of such a sniffer: the layer dispatcher
//! that decides which decoding step comes next, the trial-decryption engine
//! that tries a bounded store of candidate keys in order, and the key
//! learning step that grows that store from observed key-transport commands.
//! Binary unpacking of headers and the authenticated cipher itself are
//! collaborators: the dispatcher names the bytes each one should work on and
//! consumes their results as plain values.

pub mod application;
pub mod error;
pub mod key;
pub mod link;
pub mod network;
pub mod parser;
pub mod security;
