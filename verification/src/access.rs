//! Access-layer messages.

use crate::config::{Address, ModelIdentifier, NetworkKeyHandle, UnicastAddress};
use vstd::prelude::*;

verus! {

/// The bytes of an access-layer message, carried through unread.
#[derive(Clone, Debug, PartialEq, Eq)]
pub struct AccessPayload(pub Vec<u8>);

/// A message of the access layer, addressed and keyed, ready for the
/// pipeline.
#[derive(Clone, Debug, PartialEq, Eq)]
pub struct AccessMessage {
    pub ttl: Option<u8>,
    pub network_key: NetworkKeyHandle,
    pub ivi: u8,
    pub nid: u8,
    pub akf: bool,
    pub aid: u8,
    pub src: UnicastAddress,
    pub dst: Address,
    pub payload: AccessPayload,
}

/// A message that a model of an element wants published. It carries no
/// destination: the node finds it in the configuration when it sends.
#[derive(Clone, Debug, PartialEq, Eq)]
pub struct OutboundPublishMessage {
    pub element_address: UnicastAddress,
    pub model_identifier: ModelIdentifier,
    pub payload: AccessPayload,
}

} // verus!
