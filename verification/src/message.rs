//! A message to publish.

use vstd::prelude::*;
use crate::packet::Qos;

verus! {

/// An application message: where it goes, what it says, and how surely it
/// is to arrive.
#[derive(Debug, Clone, PartialEq, Eq)]
pub struct MqttMessage {
    pub topic: String,
    pub payload: String,
    pub qos: Qos,
}

} // verus!
