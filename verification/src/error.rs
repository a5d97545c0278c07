//! What can go wrong in the bridge.

use vstd::prelude::*;

verus! {

/// The failures that the bridge tells apart.
#[derive(Debug, Clone, Copy, PartialEq, Eq, Structural)]
pub enum BridgeError {
    /// The device list is empty or its source could not be read.
    ConfigurationError,
    /// The remote store could not be reached, or its answer could not be read.
    TransportError,
    /// A message body is not a sensor document.
    MalformedPayload,
    /// A message came in on a topic that no device was registered for.
    UnroutedTopic,
}

} // verus!
