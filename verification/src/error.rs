//! The ways in which an operation on the registry can fail.

use vstd::prelude::*;

verus! {

/// The transport protocols a gateway forwards. A mapping is always applied
/// for both.
#[derive(Clone, Copy, Debug, PartialEq, Eq, Structural)]
pub enum Protocol {
    Tcp,
    Udp,
}

/// The pieces of text that are read as typed values.
#[derive(Clone, Copy, Debug, PartialEq, Eq, Structural)]
pub enum InputField {
    DestinationAddress,
    DestinationPort,
    ExternalPort,
    Index,
}

/// Why an operation failed. No failure changes the registry.
#[derive(Clone, Copy, Debug, PartialEq, Eq, Structural)]
pub enum MappingError {
    /// A piece of text is not a value of its field: an address that is no IP
    /// address, a port or an index that is no number of its range.
    InputParse(InputField),
    /// An index that is not between 1 and the number of mappings.
    OutOfBounds,
    /// The gateway turned down the request made for this protocol. Requests
    /// made before it were carried out and are not taken back.
    GatewayCall(Protocol),
}

impl MappingError {
    /// The text of [`MappingError::message`].
    pub open spec fn message_text(self) -> Seq<char> {
        match self {
            MappingError::InputParse(InputField::DestinationAddress) =>
                "Could not parse input to an IP address"@,
            MappingError::InputParse(InputField::DestinationPort) =>
                "Could not parse internal port to a number from 1 to 65535"@,
            MappingError::InputParse(InputField::ExternalPort) =>
                "Could not parse external port to a number from 1 to 65535"@,
            MappingError::InputParse(InputField::Index) => "Could not parse index to a number"@,
            MappingError::OutOfBounds => "Index out of bounds"@,
            MappingError::GatewayCall(Protocol::Tcp) =>
                "Failed to request mapping: the gateway refused the TCP request; nothing was changed on it"@,
            MappingError::GatewayCall(Protocol::Udp) =>
                "Failed to request mapping: the gateway refused the UDP request; the TCP request before it stays in effect"@,
        }
    }

    /// A sentence for the user that says what went wrong.
    pub fn message(&self) -> (s: String)
        ensures
            s@ == self.message_text(),
    {
        let text = match self {
            MappingError::InputParse(InputField::DestinationAddress) =>
                "Could not parse input to an IP address",
            MappingError::InputParse(InputField::DestinationPort) =>
                "Could not parse internal port to a number from 1 to 65535",
            MappingError::InputParse(InputField::ExternalPort) =>
                "Could not parse external port to a number from 1 to 65535",
            MappingError::InputParse(InputField::Index) => "Could not parse index to a number",
            MappingError::OutOfBounds => "Index out of bounds",
            MappingError::GatewayCall(Protocol::Tcp) =>
                "Failed to request mapping: the gateway refused the TCP request; nothing was changed on it",
            MappingError::GatewayCall(Protocol::Udp) =>
                "Failed to request mapping: the gateway refused the UDP request; the TCP request before it stays in effect",
        };
        String::from_str(text)
    }
}

} // verus!
