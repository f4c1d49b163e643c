//! A registry of port-forwarding rules and the decisions needed to apply
//! them on a network gateway.
//!
//! The crate holds no I/O. Callers load and store the registry, talk to the
//! user and to the gateway, and hand the results to the functions here, which
//! decide what happens next.

pub mod address;
pub mod command;
pub mod error;
pub mod gateway;
pub mod laws;
pub mod mapping;
pub mod registry;
pub mod text;

pub use address::IpAddress;
pub use command::{help_requested, parse_index_argument, Command};
pub use error::{InputField, MappingError, Protocol};
pub use gateway::{
    disable_mapping, enable_mapping, GatewayOutcome, GatewayRequest, GatewayStep, PERMANENT_LEASE,
};
pub use mapping::Mapping;
pub use registry::{
    add_mapping, list_mappings, parse_index, parse_port, read_mappings, remove_mapping,
    resolve_index, IndexChoice, RemoveStep, MAX_PORT,
};
pub use text::{decimal_string, parse_unsigned};
