//! One port-forwarding rule.

use crate::address::IpAddress;
use vstd::prelude::*;

verus! {

/// One desired port mapping: traffic that reaches the gateway on `ext_port`
/// is to be sent to `dest_ip`, port `dest_port`.
#[derive(Debug, PartialEq, Eq)]
pub struct Mapping {
    /// The address the incoming traffic is sent to.
    pub dest_ip: IpAddress,
    /// The port the incoming traffic is sent to.
    pub dest_port: u16,
    /// The port that is opened on the gateway.
    pub ext_port: u16,
    /// A label, shown in listings and handed to the gateway.
    pub description: String,
}

/// What a [`Mapping`] holds, as mathematical values.
pub struct MappingView {
    pub dest_ip: IpAddress,
    pub dest_port: u16,
    pub ext_port: u16,
    pub description: Seq<char>,
}

impl View for Mapping {
    type V = MappingView;

    open spec fn view(&self) -> MappingView {
        MappingView {
            dest_ip: self.dest_ip,
            dest_port: self.dest_port,
            ext_port: self.ext_port,
            description: self.description@,
        }
    }
}

impl Clone for Mapping {
    fn clone(&self) -> (copy: Self)
        ensures
            copy@ == self@,
    {
        Mapping {
            dest_ip: self.dest_ip,
            dest_port: self.dest_port,
            ext_port: self.ext_port,
            description: self.description.clone(),
        }
    }
}

impl Mapping {
    /// A mapping made of the four given values.
    pub fn new(dest_ip: IpAddress, dest_port: u16, ext_port: u16, description: String) -> (m: Self)
        ensures
            m@ == (MappingView {
                dest_ip,
                dest_port,
                ext_port,
                description: description@,
            }),
    {
        Mapping { dest_ip, dest_port, ext_port, description }
    }
}

/// The mappings of a registry, in their order, as mathematical values.
pub open spec fn mapping_views(mappings: Seq<Mapping>) -> Seq<MappingView> {
    mappings.map_values(|m: Mapping| m@)
}

} // verus!
