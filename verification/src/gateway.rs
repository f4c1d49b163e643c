//! Applying a mapping on the gateway, and taking it off again.
//!
//! Nothing here talks to a gateway. [`enable_mapping`] and
//! [`disable_mapping`] say which request is to be made next; the caller makes
//! it and calls again with the outcome added to those it has seen so far.

use crate::address::IpAddress;
use crate::error::{MappingError, Protocol};
use crate::mapping::{mapping_views, Mapping, MappingView};
use crate::registry::{answer_text, in_bounds, index_choice, resolve_index, IndexChoice};
use vstd::prelude::*;

verus! {

/// The lease asked for when a port is opened: 0, which a gateway takes to
/// mean that the mapping does not expire.
pub const PERMANENT_LEASE: u32 = 0;

/// One request to the gateway.
#[derive(Debug, PartialEq, Eq)]
pub enum GatewayRequest {
    /// Forward `external_port` to `destination`, port `destination_port`.
    AddPort {
        protocol: Protocol,
        external_port: u16,
        destination: IpAddress,
        destination_port: u16,
        lease_seconds: u32,
        description: String,
    },
    /// Stop forwarding `external_port`.
    RemovePort { protocol: Protocol, external_port: u16 },
}

/// What a [`GatewayRequest`] holds, as mathematical values.
pub enum GatewayRequestView {
    AddPort {
        protocol: Protocol,
        external_port: u16,
        destination: IpAddress,
        destination_port: u16,
        lease_seconds: u32,
        description: Seq<char>,
    },
    RemovePort { protocol: Protocol, external_port: u16 },
}

impl View for GatewayRequest {
    type V = GatewayRequestView;

    open spec fn view(&self) -> GatewayRequestView {
        match self {
            GatewayRequest::AddPort {
                protocol,
                external_port,
                destination,
                destination_port,
                lease_seconds,
                description,
            } => GatewayRequestView::AddPort {
                protocol: *protocol,
                external_port: *external_port,
                destination: *destination,
                destination_port: *destination_port,
                lease_seconds: *lease_seconds,
                description: description@,
            },
            GatewayRequest::RemovePort { protocol, external_port } => GatewayRequestView::RemovePort {
                protocol: *protocol,
                external_port: *external_port,
            },
        }
    }
}

impl GatewayRequestView {
    /// The protocol that the request is made for.
    pub open spec fn protocol(self) -> Protocol {
        match self {
            GatewayRequestView::AddPort { protocol, .. } => protocol,
            GatewayRequestView::RemovePort { protocol, .. } => protocol,
        }
    }
}

/// How the gateway answered one request.
#[derive(Clone, Copy, Debug, PartialEq, Eq, Structural)]
pub enum GatewayOutcome {
    Accepted,
    Rejected,
}

/// What is to happen next in an operation on the gateway.
#[derive(Debug, PartialEq, Eq)]
pub enum GatewayStep {
    /// No index is known yet: show the listing, ask the user for a number and
    /// call again with the answer.
    Ask,
    /// Make this request, add its outcome to those seen so far and call again.
    Send(GatewayRequest),
    /// Every request was accepted: the operation succeeded.
    Done,
}

/// What a [`GatewayStep`] holds, as mathematical values.
pub enum GatewayStepView {
    Ask,
    Send(GatewayRequestView),
    Done,
}

impl View for GatewayStep {
    type V = GatewayStepView;

    open spec fn view(&self) -> GatewayStepView {
        match self {
            GatewayStep::Ask => GatewayStepView::Ask,
            GatewayStep::Send(request) => GatewayStepView::Send(request@),
            GatewayStep::Done => GatewayStepView::Done,
        }
    }
}

/// The view of what [`enable_mapping`] and [`disable_mapping`] return.
pub open spec fn step_view(r: Result<GatewayStep, MappingError>) -> Result<
    GatewayStepView,
    MappingError,
> {
    match r {
        Ok(step) => Ok(step@),
        Err(e) => Err(e),
    }
}

/// The request that opens the external port of `m` for one protocol, without
/// expiry.
pub open spec fn add_port_request(m: MappingView, protocol: Protocol) -> GatewayRequestView {
    GatewayRequestView::AddPort {
        protocol,
        external_port: m.ext_port,
        destination: m.dest_ip,
        destination_port: m.dest_port,
        lease_seconds: PERMANENT_LEASE,
        description: m.description,
    }
}

/// The request that closes the external port of `m` for one protocol.
pub open spec fn remove_port_request(m: MappingView, protocol: Protocol) -> GatewayRequestView {
    GatewayRequestView::RemovePort { protocol, external_port: m.ext_port }
}

/// The requests that apply `m` on the gateway: one for TCP, then one for UDP.
pub open spec fn enable_requests(m: MappingView) -> Seq<GatewayRequestView> {
    seq![add_port_request(m, Protocol::Tcp), add_port_request(m, Protocol::Udp)]
}

/// The requests that take `m` off the gateway: one for TCP, then one for UDP.
pub open spec fn disable_requests(m: MappingView) -> Seq<GatewayRequestView> {
    seq![remove_port_request(m, Protocol::Tcp), remove_port_request(m, Protocol::Udp)]
}

/// Where a run of requests stands once the gateway has answered the first
/// `outcomes.len()` of them. The requests are made in order. The first one
/// that is rejected ends the run with an error that names its protocol; no
/// later request is made and no earlier one is taken back. When all were
/// accepted the run is done.
pub open spec fn progress(requests: Seq<GatewayRequestView>, outcomes: Seq<GatewayOutcome>) -> Result<
    GatewayStepView,
    MappingError,
>
    decreases requests.len(),
{
    if requests.len() == 0 {
        Ok(GatewayStepView::Done)
    } else if outcomes.len() == 0 {
        Ok(GatewayStepView::Send(requests[0]))
    } else if outcomes[0] == GatewayOutcome::Rejected {
        Err(MappingError::GatewayCall(requests[0].protocol()))
    } else {
        progress(requests.skip(1), outcomes.skip(1))
    }
}

/// What enabling comes to.
///
/// While no index is known the user is to be asked. An index that does not
/// name a mapping is an error, and no request is made. Otherwise the requests
/// of the chosen mapping are made one by one.
pub open spec fn enable_step(
    records: Seq<MappingView>,
    index: Option<usize>,
    answer: Option<Seq<char>>,
    outcomes: Seq<GatewayOutcome>,
) -> Result<GatewayStepView, MappingError> {
    match index_choice(index, answer) {
        Err(e) => Err(e),
        Ok(IndexChoice::Ask) => Ok(GatewayStepView::Ask),
        Ok(IndexChoice::Index(i)) => if in_bounds(i, records.len()) {
            progress(enable_requests(records[i - 1]), outcomes)
        } else {
            Err(MappingError::OutOfBounds)
        },
    }
}

/// What disabling comes to: as [`enable_step`], with the requests that close
/// the port.
pub open spec fn disable_step(
    records: Seq<MappingView>,
    index: Option<usize>,
    answer: Option<Seq<char>>,
    outcomes: Seq<GatewayOutcome>,
) -> Result<GatewayStepView, MappingError> {
    match index_choice(index, answer) {
        Err(e) => Err(e),
        Ok(IndexChoice::Ask) => Ok(GatewayStepView::Ask),
        Ok(IndexChoice::Index(i)) => if in_bounds(i, records.len()) {
            progress(disable_requests(records[i - 1]), outcomes)
        } else {
            Err(MappingError::OutOfBounds)
        },
    }
}

/// Builds the request of `mapping` for one protocol: one that opens the port
/// if `open` holds, one that closes it otherwise.
fn request_for(mapping: &Mapping, protocol: Protocol, open: bool) -> (request: GatewayRequest)
    ensures
        request@ == if open {
            add_port_request(mapping@, protocol)
        } else {
            remove_port_request(mapping@, protocol)
        },
{
    if open {
        GatewayRequest::AddPort {
            protocol,
            external_port: mapping.ext_port,
            destination: mapping.dest_ip,
            destination_port: mapping.dest_port,
            lease_seconds: PERMANENT_LEASE,
            description: mapping.description.clone(),
        }
    } else {
        GatewayRequest::RemovePort { protocol, external_port: mapping.ext_port }
    }
}

/// The requests that an operation makes for a mapping.
pub open spec fn requests_of(m: MappingView, open: bool) -> Seq<GatewayRequestView> {
    if open {
        enable_requests(m)
    } else {
        disable_requests(m)
    }
}

/// Decides the next step of a run of the two requests of `mapping`.
fn next_step(mapping: &Mapping, open: bool, outcomes: &Vec<GatewayOutcome>) -> (r: Result<
    GatewayStep,
    MappingError,
>)
    ensures
        step_view(r) == progress(requests_of(mapping@, open), outcomes@),
{
    let ghost requests = requests_of(mapping@, open);
    proof {
        reveal_with_fuel(progress, 3);
        assert(requests.skip(1).len() == 1);
        assert(requests.skip(1)[0] == requests[1]);
        assert(requests.skip(1).skip(1).len() == 0);
        assert(requests[0].protocol() == Protocol::Tcp);
        assert(requests[1].protocol() == Protocol::Udp);
    }
    if outcomes.len() == 0 {
        return Ok(GatewayStep::Send(request_for(mapping, Protocol::Tcp, open)));
    }
    if outcomes[0] == GatewayOutcome::Rejected {
        return Err(MappingError::GatewayCall(Protocol::Tcp));
    }
    assert(outcomes@.skip(1).len() == outcomes@.len() - 1);
    if outcomes.len() == 1 {
        return Ok(GatewayStep::Send(request_for(mapping, Protocol::Udp, open)));
    }
    assert(outcomes@.skip(1)[0] == outcomes@[1]);
    if outcomes[1] == GatewayOutcome::Rejected {
        return Err(MappingError::GatewayCall(Protocol::Udp));
    }
    Ok(GatewayStep::Done)
}

/// Says what is to happen next when a mapping is applied on the gateway.
///
/// `index` is the index given with the command, if any; `answer` is what the
/// user typed when asked for one. `outcomes` holds the gateway's answers to
/// the requests made for this operation so far, oldest first; it is empty on
/// the first call. The registry is only read.
pub fn enable_mapping(
    mappings: &Vec<Mapping>,
    index: Option<usize>,
    answer: Option<&str>,
    outcomes: &Vec<GatewayOutcome>,
) -> (r: Result<GatewayStep, MappingError>)
    ensures
        step_view(r) == enable_step(
            mapping_views(mappings@),
            index,
            answer_text(answer),
            outcomes@,
        ),
{
    match resolve_index(index, answer) {
        Err(e) => Err(e),
        Ok(IndexChoice::Ask) => Ok(GatewayStep::Ask),
        Ok(IndexChoice::Index(i)) => {
            if 1 <= i && i <= mappings.len() {
                next_step(&mappings[i - 1], true, outcomes)
            } else {
                Err(MappingError::OutOfBounds)
            }
        },
    }
}

/// Says what is to happen next when a mapping is taken off the gateway.
///
/// The parameters are those of [`enable_mapping`]. The requests close, for
/// TCP and then for UDP, the external port that enabling the mapping opened.
pub fn disable_mapping(
    mappings: &Vec<Mapping>,
    index: Option<usize>,
    answer: Option<&str>,
    outcomes: &Vec<GatewayOutcome>,
) -> (r: Result<GatewayStep, MappingError>)
    ensures
        step_view(r) == disable_step(
            mapping_views(mappings@),
            index,
            answer_text(answer),
            outcomes@,
        ),
{
    match resolve_index(index, answer) {
        Err(e) => Err(e),
        Ok(IndexChoice::Ask) => Ok(GatewayStep::Ask),
        Ok(IndexChoice::Index(i)) => {
            if 1 <= i && i <= mappings.len() {
                next_step(&mappings[i - 1], false, outcomes)
            } else {
                Err(MappingError::OutOfBounds)
            }
        },
    }
}

} // verus!
