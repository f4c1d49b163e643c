//! What holds of the operations whatever the registry and the input.

use crate::address::IpAddress;
use crate::command::Command;
use crate::error::{InputField, MappingError, Protocol};
use crate::gateway::{
    add_port_request, disable_requests, disable_step, enable_requests, enable_step, progress,
    remove_port_request, GatewayOutcome, GatewayRequestView, GatewayStepView,
};
use crate::mapping::MappingView;
use crate::registry::{after_remove, in_bounds, listing, remove_step, RemoveStep};
use crate::text::{
    all_digits, bounded_numeral, decimal_text, digit_char, digit_value, digits_value, is_digit,
    numeral_digits, numeral_value,
};
use vstd::prelude::*;

verus! {

/// An index given with the command decides alone whether an operation goes
/// ahead: it does if and only if the index lies between 1 and the number of
/// mappings.
///
/// Removing takes a mapping out exactly then. Enabling and disabling reach
/// the gateway requests exactly then. On a registry that is not empty every
/// other index is an out-of-bounds error; so it is for enabling and disabling
/// on an empty one, while removing from an empty registry reports that there
/// is nothing to remove. Whenever nothing is removed the registry stays as it
/// was.
pub proof fn law_index_bounds(
    records: Seq<MappingView>,
    i: usize,
    answer: Option<Seq<char>>,
    outcomes: Seq<GatewayOutcome>,
)
    ensures
        remove_step(records.len(), Some(i), answer) == Ok::<RemoveStep, MappingError>(
            RemoveStep::Removed,
        ) <==> in_bounds(i, records.len()),
        records.len() > 0 && !in_bounds(i, records.len()) ==> remove_step(
            records.len(),
            Some(i),
            answer,
        ) == Err::<RemoveStep, MappingError>(MappingError::OutOfBounds),
        !in_bounds(i, records.len()) ==> after_remove(records, Some(i), answer) == records,
        in_bounds(i, records.len()) ==> after_remove(records, Some(i), answer) == records.remove(
            i - 1,
        ),
        in_bounds(i, records.len()) ==> enable_step(records, Some(i), answer, outcomes)
            == progress(enable_requests(records[i - 1]), outcomes),
        in_bounds(i, records.len()) ==> disable_step(records, Some(i), answer, outcomes)
            == progress(disable_requests(records[i - 1]), outcomes),
        !in_bounds(i, records.len()) ==> enable_step(records, Some(i), answer, outcomes) == Err::<
            GatewayStepView,
            MappingError,
        >(MappingError::OutOfBounds),
        !in_bounds(i, records.len()) ==> disable_step(records, Some(i), answer, outcomes) == Err::<
            GatewayStepView,
            MappingError,
        >(MappingError::OutOfBounds),
        i == 0 || i > records.len() ==> !in_bounds(i, records.len()),
{
}

/// An answer that is no numeral, or that names a number too large for an
/// index, is a parse error for each of the three operations that ask for an
/// index, and leaves the registry as it was.
pub proof fn law_answer_must_be_a_number(
    records: Seq<MappingView>,
    answer: Seq<char>,
    outcomes: Seq<GatewayOutcome>,
)
    requires
        bounded_numeral(answer, usize::MAX as nat) is None,
    ensures
        records.len() > 0 ==> remove_step(records.len(), None, Some(answer)) == Err::<
            RemoveStep,
            MappingError,
        >(MappingError::InputParse(InputField::Index)),
        after_remove(records, None, Some(answer)) == records,
        enable_step(records, None, Some(answer), outcomes) == Err::<GatewayStepView, MappingError>(
            MappingError::InputParse(InputField::Index),
        ),
        disable_step(records, None, Some(answer), outcomes) == Err::<GatewayStepView, MappingError>(
            MappingError::InputParse(InputField::Index),
        ),
{
}

/// A text that holds a character other than a digit, but for a `+` in front,
/// is no numeral: so a minus sign or a letter makes it none. The empty text
/// is none either.
pub proof fn law_numeral_has_only_digits(text: Seq<char>, k: int)
    requires
        0 <= k < text.len(),
        !is_digit(text[k]),
        k > 0 || text[0] != '+',
    ensures
        numeral_value(text) is None,
        numeral_value(Seq::<char>::empty()) is None,
{
    let digits = numeral_digits(text);
    if text[0] == '+' {
        assert(digits[k - 1] == text[k]);
    } else {
        assert(digits[k] == text[k]);
    }
}

/// Removing a mapping moves those behind it up by one place: the mappings in
/// front keep their index, and the index of the removed one now names the
/// mapping that followed it. Removing that index a second time therefore
/// takes out the follower: of the registry as it first was, the mappings
/// `i` and `i + 1` are gone.
pub proof fn law_shift_on_delete(records: Seq<MappingView>, i: usize, answer: Option<Seq<char>>)
    requires
        in_bounds(i, records.len()),
    ensures
        after_remove(records, Some(i), answer).len() == records.len() - 1,
        forall|j: int| 0 <= j < i - 1 ==> after_remove(records, Some(i), answer)[j] == records[j],
        forall|j: int|
            i - 1 <= j < records.len() - 1 ==> after_remove(records, Some(i), answer)[j]
                == records[j + 1],
        i < records.len() ==> after_remove(records, Some(i), answer)[i - 1] == records[i as int],
        i < records.len() ==> after_remove(
            after_remove(records, Some(i), answer),
            Some(i),
            answer,
        ) == records.remove(i as int).remove(i - 1),
{
    let once = after_remove(records, Some(i), answer);
    assert(once == records.remove(i - 1));
    if i < records.len() {
        assert(in_bounds(i, once.len()));
        assert(once.remove(i - 1) =~= records.remove(i as int).remove(i - 1));
    }
}

/// Adding a mapping has no use for a gateway, whatever the registry holds: it
/// works where no gateway can be reached. The same holds of removing by a
/// given index, of showing the usage, and of listing an empty registry.
/// Enabling and disabling always need one.
pub proof fn law_commands_without_gateway(registered: nat, index: Option<usize>, i: usize)
    ensures
        !Command::Add.gateway_needed(registered),
        !Command::Remove(Some(i)).gateway_needed(registered),
        !Command::Help.gateway_needed(registered),
        !Command::List.gateway_needed(0),
        !Command::Remove(index).gateway_needed(0),
        Command::Enable(index).gateway_needed(registered),
        Command::Disable(index).gateway_needed(registered),
{
}

/// A listing has one line for each mapping; that of an empty registry has
/// none.
pub proof fn law_listing_length(records: Seq<MappingView>, gateway: IpAddress)
    ensures
        listing(records, gateway).len() == records.len(),
        listing(Seq::<MappingView>::empty(), gateway) == Seq::<Seq<char>>::empty(),
{
    assert(listing(Seq::<MappingView>::empty(), gateway) =~= Seq::<Seq<char>>::empty());
}

/// How two requests run: the request for TCP is made first; the request for
/// UDP is made once that for TCP was accepted; the run is done once both were
/// accepted. A rejection ends the run with the protocol it was made for, and
/// no outcome after it matters.
pub proof fn law_two_requests(
    tcp: GatewayRequestView,
    udp: GatewayRequestView,
    outcomes: Seq<GatewayOutcome>,
)
    ensures
        outcomes.len() == 0 ==> progress(seq![tcp, udp], outcomes) == Ok::<
            GatewayStepView,
            MappingError,
        >(GatewayStepView::Send(tcp)),
        outcomes.len() >= 1 && outcomes[0] == GatewayOutcome::Rejected ==> progress(
            seq![tcp, udp],
            outcomes,
        ) == Err::<GatewayStepView, MappingError>(MappingError::GatewayCall(tcp.protocol())),
        outcomes.len() == 1 && outcomes[0] == GatewayOutcome::Accepted ==> progress(
            seq![tcp, udp],
            outcomes,
        ) == Ok::<GatewayStepView, MappingError>(GatewayStepView::Send(udp)),
        outcomes.len() >= 2 && outcomes[0] == GatewayOutcome::Accepted && outcomes[1]
            == GatewayOutcome::Rejected ==> progress(seq![tcp, udp], outcomes) == Err::<
            GatewayStepView,
            MappingError,
        >(MappingError::GatewayCall(udp.protocol())),
        outcomes.len() >= 2 && outcomes[0] == GatewayOutcome::Accepted && outcomes[1]
            == GatewayOutcome::Accepted ==> progress(seq![tcp, udp], outcomes) == Ok::<
            GatewayStepView,
            MappingError,
        >(GatewayStepView::Done),
{
    reveal_with_fuel(progress, 3);
    let requests = seq![tcp, udp];
    assert(requests.skip(1).len() == 1);
    assert(requests.skip(1)[0] == udp);
    assert(requests.skip(1).skip(1).len() == 0);
    if outcomes.len() >= 1 {
        assert(outcomes.skip(1).len() == outcomes.len() - 1);
        if outcomes.len() >= 2 {
            assert(outcomes.skip(1)[0] == outcomes[1]);
        }
    }
}

/// A run of requests fails only because the gateway rejected one of them:
/// with an index within bounds, enabling and disabling end in no other error.
pub proof fn law_only_the_gateway_fails_a_run(
    requests: Seq<GatewayRequestView>,
    outcomes: Seq<GatewayOutcome>,
)
    ensures
        match progress(requests, outcomes) {
            Ok(_) => true,
            Err(MappingError::GatewayCall(_)) => exists|k: int|
                0 <= k < outcomes.len() && outcomes[k] == GatewayOutcome::Rejected,
            Err(_) => false,
        },
    decreases requests.len(),
{
    if requests.len() > 0 && outcomes.len() > 0 {
        if outcomes[0] == GatewayOutcome::Rejected {
        } else {
            law_only_the_gateway_fails_a_run(requests.skip(1), outcomes.skip(1));
            if progress(requests, outcomes) is Err {
                let k = choose|k: int|
                    0 <= k < outcomes.skip(1).len() && outcomes.skip(1)[k]
                        == GatewayOutcome::Rejected;
                assert(outcomes[k + 1] == GatewayOutcome::Rejected);
            }
        }
    }
}

/// Enabling a mapping asks the gateway, for TCP and then for UDP, to forward
/// the mapping's external port to its destination without expiry; disabling
/// asks it to close that same port, for TCP and then for UDP.
pub proof fn law_requests_of_a_mapping(m: MappingView)
    ensures
        enable_requests(m).len() == 2,
        enable_requests(m)[0] == add_port_request(m, Protocol::Tcp),
        enable_requests(m)[1] == add_port_request(m, Protocol::Udp),
        add_port_request(m, Protocol::Tcp) == (GatewayRequestView::AddPort {
            protocol: Protocol::Tcp,
            external_port: m.ext_port,
            destination: m.dest_ip,
            destination_port: m.dest_port,
            lease_seconds: 0,
            description: m.description,
        }),
        disable_requests(m).len() == 2,
        disable_requests(m)[0] == remove_port_request(m, Protocol::Tcp),
        disable_requests(m)[1] == remove_port_request(m, Protocol::Udp),
        remove_port_request(m, Protocol::Udp) == (GatewayRequestView::RemovePort {
            protocol: Protocol::Udp,
            external_port: m.ext_port,
        }),
{
}

/// The numeral of a number is made of digits only and denotes that number.
proof fn lemma_decimal_text_digits(n: nat)
    ensures
        decimal_text(n).len() > 0,
        all_digits(decimal_text(n)),
        digits_value(decimal_text(n)) == n,
    decreases n,
{
    let text = decimal_text(n);
    if n < 10 {
        assert(text.drop_last() =~= Seq::<char>::empty());
        assert(digits_value(text.drop_last()) == 0);
        assert(digit_value(digit_char(n as int)) == n);
    } else {
        lemma_decimal_text_digits(n / 10);
        let d = digit_char((n % 10) as int);
        assert(text.drop_last() =~= decimal_text(n / 10));
        assert(text.last() == d);
        assert(digit_value(d) == n % 10);
        assert(is_digit(d));
        assert forall|j: int| 0 <= j < text.len() implies is_digit(#[trigger] text[j]) by {
            if j < text.len() - 1 {
                assert(text[j] == decimal_text(n / 10)[j]);
            }
        }
    }
}

/// A number that was written out is read back as itself: the numbers of a
/// listing can be typed in as they stand.
pub proof fn law_numeral_round_trip(n: nat, max: nat)
    requires
        n <= max,
    ensures
        bounded_numeral(decimal_text(n), max) == Some(n),
{
    lemma_decimal_text_digits(n);
    let text = decimal_text(n);
    assert(is_digit(text[0]));
    assert(numeral_digits(text) == text);
}

} // verus!
