//! What holds of every export call, proved from the handler's steps.

use crate::logs::authorization_name;
use crate::logs::authorized;
use crate::logs::awaited;
use crate::logs::begin;
use crate::logs::connect_error;
use crate::logs::missing_organization;
use crate::logs::next;
use crate::logs::Compression;
use crate::logs::ExportActionView;
use crate::logs::ExportEventView;
use crate::logs::ExportReplyView;
use crate::logs::ExportStateView;
use crate::metadata::canonical_name;
use crate::metadata::has_entry;
use crate::metadata::text_value_valid;
use crate::metadata::with_text;
use crate::metadata::Entries;
use crate::metadata::MAX_NAMES;
use crate::propagation::field_accepted;
use crate::propagation::inject_fields;
use crate::propagation::Fields;
use crate::status::connect_log_line;
use opentelemetry::Context;
use vstd::prelude::*;
use vstd::utf8::encode_utf8;

verus! {

/// The actions that a call in `state` asks for as `events` arrive one after
/// the other.
pub open spec fn actions<B, R, S>(
    state: ExportStateView<B>,
    events: Seq<ExportEventView<R, S>>,
    fields: Fields,
) -> Seq<ExportActionView<B, R, S>>
    decreases events.len(),
{
    if events.len() == 0 {
        Seq::empty()
    } else {
        let step = next::<B, R, S>(state, events.first(), fields);
        seq![step.1] + actions(step.0, events.drop_first(), fields)
    }
}

/// Once the caller has its answer, no event makes the handler ask for
/// anything.
pub proof fn theorem_done_is_final<B, R, S>(events: Seq<ExportEventView<R, S>>, fields: Fields)
    ensures
        actions::<B, R, S>(ExportStateView::Done, events, fields).len() == events.len(),
        forall|i: int|
            0 <= i < events.len() ==> #[trigger] actions::<B, R, S>(
                ExportStateView::Done,
                events,
                fields,
            )[i] == ExportActionView::<B, R, S>::Ignore,
    decreases events.len(),
{
    if events.len() > 0 {
        theorem_done_is_final::<B, R, S>(events.drop_first(), fields);
    }
}

/// A call whose metadata has no value under the organization header key is
/// answered with `InvalidArgument`, with a message that names the key, and
/// nothing is written to the log. The selector and the token provider are
/// never asked: neither at once, nor whatever events arrive afterwards.
pub proof fn theorem_missing_organization_is_rejected<B, R, S>(
    org_header_key: Seq<char>,
    metadata: Entries,
    body: B,
    context: Context,
    events: Seq<ExportEventView<R, S>>,
    fields: Fields,
)
    requires
        !has_entry(metadata, org_header_key),
    ensures
        begin::<B, R, S>(org_header_key, metadata, body, context).1 == (ExportActionView::<
            B,
            R,
            S,
        >::Reply {
            reply: ExportReplyView::Failed(missing_organization(org_header_key)),
            log: None,
        }),
        forall|i: int|
            0 <= i < events.len() ==> #[trigger] actions::<B, R, S>(
                begin::<B, R, S>(org_header_key, metadata, body, context).0,
                events,
                fields,
            )[i] == ExportActionView::<B, R, S>::Ignore,
{
    theorem_done_is_final::<B, R, S>(events, fields);
}

/// A call that names its organization is accepted whatever else it holds, and
/// the first thing asked for is a node.
pub proof fn theorem_organization_is_enough<B, R, S>(
    org_header_key: Seq<char>,
    metadata: Entries,
    body: B,
    context: Context,
)
    requires
        has_entry(metadata, org_header_key),
    ensures
        begin::<B, R, S>(org_header_key, metadata, body, context) == (
            ExportStateView::Selecting { metadata, body, context },
            ExportActionView::<B, R, S>::SelectNode,
        ),
{
}

/// An event that the call does not wait for changes nothing, and an event
/// that it waits for is never passed over.
pub proof fn theorem_only_awaited_events_act<B, R, S>(
    state: ExportStateView<B>,
    event: ExportEventView<R, S>,
    fields: Fields,
)
    ensures
        !awaited(state, event) ==> next::<B, R, S>(state, event, fields) == (
            state,
            ExportActionView::<B, R, S>::Ignore,
        ),
        awaited(state, event) ==> next::<B, R, S>(state, event, fields).1
            != ExportActionView::<B, R, S>::Ignore,
{
}

/// The connection is opened to the address that the selector returned for
/// this call, and the call is forwarded to that same address with the body
/// that came in: from the selector's answer to the forwarded call, nothing
/// puts another address or another body in their place.
pub proof fn theorem_outbound_call_goes_to_selected_node<B, R, S>(
    org_header_key: Seq<char>,
    metadata: Entries,
    body: B,
    context: Context,
    addr: Seq<char>,
    token: Seq<char>,
    fields: Fields,
)
    requires
        has_entry(metadata, org_header_key),
        text_value_valid(token),
    ensures
        ({
            let accepted = begin::<B, R, S>(org_header_key, metadata, body, context);
            let routed = next::<B, R, S>(
                accepted.0,
                ExportEventView::NodeSelected(Ok(addr)),
                fields,
            );
            let ready = next::<B, R, S>(routed.0, ExportEventView::TokenFetched(token), fields);
            let sent = next::<B, R, S>(ready.0, ExportEventView::Connected(Ok(())), fields);
            &&& accepted.1 == ExportActionView::<B, R, S>::SelectNode
            &&& routed.1 == ExportActionView::<B, R, S>::FetchToken
            &&& ready.1 == ExportActionView::<B, R, S>::Connect { addr }
            &&& sent.1 == ExportActionView::<B, R, S>::Forward {
                addr,
                metadata: authorized(inject_fields(metadata, fields), token),
                body,
                send_compressed: Compression::Gzip,
                accept_compressed: Compression::Gzip,
            }
        }),
{
}

/// The node that a call is bound for, once one is selected.
pub open spec fn target<B>(state: ExportStateView<B>) -> Option<Seq<char>> {
    match state {
        ExportStateView::AwaitingToken { addr, .. } => Some(addr),
        ExportStateView::Connecting { addr, .. } => Some(addr),
        _ => None,
    }
}

/// What the call carries besides its metadata, while the router holds it.
pub open spec fn held_body<B>(state: ExportStateView<B>) -> Option<B> {
    match state {
        ExportStateView::Selecting { body, .. } => Some(body),
        ExportStateView::AwaitingToken { body, .. } => Some(body),
        ExportStateView::Connecting { body, .. } => Some(body),
        _ => None,
    }
}

/// At every step, whatever the event: a call gets its node from the
/// selector's answer and from nowhere else, keeps it for as long as it has
/// one, and a connection or a forwarded call is never asked for to any other
/// address.
pub proof fn theorem_node_is_the_selectors_at_every_step<B, R, S>(
    state: ExportStateView<B>,
    event: ExportEventView<R, S>,
    fields: Fields,
)
    ensures
        ({
            let step = next::<B, R, S>(state, event, fields);
            &&& target(state) is None && target(step.0) is Some ==> event
                == ExportEventView::<R, S>::NodeSelected(Ok(target(step.0)->Some_0))
            &&& target(state) is Some && target(step.0) is Some ==> target(step.0) == target(state)
            &&& step.1 matches ExportActionView::Connect { addr } ==> target(state) == Some(addr)
            &&& step.1 matches ExportActionView::Forward { addr, .. } ==> target(state) == Some(
                addr,
            )
        }),
{
}

/// At every step, whatever the event: what the call carries besides its
/// metadata stays as it came in, and is what is forwarded.
pub proof fn theorem_body_is_forwarded_unchanged<B, R, S>(
    state: ExportStateView<B>,
    event: ExportEventView<R, S>,
    fields: Fields,
)
    ensures
        ({
            let step = next::<B, R, S>(state, event, fields);
            &&& held_body(step.0) is Some ==> held_body(step.0) == held_body(state)
            &&& step.1 matches ExportActionView::Forward { body, .. } ==> held_body(state) == Some(
                body,
            )
        }),
{
}

/// The forwarded call has every inbound name that is neither `authorization`
/// nor the name of a propagation field, with the values that came in, and has
/// no such name that did not come in.
pub proof fn theorem_inbound_headers_are_forwarded(
    inbound: Entries,
    fields: Fields,
    token: Seq<char>,
    name: Seq<char>,
)
    requires
        name != authorization_name(),
        forall|i: int| 0 <= i < fields.len() ==> canonical_name((#[trigger] fields[i]).0) != name,
    ensures
        authorized(inject_fields(inbound, fields), token).dom().contains(name)
            <==> inbound.dom().contains(name),
        authorized(inject_fields(inbound, fields), token)[name] == inbound[name],
{
    theorem_injection_keeps_other_headers(inbound, fields, name);
}

/// Every call that gets as far as a connection attempt carries the token as
/// the one value under `authorization`, and carries it still when it is
/// forwarded; no other name of its metadata is touched by that.
pub proof fn theorem_outbound_call_is_authorized<B, R, S>(
    addr: Seq<char>,
    metadata: Entries,
    body: B,
    token: Seq<char>,
    fields: Fields,
    name: Seq<char>,
)
    requires
        text_value_valid(token),
    ensures
        ({
            let waiting = ExportStateView::AwaitingToken { addr, metadata, body };
            let ready = next::<B, R, S>(waiting, ExportEventView::TokenFetched(token), fields);
            let sent = next::<B, R, S>(ready.0, ExportEventView::Connected(Ok(())), fields);
            &&& ready.0 matches ExportStateView::Connecting { metadata: outbound, .. }
            &&& sent.1 matches ExportActionView::Forward { metadata: forwarded, .. }
            &&& forwarded == outbound
            &&& outbound.dom().contains(authorization_name())
            &&& outbound[authorization_name()] == seq![encode_utf8(token)]
            &&& name != authorization_name() ==> (outbound.dom().contains(name)
                <==> metadata.dom().contains(name)) && outbound[name] == metadata[name]
        }),
{
}

/// A connection is attempted only with a token that is a metadata value: any
/// other token ends the call with `Internal`, "invalid token", and no
/// connection is asked for afterwards.
pub proof fn theorem_invalid_token_ends_the_call<B, R, S>(
    addr: Seq<char>,
    metadata: Entries,
    body: B,
    token: Seq<char>,
    events: Seq<ExportEventView<R, S>>,
    fields: Fields,
)
    requires
        !text_value_valid(token),
    ensures
        ({
            let waiting = ExportStateView::AwaitingToken { addr, metadata, body };
            let ended = next::<B, R, S>(waiting, ExportEventView::TokenFetched(token), fields);
            &&& ended.1 == ExportActionView::<B, R, S>::Reply {
                reply: ExportReplyView::Failed(crate::logs::invalid_token()),
                log: None,
            }
            &&& forall|i: int|
                0 <= i < events.len() ==> #[trigger] actions::<B, R, S>(ended.0, events, fields)[i]
                    == ExportActionView::<B, R, S>::Ignore
        }),
{
    theorem_done_is_final::<B, R, S>(events, fields);
}

/// A line is written to the error log at one step only: when the connection
/// cannot be opened. The line then names the node's address, and the caller
/// is answered with `Internal`, "connect querier error".
pub proof fn theorem_only_connect_failures_are_logged<B, R, S>(
    state: ExportStateView<B>,
    event: ExportEventView<R, S>,
    fields: Fields,
)
    ensures
        match next::<B, R, S>(state, event, fields).1 {
            ExportActionView::Reply { reply, log: Some(line) } => {
                &&& state matches ExportStateView::Connecting { addr, .. }
                &&& event matches ExportEventView::Connected(Err(cause))
                &&& line == connect_log_line(addr, cause)
                &&& reply == ExportReplyView::<R, S>::Failed(connect_error())
            },
            _ => !(state is Connecting && event matches ExportEventView::Connected(Err(_))),
        },
{
}

/// What the selector or the node answered is what the caller gets, as it
/// came: a failure of the selector, a failure of the node, or the node's
/// response.
pub proof fn theorem_answers_are_relayed_unchanged<B, R, S>(
    metadata: Entries,
    body: B,
    context: Context,
    refusal: S,
    answer: Result<R, S>,
    fields: Fields,
)
    ensures
        next::<B, R, S>(
            ExportStateView::Selecting { metadata, body, context },
            ExportEventView::NodeSelected(Err(refusal)),
            fields,
        ).1 == (ExportActionView::<B, R, S>::Reply {
            reply: ExportReplyView::Relayed(refusal),
            log: None,
        }),
        next::<B, R, S>(ExportStateView::Forwarding, ExportEventView::Forwarded(answer), fields).1
            == (ExportActionView::<B, R, S>::Reply {
            reply: match answer {
                Ok(response) => ExportReplyView::Response(response),
                Err(failure) => ExportReplyView::Relayed(failure),
            },
            log: None,
        }),
{
}

/// Writing fields never takes a name away, and leaves alone every name that
/// is not the name of one of the fields.
pub proof fn theorem_injection_keeps_other_headers(entries: Entries, fields: Fields, name: Seq<char>)
    ensures
        entries.dom().contains(name) ==> inject_fields(entries, fields).dom().contains(name),
        (forall|i: int| 0 <= i < fields.len() ==> canonical_name((#[trigger] fields[i]).0) != name)
            ==> (inject_fields(entries, fields).dom().contains(name) <==> entries.dom().contains(
            name,
        )) && inject_fields(entries, fields)[name] == entries[name],
    decreases fields.len(),
{
    if fields.len() > 0 {
        let earlier = fields.drop_last();
        theorem_injection_keeps_other_headers(entries, earlier, name);
        assert forall|i: int| 0 <= i < earlier.len() implies earlier[i] == fields[i] by {}
        if forall|i: int| 0 <= i < fields.len() ==> canonical_name((#[trigger] fields[i]).0) != name {
            assert forall|i: int| 0 <= i < earlier.len() implies canonical_name(
                (#[trigger] earlier[i]).0,
            ) != name by {
                assert(earlier[i] == fields[i]);
            }
            assert(canonical_name(fields.last().0) != name);
        }
    }
}

/// Where the metadata has room for all of them, every acceptable field is in
/// the metadata afterwards, as the one value of its name, unless a later
/// acceptable field has the same name.
pub proof fn theorem_injected_fields_are_carried(entries: Entries, fields: Fields, at: int)
    requires
        0 <= at < fields.len(),
        entries.dom().finite(),
        entries.dom().len() + fields.len() <= MAX_NAMES,
        field_accepted(entries, fields[at].0, fields[at].1),
        forall|j: int|
            at < j < fields.len() ==> canonical_name((#[trigger] fields[j]).0) != canonical_name(
                fields[at].0,
            ),
    ensures
        inject_fields(entries, fields).dom().contains(canonical_name(fields[at].0)),
        inject_fields(entries, fields)[canonical_name(fields[at].0)] == seq![
            encode_utf8(fields[at].1),
        ],
    decreases fields.len(),
{
    let earlier = fields.drop_last();
    let before = inject_fields(entries, earlier);
    lemma_injection_grows_by_one_each(entries, earlier);
    if at == fields.len() - 1 {
        assert(field_accepted(before, fields[at].0, fields[at].1));
    } else {
        assert(earlier[at] == fields[at]);
        assert forall|j: int| at < j < earlier.len() implies canonical_name(
            (#[trigger] earlier[j]).0,
        ) != canonical_name(earlier[at].0) by {
            assert(earlier[j] == fields[j]);
        }
        theorem_injected_fields_are_carried(entries, earlier, at);
        assert(canonical_name(fields.last().0) != canonical_name(fields[at].0));
    }
}

/// The forwarded call carries the trace: where the inbound metadata has room
/// for all the propagation fields, every acceptable field is in the metadata
/// of the forwarded call, as the one value of its name, unless a later
/// acceptable field has the same name or the name is `authorization`, which
/// is the token's.
pub proof fn theorem_outbound_call_carries_trace_fields(
    inbound: Entries,
    fields: Fields,
    token: Seq<char>,
    at: int,
)
    requires
        0 <= at < fields.len(),
        inbound.dom().finite(),
        inbound.dom().len() + fields.len() <= MAX_NAMES,
        field_accepted(inbound, fields[at].0, fields[at].1),
        canonical_name(fields[at].0) != authorization_name(),
        forall|j: int|
            at < j < fields.len() ==> canonical_name((#[trigger] fields[j]).0) != canonical_name(
                fields[at].0,
            ),
    ensures
        authorized(inject_fields(inbound, fields), token).dom().contains(
            canonical_name(fields[at].0),
        ),
        authorized(inject_fields(inbound, fields), token)[canonical_name(fields[at].0)] == seq![
            encode_utf8(fields[at].1),
        ],
{
    theorem_injected_fields_are_carried(inbound, fields, at);
}

/// Each field adds at most one name.
pub proof fn lemma_injection_grows_by_one_each(entries: Entries, fields: Fields)
    requires
        entries.dom().finite(),
    ensures
        inject_fields(entries, fields).dom().finite(),
        inject_fields(entries, fields).dom().len() <= entries.dom().len() + fields.len(),
    decreases fields.len(),
{
    if fields.len() > 0 {
        let earlier = fields.drop_last();
        lemma_injection_grows_by_one_each(entries, earlier);
        let before = inject_fields(entries, earlier);
        if field_accepted(before, fields.last().0, fields.last().1) {
            assert(with_text(before, fields.last().0, fields.last().1).dom() =~= before.dom().insert(
                canonical_name(fields.last().0),
            ));
        }
    }
}

} // verus!
