//! Trace-context propagation: the fields that the configured propagator
//! derives from a tracing context are written into the metadata of the
//! outbound call.

use crate::metadata::canonical_name;
use crate::metadata::has_room;
use crate::metadata::insert_text;
use crate::metadata::is_text_key;
use crate::metadata::is_text_value;
use crate::metadata::keys_len;
use crate::metadata::metadata_entries;
use crate::metadata::text_key_valid;
use crate::metadata::text_value_valid;
use crate::metadata::with_text;
use crate::metadata::Entries;
use crate::metadata::MAX_NAMES;
use opentelemetry::Context;
use std::collections::HashMap;
use tonic::metadata::MetadataMap;
use tracing_opentelemetry::OpenTelemetrySpanExt;
use vstd::prelude::*;

verus! {

/// OpenTelemetry's `Context`, carried through as it is.
#[verifier::external_type_specification]
#[verifier::external_body]
pub struct ExContext(opentelemetry::Context);

/// The fields of a propagator, as contracts see them: key and value.
pub type Fields = Seq<(Seq<char>, Seq<char>)>;

/// `opentelemetry::global::get_text_map_propagator` and, on the propagator it
/// hands over, `TextMapPropagator::inject_context` into an empty string map:
/// the fields that the process-wide propagator writes for `cx`, each key once.
/// Which fields these are depends on the propagator that the process has
/// installed, and their order on the map, so nothing is claimed of them.
#[verifier::external_body]
pub(crate) fn propagation_fields(cx: &Context) -> (fields: Vec<(String, String)>) {
    let mut carrier: HashMap<String, String> = HashMap::new();
    opentelemetry::global::get_text_map_propagator(
        |propagator| propagator.inject_context(cx, &mut carrier),
    );
    carrier.into_iter().collect()
}

/// `tracing::Span::current` and `OpenTelemetrySpanExt::context`: the tracing
/// context of the span in which the caller runs. It depends on where the call
/// is made, so nothing is claimed of it.
#[verifier::external_body]
pub(crate) fn current_span_context() -> (cx: Context) {
    tracing::Span::current().context()
}

/// Whether a field is written into `entries`: its key and its value must be
/// acceptable as text metadata, and the map must have room for a name.
pub open spec fn field_accepted(entries: Entries, key: Seq<char>, value: Seq<char>) -> bool {
    &&& text_key_valid(key)
    &&& text_value_valid(value)
    &&& entries.dom().finite()
    &&& entries.dom().len() < MAX_NAMES
}

/// `entries` after one field: an accepted field replaces the values of its
/// name, any other field is dropped without a trace.
pub open spec fn inject_field(entries: Entries, key: Seq<char>, value: Seq<char>) -> Entries {
    if field_accepted(entries, key, value) {
        with_text(entries, key, value)
    } else {
        entries
    }
}

/// `entries` after all of `fields`, taken in their order.
pub open spec fn inject_fields(entries: Entries, fields: Fields) -> Entries
    decreases fields.len(),
{
    if fields.len() == 0 {
        entries
    } else {
        inject_field(inject_fields(entries, fields.drop_last()), fields.last().0, fields.last().1)
    }
}

/// A map with room for the router's names still has it after any fields.
pub proof fn lemma_inject_keeps_room(entries: Entries, fields: Fields)
    requires
        has_room(entries),
    ensures
        has_room(inject_fields(entries, fields)),
    decreases fields.len(),
{
    if fields.len() > 0 {
        lemma_inject_keeps_room(entries, fields.drop_last());
        let before = inject_fields(entries, fields.drop_last());
        if field_accepted(before, fields.last().0, fields.last().1) {
            let name = canonical_name(fields.last().0);
            assert(with_text(before, fields.last().0, fields.last().1).dom() =~= before.dom().insert(
                name,
            ));
        }
    }
}

/// Writes `fields` into `metadata`, in their order. A field whose key or value
/// is not acceptable as text metadata is passed over, and so is every field
/// once the map holds `MAX_NAMES` names.
pub fn inject_headers(metadata: &mut MetadataMap, fields: &Vec<(String, String)>)
    ensures
        metadata_entries(*final(metadata)) == inject_fields(
            metadata_entries(*old(metadata)),
            fields.deep_view(),
        ),
{
    let ghost before = metadata_entries(*metadata);
    let ghost all = fields.deep_view();
    let mut i: usize = 0;
    while i < fields.len()
        invariant
            i <= fields.len(),
            all == fields.deep_view(),
            metadata_entries(*metadata) == inject_fields(before, all.take(i as int)),
        decreases fields.len() - i,
    {
        proof {
            assert(all.take(i + 1).drop_last() =~= all.take(i as int));
            assert(all.take(i + 1).last() == (fields[i as int].0@, fields[i as int].1@));
        }
        let key: &str = fields[i].0.as_str();
        let value: &str = fields[i].1.as_str();
        if is_text_key(key) && is_text_value(value) && keys_len(metadata) < MAX_NAMES {
            insert_text(metadata, key, value);
        }
        i = i + 1;
    }
    proof {
        assert(all.take(fields.len() as int) =~= all);
    }
}

/// Writes into `metadata` the fields that the process-wide propagator derives
/// from `cx`. Which fields these are is the propagator's affair; whatever they
/// are, they are written as `inject_headers` writes them.
pub fn inject_context(metadata: &mut MetadataMap, cx: &Context)
    ensures
        exists|fields: Fields|
            metadata_entries(*final(metadata)) == inject_fields(
                metadata_entries(*old(metadata)),
                fields,
            ),
{
    let fields = propagation_fields(cx);
    inject_headers(metadata, &fields);
}

} // verus!
