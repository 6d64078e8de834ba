use logs_router::logs::ExportAction;
use logs_router::logs::ExportEvent;
use logs_router::logs::ExportState;
use logs_router::logs::LogsServer;
use logs_router::propagation::inject_context;
use opentelemetry::propagation::TextMapPropagator;
use opentelemetry::trace::SpanContext;
use opentelemetry::trace::SpanId;
use opentelemetry::trace::TraceContextExt;
use opentelemetry::trace::TraceFlags;
use opentelemetry::trace::TraceId;
use opentelemetry::trace::TraceState;
use opentelemetry::Context;
use opentelemetry_sdk::propagation::TraceContextPropagator;
use std::collections::HashMap;
use tonic::metadata::MetadataMap;

type Step = (ExportState<u8>, ExportAction<u8, u8, u8>);

const TRACE: &str = "0af7651916cd43dd8448eb211c80319c";
const SPAN: &str = "b7ad6b7169203331";

fn active_context() -> Context {
    let span = SpanContext::new(
        TraceId::from_hex(TRACE).unwrap(),
        SpanId::from_hex(SPAN).unwrap(),
        TraceFlags::SAMPLED,
        true,
        TraceState::default(),
    );
    Context::new().with_remote_span_context(span)
}

fn inbound() -> MetadataMap {
    let mut metadata = MetadataMap::new();
    metadata.insert("organization", "default".parse().unwrap());
    metadata
}

fn carried(metadata: &MetadataMap) -> HashMap<String, String> {
    let mut fields = HashMap::new();
    for name in ["traceparent", "tracestate"] {
        if let Some(value) = metadata.get(name) {
            fields.insert(name.to_string(), value.to_str().unwrap().to_string());
        }
    }
    fields
}

#[test]
fn inject_context_writes_the_trace_of_the_context() {
    opentelemetry::global::set_text_map_propagator(TraceContextPropagator::new());
    let mut metadata = inbound();
    inject_context(&mut metadata, &active_context());
    assert_eq!(
        metadata.get("traceparent").unwrap(),
        "00-0af7651916cd43dd8448eb211c80319c-b7ad6b7169203331-01"
    );
    assert_eq!(metadata.get("organization").unwrap(), "default");
}

#[test]
fn inject_context_replaces_an_inbound_trace() {
    opentelemetry::global::set_text_map_propagator(TraceContextPropagator::new());
    let mut metadata = inbound();
    metadata.insert(
        "traceparent",
        "00-11111111111111111111111111111111-2222222222222222-00".parse().unwrap(),
    );
    inject_context(&mut metadata, &active_context());
    let values: Vec<_> = metadata.get_all("traceparent").iter().collect();
    assert_eq!(values.len(), 1);
    assert_eq!(values[0], "00-0af7651916cd43dd8448eb211c80319c-b7ad6b7169203331-01");
}

#[test]
fn outbound_call_carries_the_trace_of_the_inbound_call() {
    opentelemetry::global::set_text_map_propagator(TraceContextPropagator::new());
    let server = LogsServer::default();
    let (state, _): Step = server.export(inbound(), 0, active_context());
    let (state, _): Step =
        server.resume(state, ExportEvent::NodeSelected(Ok("http://n:1".to_string())));
    let (state, _): Step = server.resume(state, ExportEvent::TokenFetched("t".to_string()));
    let (_, action): Step = server.resume(state, ExportEvent::Connected(Ok(())));
    let outbound = match action {
        ExportAction::Forward { metadata, .. } => metadata,
        other => panic!("expected the call to be forwarded, got {:?}", other),
    };
    let extracted = TraceContextPropagator::new().extract(&carried(&outbound));
    let span = extracted.span();
    assert_eq!(span.span_context().trace_id(), TraceId::from_hex(TRACE).unwrap());
    assert_eq!(span.span_context().span_id(), SpanId::from_hex(SPAN).unwrap());
    assert!(span.span_context().is_sampled());
    assert_eq!(outbound.get("authorization").unwrap(), "t");
}

#[test]
fn trace_is_written_only_once_a_node_is_selected() {
    opentelemetry::global::set_text_map_propagator(TraceContextPropagator::new());
    let server = LogsServer::default();
    let (state, _): Step = server.export(inbound(), 0, active_context());
    let (_, action): Step = server.resume(state, ExportEvent::NodeSelected(Err(3)));
    assert!(matches!(action, ExportAction::Reply { .. }));
}

#[test]
fn context_without_a_span_writes_no_trace() {
    opentelemetry::global::set_text_map_propagator(TraceContextPropagator::new());
    let mut metadata = inbound();
    inject_context(&mut metadata, &Context::new());
    assert!(!metadata.contains_key("traceparent"));
    assert_eq!(metadata.keys_len(), 1);
}
