use infra_utils::json::{JsonNumber, JsonValue, StringMap};
use infra_utils::trace::attr::{OtelSpanAttributes, OtelSpanBuilder, OtelSpanType};
use infra_utils::trace::impls::GenericOtelClient;
use infra_utils::trace::key_value::{span_kind, AttrValue, SpanAttribute, SpanKindChoice};
use infra_utils::trace::otel_span::{ErrorDescription, GenAIOtelClient, RemoteSpanClient};
use infra_utils::trace::{grpc_client_span_attributes, request_span_attributes};

fn s(x: &str) -> String {
    x.to_string()
}

fn text_of<'a>(attrs: &'a [SpanAttribute], key: &str) -> Vec<&'a AttrValue> {
    attrs.iter().filter(|a| a.key == key).map(|a| &a.value).collect()
}

fn keys(attrs: &[SpanAttribute]) -> Vec<&str> {
    attrs.iter().map(|a| a.key.as_str()).collect()
}

fn is_text(v: &AttrValue, t: &str) -> bool {
    matches!(v, AttrValue::Text(x) if x == t)
}

#[test]
fn client_keeps_tracer_name() {
    let c = GenericOtelClient::new(s("otel-span-integration-test"));
    assert_eq!(c.get_tracer_name(), "otel-span-integration-test");
}

#[test]
fn builder_defaults() {
    let a = OtelSpanBuilder::new(s("simple-test-span")).build();
    assert_eq!(a.name, "simple-test-span");
    assert_eq!(a.span_type, OtelSpanType::Span);
    assert!(a.tags.is_empty() && a.user_id.is_none() && a.data.input.is_none());
    let d = OtelSpanAttributes::default();
    assert_eq!(d.name, "");
    assert!(d.finish_reasons.is_empty() && d.is_stream.is_none());
}

#[test]
fn builder_sets_fields() {
    let mut usage = StringMap::new();
    usage.insert(s("input_tokens"), 10);
    let a = OtelSpanBuilder::new(s("detailed-test-span"))
        .span_type(OtelSpanType::Generation)
        .model(s("gpt-4"))
        .user_id(s("test-user-123"))
        .session_id(s("test-session-456"))
        .tags(vec![s("test"), s("integration")])
        .usage(usage)
        .prompt_version(42)
        .trace_public(true)
        .build();
    assert_eq!(a.span_type, OtelSpanType::Generation);
    assert_eq!(a.model.as_deref(), Some("gpt-4"));
    assert_eq!(a.user_id.as_deref(), Some("test-user-123"));
    assert_eq!(a.session_id.as_deref(), Some("test-session-456"));
    assert_eq!(a.tags, vec![s("test"), s("integration")]);
    assert_eq!(a.prompt_version, Some(42));
    assert_eq!(a.trace_public, Some(true));
    assert_eq!(a.usage.unwrap().get("input_tokens"), Some(&10));
}

#[test]
fn completion_output_goes_to_metadata_and_replaces() {
    let mut md = StringMap::new();
    md.insert(s("custom_field"), JsonValue::String(s("custom value")));
    let a = OtelSpanBuilder::new(s("x"))
        .metadata(md)
        .completion_output(JsonValue::String(s("first")))
        .completion_output(JsonValue::String(s("second")))
        .build();
    let m = a.data.metadata.unwrap();
    assert_eq!(m.len(), 2);
    assert!(matches!(m.get("completion_output"), Some(JsonValue::String(v)) if v == "second"));
    assert!(matches!(m.get("custom_field"), Some(JsonValue::String(v)) if v == "custom value"));
}

#[test]
fn from_attributes_round_trip() {
    let a = OtelSpanBuilder::new(s("n")).level(s("INFO")).build();
    let b = OtelSpanBuilder::from_attributes(a).build();
    assert_eq!(b.name, "n");
    assert_eq!(b.level.as_deref(), Some("INFO"));
}

#[test]
fn span_plan_of_simple_span() {
    let client = GenericOtelClient::new(s("t"));
    let a = OtelSpanBuilder::new(s("simple-test-span"))
        .tags(vec![s("test"), s("integration")])
        .input(JsonValue::String(s("test context")))
        .build();
    let plan = client.create_span_builder(&a);
    assert_eq!(plan.name, "simple-test-span");
    assert_eq!(plan.kind, SpanKindChoice::Internal);
    assert_eq!(
        keys(&plan.attributes),
        vec!["langfuse.observation.type", "langfuse.trace.tags", "langfuse.observation.input", "gen_ai.prompt"]
    );
    assert!(is_text(&plan.attributes[0].value, "span"));
    match &plan.attributes[1].value {
        AttrValue::Json(JsonValue::Array(v)) => assert_eq!(v.len(), 2),
        other => panic!("unexpected {other:?}"),
    }
}

#[test]
fn span_plan_of_generation_with_usage_and_parameters() {
    let client = GenericOtelClient::new(s("t"));
    let mut usage = StringMap::new();
    usage.insert(s("input_tokens"), 10);
    usage.insert(s("output_tokens"), 20);
    usage.insert(s("total_tokens"), 30);
    usage.insert(s("cached"), 5);
    let mut params = StringMap::new();
    params.insert(s("temperature"), JsonValue::Number(JsonNumber::Float(0.7f64.to_bits())));
    params.insert(s("max_tokens"), JsonValue::Number(JsonNumber::PosInt(50)));
    params.insert(s("stream"), JsonValue::Bool(false));
    params.insert(s("stop"), JsonValue::Array(vec![JsonValue::String(s("\n"))]));
    let mut cost = StringMap::new();
    cost.insert(s("total"), 0.25f64.to_bits());
    let a = OtelSpanBuilder::new(s("usage-test-span"))
        .span_type(OtelSpanType::Generation)
        .model(s("gpt-3.5-turbo"))
        .usage(usage)
        .model_parameters(params)
        .cost_details(cost)
        .prompt_version(-7)
        .finish_reasons(vec![s("stop"), s("length")])
        .build();
    let plan = client.create_span_builder(&a);
    assert_eq!(plan.kind, SpanKindChoice::Producer);
    let attrs = &plan.attributes;
    assert!(is_text(text_of(attrs, "langfuse.observation.type")[0], "generation"));
    assert!(is_text(text_of(attrs, "gen_ai.request.model")[0], "gpt-3.5-turbo"));
    assert!(is_text(text_of(attrs, "langfuse.observation.model.name")[0], "gpt-3.5-turbo"));
    assert!(matches!(text_of(attrs, "gen_ai.usage.input_tokens")[0], AttrValue::Int(10)));
    assert!(matches!(text_of(attrs, "llm.token_count.prompt")[0], AttrValue::Int(10)));
    assert!(matches!(text_of(attrs, "gen_ai.usage.completion_tokens")[0], AttrValue::Int(20)));
    assert!(matches!(text_of(attrs, "llm.token_count.total")[0], AttrValue::Int(30)));
    assert!(matches!(text_of(attrs, "gen_ai.usage.cached")[0], AttrValue::Int(5)));
    assert!(matches!(text_of(attrs, "gen_ai.request.temperature")[0], AttrValue::Float(b) if f64::from_bits(*b) == 0.7));
    assert!(matches!(text_of(attrs, "gen_ai.request.max_tokens")[0], AttrValue::Int(50)));
    assert!(matches!(text_of(attrs, "gen_ai.request.stream")[0], AttrValue::Bool(false)));
    assert!(matches!(text_of(attrs, "gen_ai.request.stop")[0], AttrValue::Json(JsonValue::Array(_))));
    assert_eq!(text_of(attrs, "langfuse.observation.model_parameters").len(), 2);
    assert!(matches!(text_of(attrs, "gen_ai.usage.cost")[0], AttrValue::Float(b) if f64::from_bits(*b) == 0.25));
    assert!(is_text(text_of(attrs, "langfuse.prompt.version")[0], "-7"));
    assert!(is_text(text_of(attrs, "gen_ai.completion.0.finish_reason")[0], "stop"));
    assert!(is_text(text_of(attrs, "gen_ai.completion.1.finish_reason")[0], "length"));
}

#[test]
fn span_plan_of_trace_fields() {
    let client = GenericOtelClient::new(s("t"));
    let mut tmd = StringMap::new();
    tmd.insert(s("k"), JsonValue::Null);
    let a = OtelSpanBuilder::new(s("n"))
        .trace_name(s("tn"))
        .trace_input(JsonValue::Bool(true))
        .trace_output(JsonValue::Null)
        .trace_tags(vec![s("a")])
        .trace_public(false)
        .trace_metadata(tmd)
        .system(s("sys"))
        .operation_name(s("op"))
        .response_id(s("rid"))
        .is_stream(true)
        .openinference_span_kind(s("LLM"))
        .level(s("INFO"))
        .status_message(s("ok"))
        .prompt_name(s("p"))
        .completion_start_time(s("2024"))
        .version(s("v1"))
        .release(s("r1"))
        .build();
    let plan = client.create_span_builder(&a);
    assert_eq!(
        keys(&plan.attributes),
        vec![
            "langfuse.observation.type",
            "langfuse.version",
            "langfuse.release",
            "langfuse.observation.level",
            "langfuse.observation.status_message",
            "langfuse.prompt.name",
            "langfuse.observation.completion_start_time",
            "langfuse.trace.name",
            "langfuse.trace.input",
            "langfuse.trace.output",
            "langfuse.trace.tags",
            "langfuse.trace.public",
            "langfuse.trace.metadata.k",
            "gen_ai.system",
            "gen_ai.operation.name",
            "gen_ai.response.id",
            "gen_ai.request.is_stream",
            "openinference.span.kind",
        ]
    );
}

#[test]
fn span_kind_follows_type() {
    assert_eq!(span_kind(OtelSpanType::Generation), SpanKindChoice::Producer);
    assert_eq!(span_kind(OtelSpanType::Event), SpanKindChoice::Internal);
    assert_eq!(span_kind(OtelSpanType::Span), SpanKindChoice::Internal);
}

#[test]
fn event_span_attributes() {
    let c = GenericOtelClient::new(s("t"));
    let a = c.create_event_span(s("ev"), Some(s("INFO")));
    assert_eq!(a.name, "ev");
    assert_eq!(a.span_type, OtelSpanType::Event);
    assert_eq!(a.level.as_deref(), Some("INFO"));
    let b = c.create_event_span(s("ev2"), None);
    assert_eq!(b.level, None);
}

fn error() -> ErrorDescription {
    ErrorDescription {
        message: s("LLM generation failed"),
        debug: s("TopError"),
        chain: vec![s("API request failed"), s("Network connection failed")],
    }
}

#[test]
fn error_span_attributes() {
    let c = GenericOtelClient::new(s("t"));
    let a = c.create_error_span(&error(), Some("operation"), s("2024-01-01T00:00:00Z"));
    assert_eq!(a.name, "error in operation: LLM generation failed");
    assert_eq!(a.span_type, OtelSpanType::Event);
    assert_eq!(a.level.as_deref(), Some("ERROR"));
    assert_eq!(a.status_message.as_deref(), Some("LLM generation failed"));
    assert_eq!(a.tags, vec![s("error"), s("exception")]);
    let m = a.data.metadata.unwrap();
    assert!(matches!(m.get("error_type"), Some(JsonValue::String(v)) if v == "TopError"));
    assert!(matches!(m.get("error_timestamp"), Some(JsonValue::String(v)) if v == "2024-01-01T00:00:00Z"));
    assert!(matches!(m.get("error_chain"), Some(JsonValue::Array(v)) if v.len() == 2));
    let b = c.create_error_span(&ErrorDescription { message: s("boom"), debug: s("B"), chain: vec![] }, None, s("t"));
    assert_eq!(b.name, "error: boom");
    assert!(b.data.metadata.unwrap().get("error_chain").is_none());
}

#[test]
fn record_error_plan() {
    let c = GenericOtelClient::new(s("t"));
    let r = c.record_error(s("dyn Error"), &error(), s("now"), Some(s("frame 0")));
    assert_eq!(r.status_message, "LLM generation failed");
    assert_eq!(keys(&r.span_attributes), vec!["error.type", "error.message", "error.occurred", "error.chain"]);
    assert!(is_text(&r.span_attributes[3].value, "API request failed -> Network connection failed"));
    assert_eq!(r.error_event.name, "error in error_event: LLM generation failed");
    assert_eq!(keys(&r.event_attributes), vec!["error.occurred", "error.message", "error.timestamp", "error.stack_trace"]);
}

#[test]
fn parsed_outputs() {
    let c = GenericOtelClient::new(s("t"));
    let resp = OtelSpanBuilder::new(s("remote-service-response"))
        .output(JsonValue::String(s("out")))
        .completion_output(JsonValue::String(s("done")))
        .trace_output(JsonValue::Bool(true))
        .build();
    let attrs = c.set_parsed_outputs_for_span(&resp);
    assert_eq!(keys(&attrs), vec!["langfuse.observation.output", "gen_ai.completion", "langfuse.trace.output"]);
    assert!(matches!(&attrs[1].value, AttrValue::Json(JsonValue::String(v)) if v == "done"));
    let empty = c.set_parsed_outputs_for_span(&OtelSpanBuilder::new(s("e")).build());
    assert!(empty.is_empty());
}

#[test]
fn default_outputs_and_completion_detection() {
    let c = GenericOtelClient::new(s("t"));
    let obj = JsonValue::Object(vec![(s("content"), JsonValue::String(s("hi")))]);
    assert!(c.is_llm_completion(&obj));
    assert!(c.is_llm_completion(&JsonValue::String(s("x"))));
    assert!(!c.is_llm_completion(&JsonValue::Number(JsonNumber::PosInt(1))));
    assert!(!c.is_llm_completion(&JsonValue::Object(vec![(s("status"), JsonValue::Null)])));
    let attrs = c.set_default_outputs_for_span(&Some(obj));
    assert_eq!(keys(&attrs), vec!["langfuse.observation.output", "gen_ai.completion", "langfuse.trace.output"]);
    let attrs = c.set_default_outputs_for_span(&Some(JsonValue::Bool(true)));
    assert_eq!(keys(&attrs), vec!["langfuse.observation.output", "langfuse.trace.output"]);
    assert!(c.set_default_outputs_for_span(&None).is_empty());
}

#[test]
fn trace_context_attributes() {
    let c = GenericOtelClient::new(s("t"));
    let a = c.create_trace_context(s("root"), vec![s("distributed")]);
    assert_eq!(a.name, "root");
    assert_eq!(a.span_type, OtelSpanType::Span);
    assert_eq!(a.trace_tags, vec![s("distributed")]);
}

#[test]
fn request_and_grpc_attributes() {
    let a = request_span_attributes("svc", "Method", s("Request {..}"), Some(s("/p")));
    assert_eq!(keys(&a), vec!["service.name", "service.method", "request", "request.path"]);
    let g = grpc_client_span_attributes("svc", "Find", s("req"));
    assert_eq!(keys(&g), vec!["rpc.system", "service.name", "rpc.method", "input.value"]);
    assert!(is_text(&g[0].value, "grpc"));
}

#[test]
fn success_outputs_prefer_the_parsed_response() {
    let c = GenericOtelClient::new(s("t"));
    let resp = OtelSpanBuilder::new(s("response")).output(JsonValue::String(s("out"))).build();
    let attrs = c.success_outputs(&Some(resp), &Some(JsonValue::Bool(true)));
    assert_eq!(keys(&attrs), vec!["langfuse.observation.output"]);
    assert!(matches!(&attrs[0].value, AttrValue::Json(JsonValue::String(v)) if v == "out"));
    let attrs = c.success_outputs(&None, &Some(JsonValue::Bool(true)));
    assert_eq!(keys(&attrs), vec!["langfuse.observation.output", "langfuse.trace.output"]);
    assert!(c.success_outputs(&None, &None).is_empty());
}

#[test]
fn recorded_error_event_is_the_error_span() {
    let c = GenericOtelClient::new(s("t"));
    let e = ErrorDescription { message: s("boom"), debug: s("Boom"), chain: vec![] };
    let r = c.record_error(s("E"), &e, s("2024-01-01T00:00:00Z"), None);
    let direct = c.create_error_span(&e, Some("error_event"), s("2024-01-01T00:00:00Z"));
    assert_eq!(r.error_event.name, direct.name);
    assert_eq!(r.error_event.level.as_deref(), Some("ERROR"));
    assert_eq!(r.error_event.status_message.as_deref(), Some("boom"));
    assert_eq!(r.error_event.tags, vec![s("error"), s("exception")]);
}
