//! Span attributes rendered as OpenTelemetry key/value pairs.
use crate::json::{float_member, int_member, string_array_view, JsonNumber, JsonValue, JsonView, StringMap};
use crate::text::{decimal, signed_decimal, views};
use crate::trace::attr::{OtelSpanAttributes, OtelSpanType};
use vstd::prelude::*;

verus! {

/// The value of an OpenTelemetry attribute. `Float` holds the IEEE-754 bit pattern
/// of an `f64`; `Json` stands for the JSON text of the value.
#[derive(Debug)]
pub enum AttrValue {
    Text(String),
    Int(i64),
    Float(u64),
    Bool(bool),
    Json(JsonValue),
}

/// The content of an [`AttrValue`].
pub enum AttrView {
    Text(Seq<char>),
    Int(i64),
    Float(u64),
    Bool(bool),
    Json(JsonView),
}

impl View for AttrValue {
    type V = AttrView;

    open spec fn view(&self) -> AttrView {
        match *self {
            AttrValue::Text(s) => AttrView::Text(s@),
            AttrValue::Int(i) => AttrView::Int(i),
            AttrValue::Float(f) => AttrView::Float(f),
            AttrValue::Bool(b) => AttrView::Bool(b),
            AttrValue::Json(j) => AttrView::Json(j@),
        }
    }
}

/// One key/value attribute of a span.
#[derive(Debug)]
pub struct SpanAttribute {
    pub key: String,
    pub value: AttrValue,
}

impl View for SpanAttribute {
    type V = (Seq<char>, AttrView);

    open spec fn view(&self) -> (Seq<char>, AttrView) {
        (self.key@, self.value@)
    }
}

/// The contents of a list of attributes.
pub open spec fn attrs_view(s: Seq<SpanAttribute>) -> Seq<(Seq<char>, AttrView)> {
    s.map_values(|a: SpanAttribute| a@)
}

/// The kind of a span, as OpenTelemetry names it.
#[derive(Debug, Clone, Copy, PartialEq, Eq, Structural)]
pub enum SpanKindChoice {
    Internal,
    Producer,
    Client,
}

/// What a span is started with: its name, its kind and its attributes.
#[derive(Debug)]
pub struct SpanPlan {
    pub name: String,
    pub kind: SpanKindChoice,
    pub attributes: Vec<SpanAttribute>,
}

/// Appends one attribute.
pub fn push_attribute(out: &mut Vec<SpanAttribute>, key: String, value: AttrValue)
    ensures
        attrs_view(final(out)@) == attrs_view(old(out)@).push((key@, value@)),
{
    let ghost k = key@;
    let ghost v = value@;
    out.push(SpanAttribute { key, value });
    assert(attrs_view(out@) =~= attrs_view(old(out)@).push((k, v)));
}

/// A single text attribute when the value is present.
pub open spec fn opt_text(key: Seq<char>, v: Option<String>) -> Seq<(Seq<char>, AttrView)> {
    match v {
        Some(s) => seq![(key, AttrView::Text(s@))],
        None => Seq::empty(),
    }
}

/// A single JSON attribute when the value is present.
pub open spec fn opt_json(key: Seq<char>, v: Option<JsonValue>) -> Seq<(Seq<char>, AttrView)> {
    match v {
        Some(j) => seq![(key, AttrView::Json(j@))],
        None => Seq::empty(),
    }
}

/// A single boolean attribute when the value is present.
pub open spec fn opt_bool(key: Seq<char>, v: Option<bool>) -> Seq<(Seq<char>, AttrView)> {
    match v {
        Some(b) => seq![(key, AttrView::Bool(b))],
        None => Seq::empty(),
    }
}

/// The JSON array of a list of strings, as one attribute, when the list is not empty.
pub open spec fn nonempty_list(key: Seq<char>, items: Seq<String>) -> Seq<(Seq<char>, AttrView)> {
    if items.len() > 0 {
        seq![(key, AttrView::Json(string_array_view(views(items))))]
    } else {
        Seq::empty()
    }
}

pub fn push_opt_text(out: &mut Vec<SpanAttribute>, key: &str, v: &Option<String>)
    ensures
        attrs_view(final(out)@) == attrs_view(old(out)@) + opt_text(key@, *v),
{
    match v {
        Some(s) => {
            push_attribute(out, crate::text::owned(key), AttrValue::Text(s.clone()));
        },
        None => {
            assert(attrs_view(out@) =~= attrs_view(old(out)@) + opt_text(key@, *v));
        },
    }
}

pub fn push_opt_json(out: &mut Vec<SpanAttribute>, key: &str, v: &Option<JsonValue>)
    ensures
        attrs_view(final(out)@) == attrs_view(old(out)@) + opt_json(key@, *v),
{
    match v {
        Some(j) => {
            push_attribute(out, crate::text::owned(key), AttrValue::Json(j.copy()));
        },
        None => {
            assert(attrs_view(out@) =~= attrs_view(old(out)@) + opt_json(key@, *v));
        },
    }
}

pub fn push_opt_bool(out: &mut Vec<SpanAttribute>, key: &str, v: Option<bool>)
    ensures
        attrs_view(final(out)@) == attrs_view(old(out)@) + opt_bool(key@, v),
{
    match v {
        Some(b) => {
            push_attribute(out, crate::text::owned(key), AttrValue::Bool(b));
        },
        None => {
            assert(attrs_view(out@) =~= attrs_view(old(out)@) + opt_bool(key@, v));
        },
    }
}

pub fn push_nonempty_list(out: &mut Vec<SpanAttribute>, key: &str, items: &Vec<String>)
    ensures
        attrs_view(final(out)@) == attrs_view(old(out)@) + nonempty_list(key@, items@),
{
    if items.len() > 0 {
        let j = JsonValue::string_array(items);
        push_attribute(out, crate::text::owned(key), AttrValue::Json(j));
    } else {
        assert(attrs_view(out@) =~= attrs_view(old(out)@) + nonempty_list(key@, items@));
    }
}

/// The attribute that a single model parameter adds under `gen_ai.request.<key>`:
/// floats and integers keep their number, booleans and strings their value, and
/// anything else becomes its JSON text.
pub open spec fn parameter_attr(key: Seq<char>, v: JsonView) -> (Seq<char>, AttrView) {
    let k = "gen_ai.request."@ + key;
    match v {
        JsonView::Number(n) => if n.spec_is_f64() {
            (k, AttrView::Float(n->Float_0))
        } else if n.spec_is_i64() {
            (k, AttrView::Int(n.spec_as_i64()))
        } else {
            (k, AttrView::Json(v))
        },
        JsonView::Bool(b) => (k, AttrView::Bool(b)),
        JsonView::String(s) => (k, AttrView::Text(s)),
        _ => (k, AttrView::Json(v)),
    }
}

/// The model parameters as one JSON object followed by one attribute per parameter.
pub open spec fn model_parameters_attrs(p: Option<StringMap<JsonValue>>) -> Seq<(Seq<char>, AttrView)> {
    match p {
        Some(m) => seq![("langfuse.observation.model_parameters"@, AttrView::Json(JsonView::Object(m@)))]
            + m@.map_values(|e: (Seq<char>, JsonView)| parameter_attr(e.0, e.1)),
        None => Seq::empty(),
    }
}

/// The model parameters as one JSON object.
pub open spec fn model_parameters_json(p: Option<StringMap<JsonValue>>) -> Seq<(Seq<char>, AttrView)> {
    match p {
        Some(m) => seq![("langfuse.observation.model_parameters"@, AttrView::Json(JsonView::Object(m@)))],
        None => Seq::empty(),
    }
}

/// One attribute per metadata entry, its key behind `prefix`, its value as JSON text.
pub open spec fn metadata_attrs(prefix: Seq<char>, m: Option<StringMap<JsonValue>>) -> Seq<(Seq<char>, AttrView)> {
    match m {
        Some(m) => m@.map_values(|e: (Seq<char>, JsonView)| (prefix + e.0, AttrView::Json(e.1))),
        None => Seq::empty(),
    }
}

/// The attributes of one usage count: the well-known names give two standard
/// attributes, any other name a custom `gen_ai.usage.<key>` one.
pub open spec fn usage_entry_attrs(key: Seq<char>, v: i64) -> Seq<(Seq<char>, AttrView)> {
    if key == "input_tokens"@ || key == "promptTokens"@ || key == "prompt"@ {
        seq![("gen_ai.usage.input_tokens"@, AttrView::Int(v)), ("llm.token_count.prompt"@, AttrView::Int(v))]
    } else if key == "output_tokens"@ || key == "completionTokens"@ || key == "completion"@ {
        seq![
            ("gen_ai.usage.completion_tokens"@, AttrView::Int(v)),
            ("llm.token_count.completion"@, AttrView::Int(v)),
        ]
    } else if key == "total_tokens"@ || key == "totalTokens"@ || key == "total"@ {
        seq![("gen_ai.usage.total_tokens"@, AttrView::Int(v)), ("llm.token_count.total"@, AttrView::Int(v))]
    } else {
        seq![("gen_ai.usage."@ + key, AttrView::Int(v))]
    }
}

/// The attributes of all usage counts, in order.
pub open spec fn usage_entries_attrs(s: Seq<(Seq<char>, i64)>) -> Seq<(Seq<char>, AttrView)>
    decreases s.len(),
{
    if s.len() == 0 {
        Seq::empty()
    } else {
        usage_entries_attrs(s.drop_last()) + usage_entry_attrs(s.last().0, s.last().1)
    }
}

/// The JSON object of a map of integers.
pub open spec fn int_object_view(s: Seq<(Seq<char>, i64)>) -> JsonView {
    JsonView::Object(s.map_values(|e: (Seq<char>, i64)| int_member(e)))
}

/// The JSON object of a map of floats given by their bit patterns.
pub open spec fn float_object_view(s: Seq<(Seq<char>, u64)>) -> JsonView {
    JsonView::Object(s.map_values(|e: (Seq<char>, u64)| float_member(e)))
}

/// The usage counts as one JSON object followed by their individual attributes.
pub open spec fn usage_attrs(u: Option<StringMap<i64>>) -> Seq<(Seq<char>, AttrView)> {
    match u {
        Some(m) => seq![("langfuse.observation.usage_details"@, AttrView::Json(int_object_view(m@)))]
            + usage_entries_attrs(m@),
        None => Seq::empty(),
    }
}

/// The cost details as one JSON object, and the `total` cost when there is one.
pub open spec fn cost_attrs(c: Option<StringMap<u64>>) -> Seq<(Seq<char>, AttrView)> {
    match c {
        Some(m) => seq![("langfuse.observation.cost_details"@, AttrView::Json(float_object_view(m@)))]
            + match crate::json::lookup(m@, "total"@) {
                Some(t) => seq![("gen_ai.usage.cost"@, AttrView::Float(t))],
                None => Seq::empty(),
            },
        None => Seq::empty(),
    }
}

/// The model name, under its Langfuse and its gen_ai name.
pub open spec fn model_attrs(m: Option<String>) -> Seq<(Seq<char>, AttrView)> {
    match m {
        Some(s) => seq![
            ("langfuse.observation.model.name"@, AttrView::Text(s@)),
            ("gen_ai.request.model"@, AttrView::Text(s@)),
        ],
        None => Seq::empty(),
    }
}

/// A JSON value under two keys.
pub open spec fn twin_json(k1: Seq<char>, k2: Seq<char>, v: Option<JsonValue>) -> Seq<(Seq<char>, AttrView)> {
    match v {
        Some(j) => seq![(k1, AttrView::Json(j@)), (k2, AttrView::Json(j@))],
        None => Seq::empty(),
    }
}

/// The prompt version as decimal text.
pub open spec fn prompt_version_attrs(v: Option<i32>) -> Seq<(Seq<char>, AttrView)> {
    match v {
        Some(i) => seq![("langfuse.prompt.version"@, AttrView::Text(signed_decimal(i as int)))],
        None => Seq::empty(),
    }
}

/// One `gen_ai.completion.<i>.finish_reason` attribute per finish reason.
pub open spec fn finish_reason_attrs(reasons: Seq<String>) -> Seq<(Seq<char>, AttrView)> {
    Seq::new(
        reasons.len(),
        |i: int| ("gen_ai.completion."@ + decimal(i as nat) + ".finish_reason"@, AttrView::Text(reasons[i]@)),
    )
}

/// The Langfuse name of a span type.
pub open spec fn span_type_name(t: OtelSpanType) -> Seq<char> {
    match t {
        OtelSpanType::Span => "span"@,
        OtelSpanType::Generation => "generation"@,
        OtelSpanType::Event => "event"@,
    }
}

/// The span kind of a span type: generations are producers, the rest internal.
pub open spec fn span_kind_of(t: OtelSpanType) -> SpanKindChoice {
    match t {
        OtelSpanType::Generation => SpanKindChoice::Producer,
        _ => SpanKindChoice::Internal,
    }
}

/// The identity, tag, model and status attributes, in order.
pub open spec fn head_attrs(a: OtelSpanAttributes) -> Seq<(Seq<char>, AttrView)> {
    seq![("langfuse.observation.type"@, AttrView::Text(span_type_name(a.span_type)))]
        + opt_text("user.id"@, a.user_id)
        + opt_text("session.id"@, a.session_id)
        + opt_text("langfuse.version"@, a.version)
        + opt_text("langfuse.release"@, a.release)
        + nonempty_list("langfuse.trace.tags"@, a.tags@)
        + model_attrs(a.model)
        + model_parameters_attrs(a.model_parameters)
        + opt_text("langfuse.observation.level"@, a.level)
        + opt_text("langfuse.observation.status_message"@, a.status_message)
}

/// The data, usage, cost and prompt attributes, in order.
pub open spec fn body_attrs(a: OtelSpanAttributes) -> Seq<(Seq<char>, AttrView)> {
    twin_json("langfuse.observation.input"@, "gen_ai.prompt"@, a.data.input)
        + twin_json("langfuse.observation.output"@, "gen_ai.completion"@, a.data.output)
        + metadata_attrs("langfuse.observation.metadata."@, a.data.metadata)
        + model_parameters_json(a.model_parameters)
        + usage_attrs(a.usage)
        + cost_attrs(a.cost_details)
        + opt_text("langfuse.prompt.name"@, a.prompt_name)
        + prompt_version_attrs(a.prompt_version)
        + opt_text("langfuse.observation.completion_start_time"@, a.completion_start_time)
}

/// The trace-level and gen_ai standard attributes, in order.
pub open spec fn tail_attrs(a: OtelSpanAttributes) -> Seq<(Seq<char>, AttrView)> {
    opt_text("langfuse.trace.name"@, a.trace_name)
        + opt_json("langfuse.trace.input"@, a.trace_input)
        + opt_json("langfuse.trace.output"@, a.trace_output)
        + nonempty_list("langfuse.trace.tags"@, a.trace_tags@)
        + opt_bool("langfuse.trace.public"@, a.trace_public)
        + metadata_attrs("langfuse.trace.metadata."@, a.trace_metadata)
        + opt_text("gen_ai.system"@, a.system)
        + opt_text("gen_ai.operation.name"@, a.operation_name)
        + opt_text("gen_ai.response.id"@, a.response_id)
        + finish_reason_attrs(a.finish_reasons@)
        + opt_bool("gen_ai.request.is_stream"@, a.is_stream)
        + opt_text("openinference.span.kind"@, a.openinference_span_kind)
}

/// All attributes that a span with the given attributes is started with, in order.
pub open spec fn span_attrs(a: OtelSpanAttributes) -> Seq<(Seq<char>, AttrView)> {
    head_attrs(a) + body_attrs(a) + tail_attrs(a)
}


fn push_model_attrs(out: &mut Vec<SpanAttribute>, m: &Option<String>)
    ensures
        attrs_view(final(out)@) == attrs_view(old(out)@) + model_attrs(*m),
{
    match m {
        Some(s) => {
            push_attribute(out, crate::text::owned("langfuse.observation.model.name"), AttrValue::Text(s.clone()));
            push_attribute(out, crate::text::owned("gen_ai.request.model"), AttrValue::Text(s.clone()));
            assert(attrs_view(out@) =~= attrs_view(old(out)@) + model_attrs(*m));
        },
        None => {
            assert(attrs_view(out@) =~= attrs_view(old(out)@) + model_attrs(*m));
        },
    }
}

fn push_twin_json(out: &mut Vec<SpanAttribute>, k1: &str, k2: &str, v: &Option<JsonValue>)
    ensures
        attrs_view(final(out)@) == attrs_view(old(out)@) + twin_json(k1@, k2@, *v),
{
    match v {
        Some(j) => {
            push_attribute(out, crate::text::owned(k1), AttrValue::Json(j.copy()));
            push_attribute(out, crate::text::owned(k2), AttrValue::Json(j.copy()));
            assert(attrs_view(out@) =~= attrs_view(old(out)@) + twin_json(k1@, k2@, *v));
        },
        None => {
            assert(attrs_view(out@) =~= attrs_view(old(out)@) + twin_json(k1@, k2@, *v));
        },
    }
}

/// The attribute of one model parameter.
fn parameter_attribute(key: &String, v: &JsonValue) -> (r: SpanAttribute)
    ensures
        r@ == parameter_attr(key@, v@),
{
    let k = crate::text::concat("gen_ai.request.", key.as_str());
    match v {
        JsonValue::Number(n) => {
            if n.is_f64() {
                let bits = match n {
                    JsonNumber::Float(b) => *b,
                    _ => 0,
                };
                SpanAttribute { key: k, value: AttrValue::Float(bits) }
            } else if n.is_i64() {
                SpanAttribute { key: k, value: AttrValue::Int(n.as_i64()) }
            } else {
                SpanAttribute { key: k, value: AttrValue::Json(v.copy()) }
            }
        },
        JsonValue::Bool(b) => SpanAttribute { key: k, value: AttrValue::Bool(*b) },
        JsonValue::String(s) => SpanAttribute { key: k, value: AttrValue::Text(s.clone()) },
        _ => SpanAttribute { key: k, value: AttrValue::Json(v.copy()) },
    }
}

fn push_model_parameters(out: &mut Vec<SpanAttribute>, p: &Option<StringMap<JsonValue>>)
    ensures
        attrs_view(final(out)@) == attrs_view(old(out)@) + model_parameters_attrs(*p),
{
    match p {
        Some(m) => {
            push_attribute(
                out,
                crate::text::owned("langfuse.observation.model_parameters"),
                AttrValue::Json(JsonValue::object_of(m)),
            );
            let ghost start = attrs_view(out@);
            let es = m.entries();
            let mut i: usize = 0;
            while i < es.len()
                invariant
                    i <= es.len(),
                    crate::json::entries_view(es@) == m@,
                    attrs_view(out@) == start + m@.take(i as int).map_values(
                        |e: (Seq<char>, JsonView)| parameter_attr(e.0, e.1),
                    ),
                decreases es.len() - i,
            {
                let a = parameter_attribute(&es[i].0, &es[i].1);
                let ghost before = attrs_view(out@);
                let ghost av = a@;
                out.push(a);
                proof {
                    assert(attrs_view(out@) =~= before.push(av));
                    assert(m@.take(i + 1).map_values(|e: (Seq<char>, JsonView)| parameter_attr(e.0, e.1))
                        =~= m@.take(i as int).map_values(|e: (Seq<char>, JsonView)| parameter_attr(e.0, e.1)).push(
                        parameter_attr(m@[i as int].0, m@[i as int].1),
                    ));
                }
                i += 1;
            }
            assert(m@.take(m@.len() as int) == m@);
            assert(attrs_view(out@) =~= attrs_view(old(out)@) + model_parameters_attrs(*p));
        },
        None => {
            assert(attrs_view(out@) =~= attrs_view(old(out)@) + model_parameters_attrs(*p));
        },
    }
}

fn push_model_parameters_json(out: &mut Vec<SpanAttribute>, p: &Option<StringMap<JsonValue>>)
    ensures
        attrs_view(final(out)@) == attrs_view(old(out)@) + model_parameters_json(*p),
{
    match p {
        Some(m) => {
            push_attribute(
                out,
                crate::text::owned("langfuse.observation.model_parameters"),
                AttrValue::Json(JsonValue::object_of(m)),
            );
            assert(attrs_view(out@) =~= attrs_view(old(out)@) + model_parameters_json(*p));
        },
        None => {
            assert(attrs_view(out@) =~= attrs_view(old(out)@) + model_parameters_json(*p));
        },
    }
}

fn push_metadata(out: &mut Vec<SpanAttribute>, prefix: &str, md: &Option<StringMap<JsonValue>>)
    ensures
        attrs_view(final(out)@) == attrs_view(old(out)@) + metadata_attrs(prefix@, *md),
{
    match md {
        Some(m) => {
            let ghost start = attrs_view(out@);
            let es = m.entries();
            let mut i: usize = 0;
            while i < es.len()
                invariant
                    i <= es.len(),
                    crate::json::entries_view(es@) == m@,
                    start == attrs_view(old(out)@),
                    attrs_view(out@) == start + m@.take(i as int).map_values(
                        |e: (Seq<char>, JsonView)| (prefix@ + e.0, AttrView::Json(e.1)),
                    ),
                decreases es.len() - i,
            {
                let k = crate::text::concat(prefix, es[i].0.as_str());
                let v = es[i].1.copy();
                let ghost before = attrs_view(out@);
                push_attribute(out, k, AttrValue::Json(v));
                proof {
                    assert(m@.take(i + 1).map_values(|e: (Seq<char>, JsonView)| (prefix@ + e.0, AttrView::Json(e.1)))
                        =~= m@.take(i as int).map_values(
                        |e: (Seq<char>, JsonView)| (prefix@ + e.0, AttrView::Json(e.1)),
                    ).push((prefix@ + m@[i as int].0, AttrView::Json(m@[i as int].1))));
                }
                i += 1;
            }
            assert(m@.take(m@.len() as int) == m@);
        },
        None => {
            assert(attrs_view(out@) =~= attrs_view(old(out)@) + metadata_attrs(prefix@, *md));
        },
    }
}

/// The attributes of one usage count.
fn push_usage_entry(out: &mut Vec<SpanAttribute>, key: &String, v: i64)
    ensures
        attrs_view(final(out)@) == attrs_view(old(out)@) + usage_entry_attrs(key@, v),
{
    let k = key.as_str();
    if crate::text::str_eq(k, "input_tokens") || crate::text::str_eq(k, "promptTokens")
        || crate::text::str_eq(k, "prompt") {
        push_attribute(out, crate::text::owned("gen_ai.usage.input_tokens"), AttrValue::Int(v));
        push_attribute(out, crate::text::owned("llm.token_count.prompt"), AttrValue::Int(v));
    } else if crate::text::str_eq(k, "output_tokens") || crate::text::str_eq(k, "completionTokens")
        || crate::text::str_eq(k, "completion") {
        push_attribute(out, crate::text::owned("gen_ai.usage.completion_tokens"), AttrValue::Int(v));
        push_attribute(out, crate::text::owned("llm.token_count.completion"), AttrValue::Int(v));
    } else if crate::text::str_eq(k, "total_tokens") || crate::text::str_eq(k, "totalTokens")
        || crate::text::str_eq(k, "total") {
        push_attribute(out, crate::text::owned("gen_ai.usage.total_tokens"), AttrValue::Int(v));
        push_attribute(out, crate::text::owned("llm.token_count.total"), AttrValue::Int(v));
    } else {
        push_attribute(out, crate::text::concat("gen_ai.usage.", k), AttrValue::Int(v));
    }
    assert(attrs_view(out@) =~= attrs_view(old(out)@) + usage_entry_attrs(key@, v));
}

fn push_usage(out: &mut Vec<SpanAttribute>, u: &Option<StringMap<i64>>)
    ensures
        attrs_view(final(out)@) == attrs_view(old(out)@) + usage_attrs(*u),
{
    match u {
        Some(m) => {
            push_attribute(
                out,
                crate::text::owned("langfuse.observation.usage_details"),
                AttrValue::Json(JsonValue::int_object_of(m)),
            );
            let ghost start = attrs_view(out@);
            let es = m.entries();
            let mut i: usize = 0;
            while i < es.len()
                invariant
                    i <= es.len(),
                    crate::json::entries_view(es@) == m@,
                    attrs_view(out@) == start + usage_entries_attrs(m@.take(i as int)),
                decreases es.len() - i,
            {
                let ghost before = attrs_view(out@);
                push_usage_entry(out, &es[i].0, es[i].1);
                proof {
                    assert(m@.take(i + 1).drop_last() =~= m@.take(i as int));
                    assert(m@.take(i + 1).last() == m@[i as int]);
                    assert(start + usage_entries_attrs(m@.take(i + 1)) =~= before + usage_entry_attrs(
                        m@[i as int].0,
                        m@[i as int].1,
                    ));
                }
                i += 1;
            }
            assert(m@.take(m@.len() as int) == m@);
            assert(attrs_view(out@) =~= attrs_view(old(out)@) + usage_attrs(*u));
        },
        None => {
            assert(attrs_view(out@) =~= attrs_view(old(out)@) + usage_attrs(*u));
        },
    }
}

fn push_cost(out: &mut Vec<SpanAttribute>, c: &Option<StringMap<u64>>)
    ensures
        attrs_view(final(out)@) == attrs_view(old(out)@) + cost_attrs(*c),
{
    match c {
        Some(m) => {
            push_attribute(
                out,
                crate::text::owned("langfuse.observation.cost_details"),
                AttrValue::Json(JsonValue::float_object_of(m)),
            );
            match m.get("total") {
                Some(t) => {
                    push_attribute(out, crate::text::owned("gen_ai.usage.cost"), AttrValue::Float(*t));
                },
                None => {},
            }
            assert(attrs_view(out@) =~= attrs_view(old(out)@) + cost_attrs(*c));
        },
        None => {
            assert(attrs_view(out@) =~= attrs_view(old(out)@) + cost_attrs(*c));
        },
    }
}

fn push_prompt_version(out: &mut Vec<SpanAttribute>, v: Option<i32>)
    ensures
        attrs_view(final(out)@) == attrs_view(old(out)@) + prompt_version_attrs(v),
{
    match v {
        Some(i) => {
            push_attribute(
                out,
                crate::text::owned("langfuse.prompt.version"),
                AttrValue::Text(crate::text::i64_to_decimal(i as i64)),
            );
            assert(attrs_view(out@) =~= attrs_view(old(out)@) + prompt_version_attrs(v));
        },
        None => {
            assert(attrs_view(out@) =~= attrs_view(old(out)@) + prompt_version_attrs(v));
        },
    }
}

fn push_finish_reasons(out: &mut Vec<SpanAttribute>, reasons: &Vec<String>)
    ensures
        attrs_view(final(out)@) == attrs_view(old(out)@) + finish_reason_attrs(reasons@),
{
    let ghost start = attrs_view(out@);
    let mut i: usize = 0;
    while i < reasons.len()
        invariant
            i <= reasons.len(),
            start == attrs_view(old(out)@),
            attrs_view(out@) == start + finish_reason_attrs(reasons@.take(i as int)),
        decreases reasons.len() - i,
    {
        let digits = crate::text::u64_to_decimal(i as u64);
        let k0 = crate::text::concat("gen_ai.completion.", digits.as_str());
        let k = crate::text::concat(k0.as_str(), ".finish_reason");
        let ghost before = attrs_view(out@);
        push_attribute(out, k, AttrValue::Text(reasons[i].clone()));
        proof {
            assert(finish_reason_attrs(reasons@.take(i + 1)) =~= finish_reason_attrs(reasons@.take(i as int)).push(
                ("gen_ai.completion."@ + decimal(i as nat) + ".finish_reason"@, AttrView::Text(reasons@[i as int]@)),
            ));
        }
        i += 1;
    }
    assert(reasons@.take(reasons@.len() as int) == reasons@);
}

/// The Langfuse name of a span type.
fn span_type_text(t: OtelSpanType) -> (r: String)
    ensures
        r@ == span_type_name(t),
{
    match t {
        OtelSpanType::Span => crate::text::owned("span"),
        OtelSpanType::Generation => crate::text::owned("generation"),
        OtelSpanType::Event => crate::text::owned("event"),
    }
}

/// The span kind of a span type.
pub fn span_kind(t: OtelSpanType) -> (r: SpanKindChoice)
    ensures
        r == span_kind_of(t),
{
    match t {
        OtelSpanType::Generation => SpanKindChoice::Producer,
        OtelSpanType::Event => SpanKindChoice::Internal,
        OtelSpanType::Span => SpanKindChoice::Internal,
    }
}

fn push_head(out: &mut Vec<SpanAttribute>, a: &OtelSpanAttributes)
    ensures
        attrs_view(final(out)@) == attrs_view(old(out)@) + head_attrs(*a),
{
    push_attribute(out, crate::text::owned("langfuse.observation.type"), AttrValue::Text(span_type_text(a.span_type)));
    push_opt_text(out, "user.id", &a.user_id);
    push_opt_text(out, "session.id", &a.session_id);
    push_opt_text(out, "langfuse.version", &a.version);
    push_opt_text(out, "langfuse.release", &a.release);
    push_nonempty_list(out, "langfuse.trace.tags", &a.tags);
    push_model_attrs(out, &a.model);
    push_model_parameters(out, &a.model_parameters);
    push_opt_text(out, "langfuse.observation.level", &a.level);
    push_opt_text(out, "langfuse.observation.status_message", &a.status_message);
    assert(attrs_view(out@) =~= attrs_view(old(out)@) + head_attrs(*a));
}

fn push_body(out: &mut Vec<SpanAttribute>, a: &OtelSpanAttributes)
    ensures
        attrs_view(final(out)@) == attrs_view(old(out)@) + body_attrs(*a),
{
    push_twin_json(out, "langfuse.observation.input", "gen_ai.prompt", &a.data.input);
    push_twin_json(out, "langfuse.observation.output", "gen_ai.completion", &a.data.output);
    push_metadata(out, "langfuse.observation.metadata.", &a.data.metadata);
    push_model_parameters_json(out, &a.model_parameters);
    push_usage(out, &a.usage);
    push_cost(out, &a.cost_details);
    push_opt_text(out, "langfuse.prompt.name", &a.prompt_name);
    push_prompt_version(out, a.prompt_version);
    push_opt_text(out, "langfuse.observation.completion_start_time", &a.completion_start_time);
    assert(attrs_view(out@) =~= attrs_view(old(out)@) + body_attrs(*a));
}

fn push_tail(out: &mut Vec<SpanAttribute>, a: &OtelSpanAttributes)
    ensures
        attrs_view(final(out)@) == attrs_view(old(out)@) + tail_attrs(*a),
{
    push_opt_text(out, "langfuse.trace.name", &a.trace_name);
    push_opt_json(out, "langfuse.trace.input", &a.trace_input);
    push_opt_json(out, "langfuse.trace.output", &a.trace_output);
    push_nonempty_list(out, "langfuse.trace.tags", &a.trace_tags);
    push_opt_bool(out, "langfuse.trace.public", a.trace_public);
    push_metadata(out, "langfuse.trace.metadata.", &a.trace_metadata);
    push_opt_text(out, "gen_ai.system", &a.system);
    push_opt_text(out, "gen_ai.operation.name", &a.operation_name);
    push_opt_text(out, "gen_ai.response.id", &a.response_id);
    push_finish_reasons(out, &a.finish_reasons);
    push_opt_bool(out, "gen_ai.request.is_stream", a.is_stream);
    push_opt_text(out, "openinference.span.kind", &a.openinference_span_kind);
    assert(attrs_view(out@) =~= attrs_view(old(out)@) + tail_attrs(*a));
}

/// The name, kind and attributes of the span that the attributes describe.
pub fn span_plan(attributes: &OtelSpanAttributes) -> (r: SpanPlan)
    ensures
        r.name@ == attributes.name@,
        r.kind == span_kind_of(attributes.span_type),
        attrs_view(r.attributes@) == span_attrs(*attributes),
{
    let mut out: Vec<SpanAttribute> = Vec::new();
    assert(attrs_view(out@) =~= Seq::<(Seq<char>, AttrView)>::empty());
    push_head(&mut out, attributes);
    push_body(&mut out, attributes);
    push_tail(&mut out, attributes);
    assert(attrs_view(out@) =~= span_attrs(*attributes));
    SpanPlan { name: attributes.name.clone(), kind: span_kind(attributes.span_type), attributes: out }
}


/// Every span's first attribute is its Langfuse observation type.
pub proof fn law_observation_type_first(a: OtelSpanAttributes)
    ensures
        span_attrs(a).len() > 0,
        span_attrs(a)[0] == ("langfuse.observation.type"@, AttrView::Text(span_type_name(a.span_type))),
{
    let h = head_attrs(a);
    let first = seq![("langfuse.observation.type"@, AttrView::Text(span_type_name(a.span_type)))];
    assert(h.len() >= 1);
    assert(h[0] == first[0]) by {
        let rest = opt_text("user.id"@, a.user_id);
        assert((first + rest)[0] == first[0]);
    }
    assert(span_attrs(a)[0] == h[0]);
}

/// Only generations are producer spans; spans and events are internal.
pub proof fn law_span_kinds(t: OtelSpanType)
    ensures
        (span_kind_of(t) == SpanKindChoice::Producer) <==> (t == OtelSpanType::Generation),
        span_kind_of(t) != SpanKindChoice::Client,
{
}

/// Each usage count is reported under the names its key stands for: the prompt
/// aliases `input_tokens`, `promptTokens` and `prompt` as `gen_ai.usage.input_tokens`
/// and `llm.token_count.prompt`; the completion aliases `output_tokens`,
/// `completionTokens` and `completion` as `gen_ai.usage.completion_tokens` and
/// `llm.token_count.completion`; the total aliases `total_tokens`, `totalTokens` and
/// `total` as `gen_ai.usage.total_tokens` and `llm.token_count.total`; any other key
/// once, as `gen_ai.usage.` followed by the key.
pub proof fn law_usage_aliases(key: Seq<char>, v: i64)
    ensures
        key == "input_tokens"@ || key == "promptTokens"@ || key == "prompt"@ ==> usage_entry_attrs(key, v) == seq![
            ("gen_ai.usage.input_tokens"@, AttrView::Int(v)),
            ("llm.token_count.prompt"@, AttrView::Int(v)),
        ],
        key == "output_tokens"@ || key == "completionTokens"@ || key == "completion"@ ==> usage_entry_attrs(key, v)
            == seq![
            ("gen_ai.usage.completion_tokens"@, AttrView::Int(v)),
            ("llm.token_count.completion"@, AttrView::Int(v)),
        ],
        key == "total_tokens"@ || key == "totalTokens"@ || key == "total"@ ==> usage_entry_attrs(key, v) == seq![
            ("gen_ai.usage.total_tokens"@, AttrView::Int(v)),
            ("llm.token_count.total"@, AttrView::Int(v)),
        ],
        !(key == "input_tokens"@ || key == "promptTokens"@ || key == "prompt"@ || key == "output_tokens"@ || key
            == "completionTokens"@ || key == "completion"@ || key == "total_tokens"@ || key == "totalTokens"@ || key
            == "total"@) ==> usage_entry_attrs(key, v) == seq![("gen_ai.usage."@ + key, AttrView::Int(v))],
{
    reveal_strlit("input_tokens");
    reveal_strlit("promptTokens");
    reveal_strlit("prompt");
    reveal_strlit("output_tokens");
    reveal_strlit("completionTokens");
    reveal_strlit("completion");
    reveal_strlit("total_tokens");
    reveal_strlit("totalTokens");
    reveal_strlit("total");
    assert("total_tokens"@ != "input_tokens"@) by {
        assert("total_tokens"@[0] != "input_tokens"@[0]);
    }
    assert("total_tokens"@ != "promptTokens"@) by {
        assert("total_tokens"@[0] != "promptTokens"@[0]);
    }
}

} // verus!
