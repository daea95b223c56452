//! Span attributes and their fluent builder.
use crate::json::{JsonValue, StringMap};
use vstd::prelude::*;

verus! {

/// Span types based on OpenTelemetry standards.
#[derive(Debug, Clone, Copy, PartialEq, Eq, Structural)]
pub enum OtelSpanType {
    Span,
    Generation,
    Event,
}

/// Input/Output data for spans.
#[derive(Debug)]
pub struct OtelSpanData {
    pub input: Option<JsonValue>,
    pub output: Option<JsonValue>,
    pub metadata: Option<StringMap<JsonValue>>,
}

/// Parsed output data for different telemetry systems.
#[derive(Debug)]
pub struct ParsedOutputData {
    /// External API call result - goes to langfuse.observation.output
    pub observation_output: Option<JsonValue>,
    /// LLM completion text - goes to gen_ai.completion
    pub completion_output: Option<JsonValue>,
    /// Main trace result - goes to langfuse.trace.output
    pub trace_output: Option<JsonValue>,
}

/// Generic span attributes for OpenTelemetry.
/// Cost details are held by the IEEE-754 bit patterns of their amounts.
#[derive(Debug)]
pub struct OtelSpanAttributes {
    pub span_type: OtelSpanType,
    pub name: String,
    pub user_id: Option<String>,
    pub session_id: Option<String>,
    pub version: Option<String>,
    pub release: Option<String>,
    pub tags: Vec<String>,
    pub data: OtelSpanData,
    pub model: Option<String>,
    pub model_parameters: Option<StringMap<JsonValue>>,
    pub usage: Option<StringMap<i64>>,
    pub level: Option<String>,
    pub status_message: Option<String>,
    pub trace_name: Option<String>,
    pub trace_input: Option<JsonValue>,
    pub trace_output: Option<JsonValue>,
    pub trace_tags: Vec<String>,
    pub trace_public: Option<bool>,
    pub trace_metadata: Option<StringMap<JsonValue>>,
    pub prompt_name: Option<String>,
    pub prompt_version: Option<i32>,
    pub cost_details: Option<StringMap<u64>>,
    pub completion_start_time: Option<String>,
    // Additional OpenTelemetry standard fields
    pub system: Option<String>,
    pub operation_name: Option<String>,
    pub response_id: Option<String>,
    pub finish_reasons: Vec<String>,
    pub is_stream: Option<bool>,
    pub openinference_span_kind: Option<String>,
}

impl OtelSpanAttributes {
    /// Every field but the name holds its default: the `Span` type, no optional
    /// values and empty lists.
    pub open spec fn is_default_but_name(self) -> bool {
        &&& self.span_type == OtelSpanType::Span
        &&& self.user_id is None
        &&& self.session_id is None
        &&& self.version is None
        &&& self.release is None
        &&& self.tags@.len() == 0
        &&& self.data.input is None
        &&& self.data.output is None
        &&& self.data.metadata is None
        &&& self.model is None
        &&& self.model_parameters is None
        &&& self.usage is None
        &&& self.level is None
        &&& self.status_message is None
        &&& self.trace_name is None
        &&& self.trace_input is None
        &&& self.trace_output is None
        &&& self.trace_tags@.len() == 0
        &&& self.trace_public is None
        &&& self.trace_metadata is None
        &&& self.prompt_name is None
        &&& self.prompt_version is None
        &&& self.cost_details is None
        &&& self.completion_start_time is None
        &&& self.system is None
        &&& self.operation_name is None
        &&& self.response_id is None
        &&& self.finish_reasons@.len() == 0
        &&& self.is_stream is None
        &&& self.openinference_span_kind is None
    }

    /// The attributes with the given name and every other field at its default.
    pub fn named(name: String) -> (r: Self)
        ensures
            r.name == name,
            r.is_default_but_name(),
    {
        OtelSpanAttributes {
            span_type: OtelSpanType::Span,
            name,
            user_id: None,
            session_id: None,
            version: None,
            release: None,
            tags: Vec::new(),
            data: OtelSpanData { input: None, output: None, metadata: None },
            model: None,
            model_parameters: None,
            usage: None,
            level: None,
            status_message: None,
            trace_name: None,
            trace_input: None,
            trace_output: None,
            trace_tags: Vec::new(),
            trace_public: None,
            trace_metadata: None,
            prompt_name: None,
            prompt_version: None,
            cost_details: None,
            completion_start_time: None,
            system: None,
            operation_name: None,
            response_id: None,
            finish_reasons: Vec::new(),
            is_stream: None,
            openinference_span_kind: None,
        }
    }
}

impl Default for OtelSpanAttributes {
    fn default() -> (r: Self)
        ensures
            r.name@.len() == 0,
            r.is_default_but_name(),
    {
        OtelSpanAttributes::named(String::new())
    }
}

/// Builder for creating spans with fluent API.
#[derive(Debug)]
pub struct OtelSpanBuilder {
    attributes: OtelSpanAttributes,
}

impl View for OtelSpanBuilder {
    type V = OtelSpanAttributes;

    /// The attributes built so far.
    closed spec fn view(&self) -> OtelSpanAttributes {
        self.attributes
    }
}

impl OtelSpanBuilder {
    pub fn new(name: String) -> (r: Self)
        ensures
            r@.name == name,
            r@.is_default_but_name(),
    {
        OtelSpanBuilder { attributes: OtelSpanAttributes::named(name) }
    }

    pub fn span_type(self, span_type: OtelSpanType) -> (r: Self)
        ensures
            r@ == (OtelSpanAttributes { span_type, ..self@ }),
    {
        let mut s = self;
        s.attributes.span_type = span_type;
        s
    }

    pub fn user_id(self, user_id: String) -> (r: Self)
        ensures
            r@ == (OtelSpanAttributes { user_id: Some(user_id), ..self@ }),
    {
        let mut s = self;
        s.attributes.user_id = Some(user_id);
        s
    }

    pub fn session_id(self, session_id: String) -> (r: Self)
        ensures
            r@ == (OtelSpanAttributes { session_id: Some(session_id), ..self@ }),
    {
        let mut s = self;
        s.attributes.session_id = Some(session_id);
        s
    }

    pub fn version(self, version: String) -> (r: Self)
        ensures
            r@ == (OtelSpanAttributes { version: Some(version), ..self@ }),
    {
        let mut s = self;
        s.attributes.version = Some(version);
        s
    }

    pub fn release(self, release: String) -> (r: Self)
        ensures
            r@ == (OtelSpanAttributes { release: Some(release), ..self@ }),
    {
        let mut s = self;
        s.attributes.release = Some(release);
        s
    }

    pub fn tags(self, tags: Vec<String>) -> (r: Self)
        ensures
            r@ == (OtelSpanAttributes { tags, ..self@ }),
    {
        let mut s = self;
        s.attributes.tags = tags;
        s
    }

    pub fn model(self, model: String) -> (r: Self)
        ensures
            r@ == (OtelSpanAttributes { model: Some(model), ..self@ }),
    {
        let mut s = self;
        s.attributes.model = Some(model);
        s
    }

    pub fn input(self, input: JsonValue) -> (r: Self)
        ensures
            r@ == (OtelSpanAttributes { data: OtelSpanData { input: Some(input), ..self@.data }, ..self@ }),
    {
        let mut s = self;
        s.attributes.data.input = Some(input);
        s
    }

    pub fn output(self, output: JsonValue) -> (r: Self)
        ensures
            r@ == (OtelSpanAttributes { data: OtelSpanData { output: Some(output), ..self@.data }, ..self@ }),
    {
        let mut s = self;
        s.attributes.data.output = Some(output);
        s
    }

    /// The observation output is the span's output.
    pub fn observation_output(self, output: JsonValue) -> (r: Self)
        ensures
            r@ == (OtelSpanAttributes { data: OtelSpanData { output: Some(output), ..self@.data }, ..self@ }),
    {
        let mut s = self;
        s.attributes.data.output = Some(output);
        s
    }

    /// Stores the completion under the metadata key `completion_output`, keeping
    /// the other metadata entries.
    pub fn completion_output(self, completion: JsonValue) -> (r: Self)
        ensures
            r@.data.metadata matches Some(m) && m@ == crate::json::insert_entry(
                match self@.data.metadata {
                    Some(old_m) => old_m@,
                    None => Seq::empty(),
                },
                completion_output_key(),
                completion@,
            ),
            r@ == (OtelSpanAttributes {
                data: OtelSpanData { metadata: r@.data.metadata, ..self@.data },
                ..self@
            }),
    {
        let mut s = self;
        let old_metadata = s.attributes.data.metadata.take();
        let mut metadata = match old_metadata {
            Some(m) => m,
            None => StringMap::new(),
        };
        let key = crate::text::owned("completion_output");
        proof {
            reveal_strlit("completion_output");
            assert(key@ =~= completion_output_key());
        }
        metadata.insert(key, completion);
        s.attributes.data.metadata = Some(metadata);
        s
    }

    pub fn metadata(self, metadata: StringMap<JsonValue>) -> (r: Self)
        ensures
            r@ == (OtelSpanAttributes { data: OtelSpanData { metadata: Some(metadata), ..self@.data }, ..self@ }),
    {
        let mut s = self;
        s.attributes.data.metadata = Some(metadata);
        s
    }

    pub fn model_parameters(self, params: StringMap<JsonValue>) -> (r: Self)
        ensures
            r@ == (OtelSpanAttributes { model_parameters: Some(params), ..self@ }),
    {
        let mut s = self;
        s.attributes.model_parameters = Some(params);
        s
    }

    pub fn usage(self, usage: StringMap<i64>) -> (r: Self)
        ensures
            r@ == (OtelSpanAttributes { usage: Some(usage), ..self@ }),
    {
        let mut s = self;
        s.attributes.usage = Some(usage);
        s
    }

    pub fn level(self, level: String) -> (r: Self)
        ensures
            r@ == (OtelSpanAttributes { level: Some(level), ..self@ }),
    {
        let mut s = self;
        s.attributes.level = Some(level);
        s
    }

    pub fn status_message(self, message: String) -> (r: Self)
        ensures
            r@ == (OtelSpanAttributes { status_message: Some(message), ..self@ }),
    {
        let mut s = self;
        s.attributes.status_message = Some(message);
        s
    }

    pub fn trace_name(self, name: String) -> (r: Self)
        ensures
            r@ == (OtelSpanAttributes { trace_name: Some(name), ..self@ }),
    {
        let mut s = self;
        s.attributes.trace_name = Some(name);
        s
    }

    pub fn trace_input(self, input: JsonValue) -> (r: Self)
        ensures
            r@ == (OtelSpanAttributes { trace_input: Some(input), ..self@ }),
    {
        let mut s = self;
        s.attributes.trace_input = Some(input);
        s
    }

    pub fn trace_output(self, output: JsonValue) -> (r: Self)
        ensures
            r@ == (OtelSpanAttributes { trace_output: Some(output), ..self@ }),
    {
        let mut s = self;
        s.attributes.trace_output = Some(output);
        s
    }

    pub fn trace_tags(self, tags: Vec<String>) -> (r: Self)
        ensures
            r@ == (OtelSpanAttributes { trace_tags: tags, ..self@ }),
    {
        let mut s = self;
        s.attributes.trace_tags = tags;
        s
    }

    pub fn trace_public(self, public: bool) -> (r: Self)
        ensures
            r@ == (OtelSpanAttributes { trace_public: Some(public), ..self@ }),
    {
        let mut s = self;
        s.attributes.trace_public = Some(public);
        s
    }

    pub fn trace_metadata(self, metadata: StringMap<JsonValue>) -> (r: Self)
        ensures
            r@ == (OtelSpanAttributes { trace_metadata: Some(metadata), ..self@ }),
    {
        let mut s = self;
        s.attributes.trace_metadata = Some(metadata);
        s
    }

    pub fn prompt_name(self, name: String) -> (r: Self)
        ensures
            r@ == (OtelSpanAttributes { prompt_name: Some(name), ..self@ }),
    {
        let mut s = self;
        s.attributes.prompt_name = Some(name);
        s
    }

    pub fn prompt_version(self, version: i32) -> (r: Self)
        ensures
            r@ == (OtelSpanAttributes { prompt_version: Some(version), ..self@ }),
    {
        let mut s = self;
        s.attributes.prompt_version = Some(version);
        s
    }

    /// Cost amounts are given by the bit patterns of their `f64` values.
    pub fn cost_details(self, cost_details: StringMap<u64>) -> (r: Self)
        ensures
            r@ == (OtelSpanAttributes { cost_details: Some(cost_details), ..self@ }),
    {
        let mut s = self;
        s.attributes.cost_details = Some(cost_details);
        s
    }

    pub fn completion_start_time(self, time: String) -> (r: Self)
        ensures
            r@ == (OtelSpanAttributes { completion_start_time: Some(time), ..self@ }),
    {
        let mut s = self;
        s.attributes.completion_start_time = Some(time);
        s
    }

    pub fn system(self, system: String) -> (r: Self)
        ensures
            r@ == (OtelSpanAttributes { system: Some(system), ..self@ }),
    {
        let mut s = self;
        s.attributes.system = Some(system);
        s
    }

    pub fn operation_name(self, operation_name: String) -> (r: Self)
        ensures
            r@ == (OtelSpanAttributes { operation_name: Some(operation_name), ..self@ }),
    {
        let mut s = self;
        s.attributes.operation_name = Some(operation_name);
        s
    }

    pub fn response_id(self, response_id: String) -> (r: Self)
        ensures
            r@ == (OtelSpanAttributes { response_id: Some(response_id), ..self@ }),
    {
        let mut s = self;
        s.attributes.response_id = Some(response_id);
        s
    }

    pub fn finish_reasons(self, finish_reasons: Vec<String>) -> (r: Self)
        ensures
            r@ == (OtelSpanAttributes { finish_reasons, ..self@ }),
    {
        let mut s = self;
        s.attributes.finish_reasons = finish_reasons;
        s
    }

    pub fn is_stream(self, is_stream: bool) -> (r: Self)
        ensures
            r@ == (OtelSpanAttributes { is_stream: Some(is_stream), ..self@ }),
    {
        let mut s = self;
        s.attributes.is_stream = Some(is_stream);
        s
    }

    pub fn openinference_span_kind(self, span_kind: String) -> (r: Self)
        ensures
            r@ == (OtelSpanAttributes { openinference_span_kind: Some(span_kind), ..self@ }),
    {
        let mut s = self;
        s.attributes.openinference_span_kind = Some(span_kind);
        s
    }

    pub fn build(self) -> (r: OtelSpanAttributes)
        ensures
            r == self@,
    {
        self.attributes
    }

    /// Create builder from existing attributes.
    pub fn from_attributes(attributes: OtelSpanAttributes) -> (r: Self)
        ensures
            r@ == attributes,
    {
        OtelSpanBuilder { attributes }
    }
}

/// The metadata key under which a completion output is kept.
pub open spec fn completion_output_key() -> Seq<char> {
    seq!['c', 'o', 'm', 'p', 'l', 'e', 't', 'i', 'o', 'n', '_', 'o', 'u', 't', 'p', 'u', 't']
}

} // verus!
