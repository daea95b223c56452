//! What a GenAI tracing client records on its spans, decided over plain values.
use crate::json::{insert_entry, lookup, string_array_view, JsonValue, JsonView, StringMap};
use crate::text::{join, views};
use crate::trace::attr::{completion_output_key, OtelSpanAttributes, OtelSpanBuilder, OtelSpanType};
use crate::trace::key_value::{
    attrs_view, opt_json, push_attribute, push_opt_json, span_attrs, span_kind_of, AttrValue,
    AttrView, SpanAttribute, SpanPlan,
};
use vstd::prelude::*;

verus! {

/// What is known of an error: its display text, its debug text and the display
/// texts of its chain of sources, nearest first.
#[derive(Debug)]
pub struct ErrorDescription {
    pub message: String,
    pub debug: String,
    pub chain: Vec<String>,
}

/// What recording an error does: the span's error status, the attributes set on
/// the span, the attributes of the child error-event span, and the attributes
/// of the `error` event added to both spans.
#[derive(Debug)]
pub struct ErrorRecord {
    pub status_message: String,
    pub span_attributes: Vec<SpanAttribute>,
    pub error_event: OtelSpanAttributes,
    pub event_attributes: Vec<SpanAttribute>,
}

/// The name of an error-event span: `error: <message>`, or
/// `error in <context>: <message>` when a context is given.
pub open spec fn error_span_name(message: Seq<char>, context: Option<Seq<char>>) -> Seq<char> {
    match context {
        Some(c) => "error in "@ + c + ": "@ + message,
        None => "error: "@ + message,
    }
}

/// The metadata of an error-event span.
pub open spec fn error_metadata(e: ErrorDescription, timestamp: Seq<char>) -> Seq<(Seq<char>, JsonView)> {
    let m0 = insert_entry(Seq::empty(), "error_type"@, JsonView::String(e.debug@));
    let m1 = insert_entry(m0, "error_message"@, JsonView::String(e.message@));
    let m2 = insert_entry(m1, "error_timestamp"@, JsonView::String(timestamp));
    if e.chain@.len() > 0 {
        insert_entry(m2, "error_chain"@, string_array_view(views(e.chain@)))
    } else {
        m2
    }
}

/// The attributes are those of the error-event span for the error: named by the
/// error's message and context, an ERROR-level event with the message as status,
/// the error's metadata, the tags `error` and `exception`, and nothing else set.
pub open spec fn is_error_span(
    r: OtelSpanAttributes,
    error: ErrorDescription,
    context: Option<Seq<char>>,
    timestamp: Seq<char>,
) -> bool {
    &&& r.name@ == error_span_name(error.message@, context)
    &&& r.span_type == OtelSpanType::Event
    &&& r.level matches Some(l) && l@ == "ERROR"@
    &&& r.status_message matches Some(m) && m@ == error.message@
    &&& r.data.metadata matches Some(m) && m@ == error_metadata(error, timestamp)
    &&& views(r.tags@) == seq!["error"@, "exception"@]
    &&& r.trace_tags@.len() == 0
    &&& rest_default(r)
}

/// The attributes that recording an error sets on the failed span.
pub open spec fn error_span_attrs(error_type: Seq<char>, e: ErrorDescription) -> Seq<(Seq<char>, AttrView)> {
    seq![
        ("error.type"@, AttrView::Text(error_type)),
        ("error.message"@, AttrView::Text(e.message@)),
        ("error.occurred"@, AttrView::Bool(true)),
    ] + if e.chain@.len() > 0 {
        seq![("error.chain"@, AttrView::Text(join(views(e.chain@), " -> "@)))]
    } else {
        Seq::empty()
    }
}

/// The attributes of the `error` event: the message, the time and the first line
/// of the stack trace when there is one.
pub open spec fn error_event_attrs(
    e: ErrorDescription,
    timestamp: Seq<char>,
    stack_line: Option<String>,
) -> Seq<(Seq<char>, AttrView)> {
    seq![
        ("error.occurred"@, AttrView::Bool(true)),
        ("error.message"@, AttrView::Text(e.message@)),
        ("error.timestamp"@, AttrView::Text(timestamp)),
    ] + match stack_line {
        Some(l) => seq![("error.stack_trace"@, AttrView::Text(l@))],
        None => Seq::empty(),
    }
}

/// Whether a JSON value looks like an LLM completion: a string, or an object with
/// a `content`, `message`, `text` or `completion` member.
pub open spec fn looks_like_completion(v: JsonView) -> bool {
    if v is Object {
        exists|i: int|
            0 <= i < v->Object_0.len() && is_completion_name(#[trigger] v->Object_0[i].0)
    } else {
        v is String
    }
}

/// The member names that mark an LLM completion.
pub open spec fn is_completion_name(k: Seq<char>) -> bool {
    k == "content"@ || k == "message"@ || k == "text"@ || k == "completion"@
}

/// The outputs taken from a response parser's attributes: the observation output,
/// the `completion_output` metadata entry and the trace output, each when present.
pub open spec fn parsed_output_attrs(r: OtelSpanAttributes) -> Seq<(Seq<char>, AttrView)> {
    opt_json("langfuse.observation.output"@, r.data.output) + match r.data.metadata {
        Some(m) => match lookup(m@, completion_output_key()) {
            Some(c) => seq![("gen_ai.completion"@, AttrView::Json(c))],
            None => Seq::empty(),
        },
        None => Seq::empty(),
    } + opt_json("langfuse.trace.output"@, r.trace_output)
}

/// The outputs recorded for a successful result without a parser: the serialized
/// result as observation output, as completion when it looks like one, and as
/// trace output. Nothing when the result could not be serialized.
pub open spec fn default_output_attrs(v: Option<JsonValue>) -> Seq<(Seq<char>, AttrView)> {
    match v {
        Some(j) => seq![("langfuse.observation.output"@, AttrView::Json(j@))] + (if looks_like_completion(j@) {
            seq![("gen_ai.completion"@, AttrView::Json(j@))]
        } else {
            Seq::empty()
        }) + seq![("langfuse.trace.output"@, AttrView::Json(j@))],
        None => Seq::empty(),
    }
}

/// The fields of the attributes besides the name, span type, level, status message,
/// metadata, tags and trace tags hold their defaults.
pub open spec fn rest_default(a: OtelSpanAttributes) -> bool {
    &&& a.user_id is None
    &&& a.session_id is None
    &&& a.version is None
    &&& a.release is None
    &&& a.data.input is None
    &&& a.data.output is None
    &&& a.model is None
    &&& a.model_parameters is None
    &&& a.usage is None
    &&& a.trace_name is None
    &&& a.trace_input is None
    &&& a.trace_output is None
    &&& a.trace_public is None
    &&& a.trace_metadata is None
    &&& a.prompt_name is None
    &&& a.prompt_version is None
    &&& a.cost_details is None
    &&& a.completion_start_time is None
    &&& a.system is None
    &&& a.operation_name is None
    &&& a.response_id is None
    &&& a.finish_reasons@.len() == 0
    &&& a.is_stream is None
    &&& a.openinference_span_kind is None
}

/// Whether the key names a completion-like member.
fn is_completion_key(k: &String) -> (r: bool)
    ensures
        r == (k@ == "content"@ || k@ == "message"@ || k@ == "text"@ || k@ == "completion"@),
{
    let s = k.as_str();
    crate::text::str_eq(s, "content") || crate::text::str_eq(s, "message") || crate::text::str_eq(s, "text")
        || crate::text::str_eq(s, "completion")
}

/// Trait for GenAI OpenTelemetry clients.
pub trait GenAIOtelClient {
    /// The name, kind and attributes of the span that the attributes describe.
    fn create_span_builder(&self, attributes: &OtelSpanAttributes) -> (r: SpanPlan)
        ensures
            r.name@ == attributes.name@,
            r.kind == span_kind_of(attributes.span_type),
            attrs_view(r.attributes@) == span_attrs(*attributes),
    ;

    /// The attributes of an event span.
    fn create_event_span(&self, name: String, level: Option<String>) -> (r: OtelSpanAttributes)
        ensures
            r.name == name,
            r.span_type == OtelSpanType::Event,
            r.level == level,
            r.status_message is None,
            r.data.metadata is None,
            r.tags@.len() == 0,
            r.trace_tags@.len() == 0,
            rest_default(r),
    {
        let builder = OtelSpanBuilder::new(name).span_type(OtelSpanType::Event);
        let builder = match level {
            Some(level) => builder.level(level),
            None => builder,
        };
        builder.build()
    }

    /// The attributes of an error-event span for standalone error logging.
    fn create_error_span(
        &self,
        error: &ErrorDescription,
        span_name: Option<&str>,
        timestamp: String,
    ) -> (r: OtelSpanAttributes)
        ensures
            is_error_span(
                r,
                *error,
                match span_name {
                    Some(c) => Some(c@),
                    None => None,
                },
                timestamp@,
            ),
    {
        let name = match span_name {
            Some(ctx) => {
                let a = crate::text::concat("error in ", ctx);
                let b = crate::text::concat(a.as_str(), ": ");
                crate::text::concat(b.as_str(), error.message.as_str())
            },
            None => crate::text::concat("error: ", error.message.as_str()),
        };
        let mut metadata: StringMap<JsonValue> = StringMap::new();
        metadata.insert(crate::text::owned("error_type"), JsonValue::String(error.debug.clone()));
        metadata.insert(crate::text::owned("error_message"), JsonValue::String(error.message.clone()));
        let ghost ts = timestamp@;
        metadata.insert(crate::text::owned("error_timestamp"), JsonValue::String(timestamp));
        if error.chain.len() > 0 {
            metadata.insert(crate::text::owned("error_chain"), JsonValue::string_array(&error.chain));
        }
        let mut tags: Vec<String> = Vec::new();
        tags.push(crate::text::owned("error"));
        tags.push(crate::text::owned("exception"));
        assert(views(tags@) =~= seq!["error"@, "exception"@]);
        let ghost md = metadata@;
        let r = OtelSpanBuilder::new(name)
            .span_type(OtelSpanType::Event)
            .level(crate::text::owned("ERROR"))
            .status_message(error.message.clone())
            .metadata(metadata)
            .tags(tags)
            .build();
        assert(md == error_metadata(*error, ts));
        r
    }

    /// The attributes a response parser's output sets on the span.
    fn set_parsed_outputs_for_span(&self, response_attributes: &OtelSpanAttributes) -> (r: Vec<SpanAttribute>)
        ensures
            attrs_view(r@) == parsed_output_attrs(*response_attributes),
    {
        let mut out: Vec<SpanAttribute> = Vec::new();
        assert(attrs_view(out@) =~= Seq::<(Seq<char>, AttrView)>::empty());
        push_opt_json(&mut out, "langfuse.observation.output", &response_attributes.data.output);
        let ghost mid = attrs_view(out@);
        match &response_attributes.data.metadata {
            Some(m) => {
                match m.get("completion_output") {
                    Some(c) => {
                        proof {
                            reveal_strlit("completion_output");
                            assert("completion_output"@ =~= completion_output_key());
                        }
                        push_attribute(&mut out, crate::text::owned("gen_ai.completion"), AttrValue::Json(c.copy()));
                    },
                    None => {
                        proof {
                            reveal_strlit("completion_output");
                            assert("completion_output"@ =~= completion_output_key());
                        }
                    },
                }
            },
            None => {},
        }
        push_opt_json(&mut out, "langfuse.trace.output", &response_attributes.trace_output);
        assert(attrs_view(out@) =~= parsed_output_attrs(*response_attributes));
        out
    }

    /// The outputs a successful result sets on the span when no parser applies;
    /// `serialized` is the result as JSON, if it could be serialized.
    /// The outputs a successful traced call records on its span: those of the
    /// parsed response when the parser gave attributes (a response span is then
    /// started with them), else those of the serialized result.
    fn success_outputs(&self, parsed: &Option<OtelSpanAttributes>, serialized: &Option<JsonValue>) -> (r: Vec<
        SpanAttribute,
    >)
        ensures
            attrs_view(r@) == match parsed {
                Some(p) => parsed_output_attrs(*p),
                None => default_output_attrs(*serialized),
            },
    {
        match parsed {
            Some(p) => self.set_parsed_outputs_for_span(p),
            None => self.set_default_outputs_for_span(serialized),
        }
    }

    fn set_default_outputs_for_span(&self, serialized: &Option<JsonValue>) -> (r: Vec<SpanAttribute>)
        ensures
            attrs_view(r@) == default_output_attrs(*serialized),
    {
        let mut out: Vec<SpanAttribute> = Vec::new();
        match serialized {
            Some(v) => {
                push_attribute(&mut out, crate::text::owned("langfuse.observation.output"), AttrValue::Json(v.copy()));
                if self.is_llm_completion(v) {
                    push_attribute(&mut out, crate::text::owned("gen_ai.completion"), AttrValue::Json(v.copy()));
                }
                push_attribute(&mut out, crate::text::owned("langfuse.trace.output"), AttrValue::Json(v.copy()));
            },
            None => {},
        }
        assert(attrs_view(out@) =~= default_output_attrs(*serialized));
        out
    }

    /// Determine if output looks like an LLM completion.
    fn is_llm_completion(&self, output: &JsonValue) -> (r: bool)
        ensures
            r == looks_like_completion(output@),
    {
        match output {
            JsonValue::Object(m) => {
                let mut i: usize = 0;
                while i < m.len()
                    invariant
                        i <= m.len(),
                        *output is Object,
                        output->Object_0 == *m,
                        forall|j: int|
                            0 <= j < i ==> !(#[trigger] m@[j].0@ == "content"@ || m@[j].0@ == "message"@
                                || m@[j].0@ == "text"@ || m@[j].0@ == "completion"@),
                    decreases m.len() - i,
                {
                    if is_completion_key(&m[i].0) {
                        proof {
                            crate::json::lemma_members_view(m@);
                            assert(output@ == JsonView::Object(crate::json::entries_view(m@)));
                            let ev = crate::json::entries_view(m@);
                            assert(ev[i as int].0 == m@[i as int].0@);
                            assert(output@->Object_0 == ev);
                            assert(is_completion_name(output@->Object_0[i as int].0));
                            assert(looks_like_completion(output@));
                        }
                        return true;
                    }
                    i += 1;
                }
                proof {
                    crate::json::lemma_members_view(m@);
                    let ev = crate::json::entries_view(m@);
                    assert(output@ == JsonView::Object(ev));
                    assert forall|j: int| 0 <= j < ev.len() implies !(ev[j].0 == "content"@ || ev[j].0 == "message"@
                        || ev[j].0 == "text"@ || ev[j].0 == "completion"@) by {
                        assert(ev[j].0 == m@[j].0@);
                    }
                }
                false
            },
            JsonValue::String(_) => true,
            _ => false,
        }
    }

    /// What recording an error on a span does; `error_type` is the name of the
    /// error's type, `timestamp` the time of the error and `stack_line` the first
    /// line of the captured stack trace.
    fn record_error(
        &self,
        error_type: String,
        error: &ErrorDescription,
        timestamp: String,
        stack_line: Option<String>,
    ) -> (r: ErrorRecord)
        ensures
            r.status_message@ == error.message@,
            attrs_view(r.span_attributes@) == error_span_attrs(error_type@, *error),
            is_error_span(r.error_event, *error, Some("error_event"@), timestamp@),
            attrs_view(r.event_attributes@) == error_event_attrs(*error, timestamp@, stack_line),
    {
        let mut span_attributes: Vec<SpanAttribute> = Vec::new();
        let ghost tn = error_type@;
        push_attribute(&mut span_attributes, crate::text::owned("error.type"), AttrValue::Text(error_type));
        push_attribute(&mut span_attributes, crate::text::owned("error.message"), AttrValue::Text(error.message.clone()));
        push_attribute(&mut span_attributes, crate::text::owned("error.occurred"), AttrValue::Bool(true));
        if error.chain.len() > 0 {
            let joined = crate::text::join_strings(&error.chain, " -> ");
            push_attribute(&mut span_attributes, crate::text::owned("error.chain"), AttrValue::Text(joined));
        }
        assert(attrs_view(span_attributes@) =~= error_span_attrs(tn, *error));
        let ghost ts = timestamp@;
        let mut event_attributes: Vec<SpanAttribute> = Vec::new();
        push_attribute(&mut event_attributes, crate::text::owned("error.occurred"), AttrValue::Bool(true));
        push_attribute(&mut event_attributes, crate::text::owned("error.message"), AttrValue::Text(error.message.clone()));
        push_attribute(&mut event_attributes, crate::text::owned("error.timestamp"), AttrValue::Text(timestamp.clone()));
        match &stack_line {
            Some(l) => {
                push_attribute(&mut event_attributes, crate::text::owned("error.stack_trace"), AttrValue::Text(l.clone()));
            },
            None => {},
        }
        assert(attrs_view(event_attributes@) =~= error_event_attrs(*error, ts, stack_line));
        proof {
            reveal_strlit("error_event");
        }
        let error_event = self.create_error_span(error, Some("error_event"), timestamp);
        ErrorRecord { status_message: error.message.clone(), span_attributes, error_event, event_attributes }
    }
}


/// Tracer client with support for hierarchical spans.
pub trait RemoteSpanClient: GenAIOtelClient {
    /// The attributes of the root span of a new trace: a plain span with the trace tags.
    fn create_trace_context(&self, trace_name: String, tags: Vec<String>) -> (r: OtelSpanAttributes)
        ensures
            r.name == trace_name,
            r.span_type == OtelSpanType::Span,
            r.trace_tags == tags,
            r.level is None,
            r.status_message is None,
            r.data.metadata is None,
            r.tags@.len() == 0,
            rest_default(r),
    {
        OtelSpanBuilder::new(trace_name).span_type(OtelSpanType::Span).trace_tags(tags).build()
    }
}


/// A completion recorded with the builder's `completion_output` is the one that a
/// parsed response reports as its `gen_ai.completion`.
pub proof fn law_builder_completion_reported(
    r: OtelSpanAttributes,
    old_metadata: Seq<(Seq<char>, JsonView)>,
    c: JsonView,
)
    requires
        r.data.metadata matches Some(m) && m@ == insert_entry(old_metadata, completion_output_key(), c),
    ensures
        parsed_output_attrs(r).contains(("gen_ai.completion"@, AttrView::Json(c))),
{
    crate::json::law_lookup_after_insert(old_metadata, completion_output_key(), c);
    let a = opt_json("langfuse.observation.output"@, r.data.output);
    let b = seq![("gen_ai.completion"@, AttrView::Json(c))];
    let t = opt_json("langfuse.trace.output"@, r.trace_output);
    assert(parsed_output_attrs(r) == a + b + t);
    assert((a + b + t)[a.len() as int] == ("gen_ai.completion"@, AttrView::Json(c)));
}

/// Without a parser, a serialized result is recorded alike as the observation output
/// and as the trace output, and as the completion exactly when it looks like one.
pub proof fn law_default_outputs_mirror(v: JsonValue)
    ensures
        default_output_attrs(Some(v))[0] == ("langfuse.observation.output"@, AttrView::Json(v@)),
        default_output_attrs(Some(v)).last() == ("langfuse.trace.output"@, AttrView::Json(v@)),
        default_output_attrs(Some(v)).len() == if looks_like_completion(v@) {
            3int
        } else {
            2int
        },
        default_output_attrs(None).len() == 0,
{
}

/// Every string is taken for an LLM completion.
pub proof fn law_strings_are_completions(s: Seq<char>)
    ensures
        looks_like_completion(JsonView::String(s)),
{
}

/// A result that is a JSON object looks like an LLM completion exactly when one of
/// its members is named `content`, `message`, `text` or `completion`; a string always
/// does, and any other JSON value never does.
pub proof fn law_completion_members(members: Seq<(Seq<char>, JsonView)>, i: int, v: JsonView)
    ensures
        0 <= i < members.len() && (members[i].0 == "content"@ || members[i].0 == "message"@ || members[i].0
            == "text"@ || members[i].0 == "completion"@) ==> looks_like_completion(JsonView::Object(members)),
        (forall|j: int|
            0 <= j < members.len() ==> !(#[trigger] members[j].0 == "content"@ || members[j].0 == "message"@
                || members[j].0 == "text"@ || members[j].0 == "completion"@)) ==> !looks_like_completion(
            JsonView::Object(members),
        ),
        v is String ==> looks_like_completion(v),
        !(v is String) && !(v is Object) ==> !looks_like_completion(v),
{
    let o = JsonView::Object(members);
    if 0 <= i < members.len() && (members[i].0 == "content"@ || members[i].0 == "message"@ || members[i].0
        == "text"@ || members[i].0 == "completion"@) {
        assert(o->Object_0[i] == members[i]);
        assert(is_completion_name(o->Object_0[i].0));
    }
    if looks_like_completion(o) {
        let k = choose|k: int| 0 <= k < o->Object_0.len() && is_completion_name(#[trigger] o->Object_0[k].0);
        assert(o->Object_0[k] == members[k]);
    }
}

} // verus!
