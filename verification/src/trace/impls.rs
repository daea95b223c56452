//! The generic OpenTelemetry client.
use crate::trace::attr::{OtelSpanAttributes, OtelSpanBuilder, OtelSpanType};
use crate::trace::key_value::{attrs_view, span_attrs, span_kind_of, span_plan, SpanPlan};
use crate::trace::otel_span::{GenAIOtelClient, RemoteSpanClient};
use vstd::prelude::*;

verus! {

/// Generic OpenTelemetry client implementation; it uses the global tracer provider
/// under its tracer name.
#[derive(Debug, Clone)]
pub struct GenericOtelClient {
    tracer_name: String,
}

impl View for GenericOtelClient {
    type V = Seq<char>;

    /// The tracer name.
    closed spec fn view(&self) -> Seq<char> {
        self.tracer_name@
    }
}

impl GenericOtelClient {
    /// Create a new client that uses the global tracer provider.
    pub fn new(tracer_name: String) -> (r: Self)
        ensures
            r@ == tracer_name@,
    {
        GenericOtelClient { tracer_name }
    }

    /// Get the tracer name.
    pub fn get_tracer_name(&self) -> (r: String)
        ensures
            r@ == self@,
    {
        self.tracer_name.clone()
    }
}

impl GenAIOtelClient for GenericOtelClient {
    fn create_span_builder(&self, attributes: &OtelSpanAttributes) -> (r: SpanPlan) {
        span_plan(attributes)
    }
}

impl RemoteSpanClient for GenericOtelClient {

}

} // verus!
