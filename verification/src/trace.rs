//! Tracing: span attributes, their rendering as key/value pairs, and the clients.
use crate::trace::key_value::{attrs_view, push_attribute, AttrValue, AttrView, SpanAttribute};
use vstd::prelude::*;

pub mod attr;
pub mod impls;
pub mod key_value;
pub mod otel_span;

verus! {

/// The attributes of a server span for a request: the service, the method, the
/// request's debug text and, when present, its `path` metadata.
pub open spec fn request_attrs(
    name: Seq<char>,
    method: Seq<char>,
    request: Seq<char>,
    path: Option<Seq<char>>,
) -> Seq<(Seq<char>, AttrView)> {
    seq![
        ("service.name"@, AttrView::Text(name)),
        ("service.method"@, AttrView::Text(method)),
        ("request"@, AttrView::Text(request)),
    ] + match path {
        Some(p) => seq![("request.path"@, AttrView::Text(p))],
        None => Seq::empty(),
    }
}

/// The attributes of a server span for a request.
pub fn request_span_attributes(name: &str, method: &str, request: String, path: Option<String>) -> (r: Vec<SpanAttribute>)
    ensures
        attrs_view(r@) == request_attrs(name@, method@, request@, crate::text::opt_view(path)),
{
    let mut out: Vec<SpanAttribute> = Vec::new();
    let ghost rq = request@;
    let ghost pv = crate::text::opt_view(path);
    push_attribute(&mut out, crate::text::owned("service.name"), AttrValue::Text(crate::text::owned(name)));
    push_attribute(&mut out, crate::text::owned("service.method"), AttrValue::Text(crate::text::owned(method)));
    push_attribute(&mut out, crate::text::owned("request"), AttrValue::Text(request));
    match path {
        Some(p) => {
            push_attribute(&mut out, crate::text::owned("request.path"), AttrValue::Text(p));
        },
        None => {},
    }
    assert(attrs_view(out@) =~= request_attrs(name@, method@, rq, pv));
    out
}

/// The attributes of a client span for a gRPC call: the RPC system, the service,
/// the method and the request's debug text.
pub open spec fn grpc_client_attrs(name: Seq<char>, method: Seq<char>, request: Seq<char>) -> Seq<(Seq<char>, AttrView)> {
    seq![
        ("rpc.system"@, AttrView::Text("grpc"@)),
        ("service.name"@, AttrView::Text(name)),
        ("rpc.method"@, AttrView::Text(method)),
        ("input.value"@, AttrView::Text(request)),
    ]
}

/// The attributes of a client span for a gRPC call.
pub fn grpc_client_span_attributes(name: &str, method: &str, request: String) -> (r: Vec<SpanAttribute>)
    ensures
        attrs_view(r@) == grpc_client_attrs(name@, method@, request@),
{
    let mut out: Vec<SpanAttribute> = Vec::new();
    let ghost rq = request@;
    push_attribute(&mut out, crate::text::owned("rpc.system"), AttrValue::Text(crate::text::owned("grpc")));
    push_attribute(&mut out, crate::text::owned("service.name"), AttrValue::Text(crate::text::owned(name)));
    push_attribute(&mut out, crate::text::owned("rpc.method"), AttrValue::Text(crate::text::owned(method)));
    push_attribute(&mut out, crate::text::owned("input.value"), AttrValue::Text(request));
    assert(attrs_view(out@) =~= grpc_client_attrs(name@, method@, rq));
    out
}

/// The attribute set on a client span when the call succeeded.
pub fn rpc_success_attribute() -> (r: SpanAttribute)
    ensures
        r@ == ("rpc.result"@, AttrView::Text("success"@)),
{
    SpanAttribute { key: crate::text::owned("rpc.result"), value: AttrValue::Text(crate::text::owned("success")) }
}

/// The attribute set on a span with a response: its debug text.
pub fn response_attribute(response: String) -> (r: SpanAttribute)
    ensures
        r@ == ("response"@, AttrView::Text(response@)),
{
    SpanAttribute { key: crate::text::owned("response"), value: AttrValue::Text(response) }
}

/// The attribute set on a span with an error: its text.
pub fn error_attribute(error: &str) -> (r: SpanAttribute)
    ensures
        r@ == ("error"@, AttrView::Text(error@)),
{
    SpanAttribute { key: crate::text::owned("error"), value: AttrValue::Text(crate::text::owned(error)) }
}

} // verus!
