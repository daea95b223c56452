//! Descriptor resolution through the gRPC server reflection service.
//!
//! The reflection requests themselves are made by the caller; this module decides,
//! for each reply, which descriptors are kept, which dependencies and symbols are
//! still to be fetched, and what the shared descriptor cache learns.
use crate::json::{insert_entry, JsonNumber, JsonValue, JsonView, StringMap};
use crate::text::{contains_seq, opt_view, views};
use prost_reflect::prost::Message;
use vstd::prelude::*;

verus! {

/// The most rounds of dependency fetching for one symbol.
pub const MAX_DEPENDENCY_ROUNDS: usize = 30;

/// What decoding a `FileDescriptorProto` from these bytes gives: its file name and
/// its dependencies, or nothing when the bytes do not decode.
pub uninterp spec fn decoded_file_header(bytes: Seq<u8>) -> Option<(Option<Seq<char>>, Seq<Seq<char>>)>;

/// Decodes a `FileDescriptorProto` with prost and keeps its name and dependencies.
#[verifier::external_body]
fn decode_file_header(bytes: &[u8]) -> (r: Option<(Option<String>, Vec<String>)>)
    ensures
        match r {
            Some((n, d)) => decoded_file_header(bytes@) == Some((opt_view(n), views(d@))),
            None => decoded_file_header(bytes@) is None,
        },
{
    match prost_reflect::prost_types::FileDescriptorProto::decode(bytes) {
        Ok(p) => Some((p.name, p.dependency)),
        Err(_) => None,
    }
}

/// A file descriptor as the reflection service sends it: its encoded bytes, with
/// the file name and the dependencies decoded from them.
#[derive(Debug)]
pub struct FileDescriptor {
    pub name: Option<String>,
    pub dependency: Vec<String>,
    pub encoded: Vec<u8>,
}

/// The content of a [`FileDescriptor`].
pub struct FileView {
    pub name: Option<Seq<char>>,
    pub dependency: Seq<Seq<char>>,
    pub encoded: Seq<u8>,
}

impl View for FileDescriptor {
    type V = FileView;

    open spec fn view(&self) -> FileView {
        FileView { name: opt_view(self.name), dependency: views(self.dependency@), encoded: self.encoded@ }
    }
}

/// The contents of a list of file descriptors.
pub open spec fn file_views(s: Seq<FileDescriptor>) -> Seq<FileView> {
    s.map_values(|f: FileDescriptor| f@)
}

/// The file descriptor that the bytes decode to, if they decode.
pub open spec fn decoded_file(bytes: Seq<u8>) -> Option<FileView> {
    match decoded_file_header(bytes) {
        Some((n, d)) => Some(FileView { name: n, dependency: d, encoded: bytes }),
        None => None,
    }
}

/// The encoded bytes of a list of file descriptors.
pub open spec fn encoded_files(s: Seq<FileDescriptor>) -> Seq<Seq<u8>> {
    s.map_values(|f: FileDescriptor| f.encoded@)
}

/// The full names of the messages of a descriptor pool made of the encoded files,
/// in the pool's order; `None` when the files do not decode or do not make a pool.
pub uninterp spec fn pool_message_names_of(encoded: Seq<Seq<u8>>) -> Option<Seq<Seq<char>>>;

/// Decodes the files with prost, adds them to a fresh prost-reflect `DescriptorPool`
/// (`add_file_descriptor_protos`) and lists the full names of its messages
/// (`all_messages`).
#[verifier::external_body]
fn pool_message_names(files: &Vec<FileDescriptor>) -> (r: Option<Vec<String>>)
    ensures
        match r {
            Some(v) => pool_message_names_of(encoded_files(files@)) == Some(views(v@)),
            None => pool_message_names_of(encoded_files(files@)) is None,
        },
{
    let protos: Result<Vec<_>, _> = files.iter().map(
        |f| prost_reflect::prost_types::FileDescriptorProto::decode(f.encoded.as_slice()),
    ).collect();
    let mut pool = prost_reflect::DescriptorPool::new();
    match protos.map(|p| pool.add_file_descriptor_protos(p)) {
        Ok(Ok(())) => Some(pool.all_messages().map(|m| m.full_name().to_string()).collect()),
        _ => None,
    }
}

/// The method names of the named service in a descriptor pool made of the encoded
/// files: `None` when the files do not make a pool, `Some(None)` when the pool has
/// no such service.
pub uninterp spec fn pool_service_methods_of(encoded: Seq<Seq<u8>>, service: Seq<char>) -> Option<
    Option<Seq<Seq<char>>>,
>;

/// The field names of the named message in a descriptor pool made of the encoded
/// files: `None` when the files do not make a pool, `Some(None)` when the pool has
/// no such message.
pub uninterp spec fn pool_message_fields_of(encoded: Seq<Seq<u8>>, message: Seq<char>) -> Option<
    Option<Seq<Seq<char>>>,
>;

/// The views of what a pool query gives.
pub open spec fn query_view(r: Option<Option<Vec<String>>>) -> Option<Option<Seq<Seq<char>>>> {
    match r {
        Some(Some(v)) => Some(Some(views(v@))),
        Some(None) => Some(None),
        None => None,
    }
}

/// Builds a prost-reflect `DescriptorPool` of the decoded files
/// (`add_file_descriptor_protos`) and lists the method names of the named service
/// (`get_service_by_name`, `methods`).
#[verifier::external_body]
fn pool_service_methods(files: &Vec<FileDescriptor>, service: &str) -> (r: Option<Option<Vec<String>>>)
    ensures
        query_view(r) == pool_service_methods_of(encoded_files(files@), service@),
{
    let protos: Result<Vec<_>, _> = files.iter().map(
        |f| prost_reflect::prost_types::FileDescriptorProto::decode(f.encoded.as_slice()),
    ).collect();
    let mut pool = prost_reflect::DescriptorPool::new();
    match protos.map(|p| pool.add_file_descriptor_protos(p)) {
        Ok(Ok(())) => Some(pool.get_service_by_name(service).map(|s| s.methods().map(|m| m.name().to_string()).collect())),
        _ => None,
    }
}

/// Builds a prost-reflect `DescriptorPool` of the decoded files
/// (`add_file_descriptor_protos`) and lists the field names of the named message
/// (`get_message_by_name`, `fields`).
#[verifier::external_body]
fn pool_message_fields(files: &Vec<FileDescriptor>, message: &str) -> (r: Option<Option<Vec<String>>>)
    ensures
        query_view(r) == pool_message_fields_of(encoded_files(files@), message@),
{
    let protos: Result<Vec<_>, _> = files.iter().map(
        |f| prost_reflect::prost_types::FileDescriptorProto::decode(f.encoded.as_slice()),
    ).collect();
    let mut pool = prost_reflect::DescriptorPool::new();
    match protos.map(|p| pool.add_file_descriptor_protos(p)) {
        Ok(Ok(())) => Some(pool.get_message_by_name(message).map(|m| m.fields().map(|f| f.name().to_string()).collect())),
        _ => None,
    }
}

/// Why a query of the collected descriptors failed.
#[derive(Debug, Clone, Copy, PartialEq, Eq, Structural)]
pub enum PoolQueryError {
    /// The collected descriptors do not make a descriptor pool.
    PoolInvalid,
    /// The pool has no service or message of that name.
    NotFound,
}

/// Why a reflection exchange failed.
#[derive(Debug)]
pub enum ReflectionError {
    /// A file descriptor in a reply did not decode.
    DecodeFailed,
    /// The reply was not of the kind the request asks for.
    UnexpectedResponse,
    /// The server answered a request for a file with an error.
    ServerError { file: String, message: String, code: i32 },
    /// The server sent nothing for a request for a file.
    NoResponse { file: String },
    /// The reply to a request for the list of services held no list.
    ServiceListUnavailable,
}

/// One reply of the reflection service, as far as resolution reads it.
#[derive(Debug)]
pub enum ReflectionReply {
    /// Encoded file descriptors.
    FileDescriptors(Vec<Vec<u8>>),
    /// The names of the services.
    Services(Vec<String>),
    /// An error, with its message and code.
    Error { message: String, code: i32 },
    /// Any other kind of reply.
    Other,
}

/// A copy of a byte vector.
fn copy_bytes(v: &Vec<u8>) -> (r: Vec<u8>)
    ensures
        r@ == v@,
{
    let mut out: Vec<u8> = Vec::new();
    let mut i: usize = 0;
    while i < v.len()
        invariant
            i <= v.len(),
            out@ == v@.take(i as int),
        decreases v.len() - i,
    {
        out.push(v[i]);
        assert(v@.take(i + 1) == v@.take(i as int).push(v@[i as int]));
        i += 1;
    }
    assert(v@.take(v@.len() as int) == v@);
    out
}

/// A copy of a list of strings.
fn copy_strings(v: &Vec<String>) -> (r: Vec<String>)
    ensures
        views(r@) == views(v@),
{
    let mut out: Vec<String> = Vec::new();
    let mut i: usize = 0;
    while i < v.len()
        invariant
            i <= v.len(),
            views(out@) == views(v@.take(i as int)),
        decreases v.len() - i,
    {
        let ghost before = out@;
        out.push(v[i].clone());
        assert(views(out@) =~= views(before).push(v@[i as int]@));
        assert(views(v@.take(i + 1)) =~= views(v@.take(i as int)).push(v@[i as int]@));
        i += 1;
    }
    assert(v@.take(v@.len() as int) == v@);
    out
}

/// Whether one of the strings equals `s`.
pub fn contains_string(v: &Vec<String>, s: &str) -> (r: bool)
    ensures
        r == views(v@).contains(s@),
{
    let mut i: usize = 0;
    while i < v.len()
        invariant
            i <= v.len(),
            forall|j: int| 0 <= j < i ==> v@[j]@ != s@,
        decreases v.len() - i,
    {
        if crate::text::str_eq(v[i].as_str(), s) {
            assert(views(v@)[i as int] == s@);
            return true;
        }
        i += 1;
    }
    assert(!views(v@).contains(s@)) by {
        if views(v@).contains(s@) {
            let k = choose|k: int| 0 <= k < views(v@).len() && views(v@)[k] == s@;
            assert(v@[k]@ == s@);
        }
    }
    false
}

/// The list with `x` added when it is not there yet.
pub open spec fn set_insert(s: Seq<Seq<char>>, x: Seq<char>) -> Seq<Seq<char>> {
    if s.contains(x) {
        s
    } else {
        s.push(x)
    }
}

/// Adds `s` to the list when it is not there yet.
fn insert_string(v: &mut Vec<String>, s: &str)
    ensures
        views(final(v)@) == set_insert(views(old(v)@), s@),
{
    if !contains_string(v, s) {
        v.push(crate::text::owned(s));
        assert(views(v@) =~= views(old(v)@).push(s@));
    }
}

impl FileDescriptor {
    /// Decodes a file descriptor from the bytes the server sent.
    pub fn decode(bytes: Vec<u8>) -> (r: Result<FileDescriptor, ReflectionError>)
        ensures
            match r {
                Ok(f) => decoded_file(bytes@) == Some(f@),
                Err(e) => decoded_file(bytes@) is None && e is DecodeFailed,
            },
    {
        match decode_file_header(bytes.as_slice()) {
            Some((name, dependency)) => Ok(FileDescriptor { name, dependency, encoded: bytes }),
            None => Err(ReflectionError::DecodeFailed),
        }
    }

    /// A copy with the same content.
    pub fn copy(&self) -> (r: FileDescriptor)
        ensures
            r@ == self@,
    {
        let name = match &self.name {
            Some(n) => Some(n.clone()),
            None => None,
        };
        FileDescriptor { name, dependency: copy_strings(&self.dependency), encoded: copy_bytes(&self.encoded) }
    }
}

/// Decodes every file descriptor of a reply, in order.
pub open spec fn decode_all(s: Seq<Seq<u8>>) -> Option<Seq<FileView>>
    decreases s.len(),
{
    if s.len() == 0 {
        Some(Seq::empty())
    } else {
        match (decode_all(s.drop_last()), decoded_file(s.last())) {
            (Some(fs), Some(f)) => Some(fs.push(f)),
            _ => None,
        }
    }
}

/// Decodes all descriptors; fails when one of them does not decode.
pub fn decode_files(blobs: Vec<Vec<u8>>) -> (r: Result<Vec<FileDescriptor>, ReflectionError>)
    ensures
        match r {
            Ok(fs) => decode_all(blobs@.map_values(|b: Vec<u8>| b@)) == Some(file_views(fs@)),
            Err(e) => decode_all(blobs@.map_values(|b: Vec<u8>| b@)) is None && e is DecodeFailed,
        },
{
    let ghost bs = blobs@.map_values(|b: Vec<u8>| b@);
    let mut out: Vec<FileDescriptor> = Vec::new();
    let mut i: usize = 0;
    let n = blobs.len();
    while i < n
        invariant
            n == bs.len(),
            n == blobs@.len(),
            bs == blobs@.map_values(|b: Vec<u8>| b@),
            i <= n,
            out@.len() == i,
            decode_all(bs.take(i as int)) == Some(file_views(out@)),
        decreases n - i,
    {
        let b = copy_bytes(&blobs[i]);
        proof {
            assert(bs.take(i + 1).drop_last() =~= bs.take(i as int));
            assert(bs.take(i + 1).last() == bs[i as int]);
        }
        match FileDescriptor::decode(b) {
            Ok(f) => {
                let ghost before = out@;
                out.push(f);
                assert(file_views(out@) =~= file_views(before).push(out@.last()@));
            },
            Err(e) => {
                proof {
                    lemma_decode_all_prefix_none(bs, i as int + 1);
                }
                return Err(e);
            },
        }
        i += 1;
    }
    assert(bs.take(n as int) =~= bs);
    Ok(out)
}

/// When a prefix fails to decode, so does the whole.
proof fn lemma_decode_all_prefix_none(s: Seq<Seq<u8>>, k: int)
    requires
        0 <= k <= s.len(),
        decode_all(s.take(k)) is None,
    ensures
        decode_all(s) is None,
    decreases s.len() - k,
{
    if k < s.len() {
        assert(s.take(k + 1).drop_last() =~= s.take(k));
        lemma_decode_all_prefix_none(s, k + 1);
    } else {
        assert(s.take(k) =~= s);
    }
}


/// Whether one of the descriptors is named `n`.
pub open spec fn has_file(s: Seq<FileView>, n: Seq<char>) -> bool {
    exists|i: int| 0 <= i < s.len() && s[i].name == Some(n)
}

/// The dependencies that are not processed yet, in order.
pub open spec fn missing(deps: Seq<Seq<char>>, processed: Seq<Seq<char>>) -> Seq<Seq<char>>
    decreases deps.len(),
{
    if deps.len() == 0 {
        Seq::empty()
    } else {
        missing(deps.drop_last(), processed) + if processed.contains(deps.last()) {
            Seq::empty()
        } else {
            seq![deps.last()]
        }
    }
}

/// The next round after adding the dependencies that are neither processed nor
/// already in the round.
pub open spec fn add_new(next: Seq<Seq<char>>, processed: Seq<Seq<char>>, deps: Seq<Seq<char>>) -> Seq<Seq<char>>
    decreases deps.len(),
{
    if deps.len() == 0 {
        next
    } else {
        let n = add_new(next, processed, deps.drop_last());
        if processed.contains(deps.last()) || n.contains(deps.last()) {
            n
        } else {
            n.push(deps.last())
        }
    }
}

/// The collected descriptors and processed file names after taking over the cached
/// descriptors whose names are not processed yet.
pub open spec fn absorb_cached(
    files: Seq<FileView>,
    processed: Seq<Seq<char>>,
    cached: Seq<FileView>,
) -> (Seq<FileView>, Seq<Seq<char>>)
    decreases cached.len(),
{
    if cached.len() == 0 {
        (files, processed)
    } else {
        let (f, p) = absorb_cached(files, processed, cached.drop_last());
        let c = cached.last();
        match c.name {
            Some(n) => if p.contains(n) {
                (f, p)
            } else {
                (f.push(c), p.push(n))
            },
            None => (f, p),
        }
    }
}

/// The collected descriptors, processed file names and new dependencies after the
/// descriptors of a symbol reply: a named descriptor already processed is skipped;
/// another is kept, its name processed and its unprocessed dependencies noted.
pub open spec fn absorb_symbol_files(
    files: Seq<FileView>,
    processed: Seq<Seq<char>>,
    deps: Seq<Seq<char>>,
    incoming: Seq<FileView>,
) -> (Seq<FileView>, Seq<Seq<char>>, Seq<Seq<char>>)
    decreases incoming.len(),
{
    if incoming.len() == 0 {
        (files, processed, deps)
    } else {
        let (f, p, d) = absorb_symbol_files(files, processed, deps, incoming.drop_last());
        let c = incoming.last();
        match c.name {
            Some(n) => if p.contains(n) {
                (f, p, d)
            } else {
                let p2 = p.push(n);
                (f.push(c), p2, d + missing(c.dependency, p2))
            },
            None => (f.push(c), p, d),
        }
    }
}

/// The collected descriptors and next round after the descriptors fetched for one
/// dependency: every descriptor is kept and its new dependencies join the round.
pub open spec fn absorb_dependency_files(
    files: Seq<FileView>,
    next: Seq<Seq<char>>,
    processed: Seq<Seq<char>>,
    incoming: Seq<FileView>,
) -> (Seq<FileView>, Seq<Seq<char>>)
    decreases incoming.len(),
{
    if incoming.len() == 0 {
        (files, next)
    } else {
        let (f, n) = absorb_dependency_files(files, next, processed, incoming.drop_last());
        (f.push(incoming.last()), add_new(n, processed, incoming.last().dependency))
    }
}

/// The cached descriptors after offering new ones: a named descriptor whose name is
/// not cached yet is added.
pub open spec fn cache_add_files(cached: Seq<FileView>, incoming: Seq<FileView>) -> Seq<FileView>
    decreases incoming.len(),
{
    if incoming.len() == 0 {
        cached
    } else {
        let c = cache_add_files(cached, incoming.drop_last());
        match incoming.last().name {
            Some(n) => if has_file(c, n) {
                c
            } else {
                c.push(incoming.last())
            },
            None => c,
        }
    }
}

/// The cache's descriptors are all named, under distinct names.
pub open spec fn cache_files_wf(s: Seq<FileView>) -> bool {
    &&& forall|i: int| 0 <= i < s.len() ==> (#[trigger] s[i]).name is Some
    &&& forall|i: int, j: int|
        0 <= i < s.len() && 0 <= j < s.len() && i != j ==> (#[trigger] s[i]).name != (#[trigger] s[j]).name
}

/// Whether a file with this name is among the descriptors.
fn has_file_named(files: &Vec<FileDescriptor>, name: &str) -> (r: bool)
    ensures
        r == has_file(file_views(files@), name@),
{
    let mut i: usize = 0;
    while i < files.len()
        invariant
            i <= files.len(),
            forall|j: int| 0 <= j < i ==> files@[j]@.name != Some(name@),
        decreases files.len() - i,
    {
        match &files[i].name {
            Some(n) => {
                if crate::text::str_eq(n.as_str(), name) {
                    assert(file_views(files@)[i as int].name == Some(name@));
                    return true;
                }
            },
            None => {},
        }
        i += 1;
    }
    assert(!has_file(file_views(files@), name@)) by {
        if has_file(file_views(files@), name@) {
            let k = choose|k: int| 0 <= k < file_views(files@).len() && file_views(files@)[k].name == Some(name@);
            assert(files@[k]@.name == Some(name@));
        }
    }
    false
}

/// Adds the named descriptors whose names are not among the cached ones yet.
fn add_files(cached: &mut Vec<FileDescriptor>, files: &Vec<FileDescriptor>)
    requires
        cache_files_wf(file_views(old(cached)@)),
    ensures
        cache_files_wf(file_views(final(cached)@)),
        file_views(final(cached)@) == cache_add_files(file_views(old(cached)@), file_views(files@)),
{
    let mut i: usize = 0;
    while i < files.len()
        invariant
            i <= files.len(),
            cache_files_wf(file_views(cached@)),
            file_views(cached@) == cache_add_files(file_views(old(cached)@), file_views(files@).take(i as int)),
        decreases files.len() - i,
    {
        proof {
            assert(file_views(files@).take(i + 1).drop_last() =~= file_views(files@).take(i as int));
            assert(file_views(files@).take(i + 1).last() == files@[i as int]@);
        }
        match &files[i].name {
            Some(n) => {
                if !has_file_named(cached, n.as_str()) {
                    let c = files[i].copy();
                    let ghost before = file_views(cached@);
                    cached.push(c);
                    proof {
                        assert(file_views(cached@) =~= before.push(files@[i as int]@));
                        let s = file_views(cached@);
                        assert forall|a: int, b: int|
                            0 <= a < s.len() && 0 <= b < s.len() && a != b implies (#[trigger] s[a]).name
                            != (#[trigger] s[b]).name by {
                            if a == s.len() - 1 && b < s.len() - 1 {
                                assert(before[b].name != Some(n@));
                            }
                            if b == s.len() - 1 && a < s.len() - 1 {
                                assert(before[a].name != Some(n@));
                            }
                        }
                    }
                }
            },
            None => {},
        }
        i += 1;
    }
    assert(file_views(files@).take(files@.len() as int) =~= file_views(files@));
}

/// The descriptor cache shared by all resolutions of one client: the symbols whose
/// files were resolved, and the descriptors fetched so far, by file name. Its
/// descriptors are always named, under distinct names.
#[derive(Debug)]
pub struct DescriptorCache {
    processed_symbols: Vec<String>,
    file_descriptors: Vec<FileDescriptor>,
}

impl DescriptorCache {
    /// The symbols resolved so far.
    pub closed spec fn symbols(&self) -> Seq<Seq<char>> {
        views(self.processed_symbols@)
    }

    /// The cached descriptors, in the order they were cached.
    pub closed spec fn files(&self) -> Seq<FileView> {
        file_views(self.file_descriptors@)
    }

    /// The cache is well formed: its descriptors are named, under distinct names.
    pub open spec fn wf(&self) -> bool {
        cache_files_wf(self.files())
    }

    /// Every cache is well formed.
    #[verifier::type_invariant]
    spec fn inv(&self) -> bool {
        self.wf()
    }

    /// An empty cache.
    pub fn new() -> (r: Self)
        ensures
            r.wf(),
            r.symbols().len() == 0,
            r.files().len() == 0,
    {
        DescriptorCache { processed_symbols: Vec::new(), file_descriptors: Vec::new() }
    }

    /// Whether the symbol has been resolved before.
    pub fn has_symbol(&self, symbol: &str) -> (r: bool)
        ensures
            r == self.symbols().contains(symbol@),
    {
        contains_string(&self.processed_symbols, symbol)
    }

    /// The names of the cached files, in order.
    pub fn processed_files(&self) -> (r: Vec<String>)
        ensures
            self.wf(),
            r@.len() == self.files().len(),
            forall|i: int| 0 <= i < r@.len() ==> Some(#[trigger] r@[i]@) == self.files()[i].name,
    {
        proof {
            use_type_invariant(self);
        }
        let mut out: Vec<String> = Vec::new();
        let mut i: usize = 0;
        while i < self.file_descriptors.len()
            invariant
                self.wf(),
                i <= self.file_descriptors.len(),
                out@.len() == i,
                forall|j: int| 0 <= j < i ==> Some(#[trigger] out@[j]@) == self.file_descriptors@[j]@.name,
            decreases self.file_descriptors.len() - i,
        {
            assert(file_views(self.file_descriptors@)[i as int].name is Some);
            let n = match &self.file_descriptors[i].name {
                Some(n) => n.clone(),
                None => String::new(),
            };
            out.push(n);
            i += 1;
        }
        out
    }

    /// A copy of the cached descriptor of the named file.
    pub fn cached_file(&self, name: &str) -> (r: Option<FileDescriptor>)
        ensures
            match r {
                Some(f) => f@.name == Some(name@) && exists|i: int|
                    0 <= i < self.files().len() && #[trigger] self.files()[i] == f@,
                None => !has_file(self.files(), name@),
            },
    {
        let mut i: usize = 0;
        while i < self.file_descriptors.len()
            invariant
                i <= self.file_descriptors.len(),
                forall|j: int| 0 <= j < i ==> self.file_descriptors@[j]@.name != Some(name@),
            decreases self.file_descriptors.len() - i,
        {
            match &self.file_descriptors[i].name {
                Some(n) => {
                    if crate::text::str_eq(n.as_str(), name) {
                        let f = self.file_descriptors[i].copy();
                        assert(self.files()[i as int] == f@);
                        return Some(f);
                    }
                },
                None => {},
            }
            i += 1;
        }
        assert(!has_file(self.files(), name@)) by {
            if has_file(self.files(), name@) {
                let k = choose|k: int| 0 <= k < self.files().len() && self.files()[k].name == Some(name@);
                assert(self.file_descriptors@[k]@.name == Some(name@));
            }
        }
        None
    }

    /// Caches the named descriptors whose names are not cached yet.
    pub fn record_files(&mut self, files: &Vec<FileDescriptor>)
        ensures
            final(self).wf(),
            final(self).files() == cache_add_files(old(self).files(), file_views(files@)),
            final(self).symbols() == old(self).symbols(),
    {
        proof {
            use_type_invariant(&*self);
        }
        let mut cached: Vec<FileDescriptor> = Vec::new();
        std::mem::swap(&mut cached, &mut self.file_descriptors);
        add_files(&mut cached, files);
        self.file_descriptors = cached;
    }

    /// Records that a symbol was resolved, and caches the descriptors collected for it.
    pub fn record_symbol(&mut self, symbol: &str, files: &Vec<FileDescriptor>)
        ensures
            final(self).wf(),
            final(self).symbols() == set_insert(old(self).symbols(), symbol@),
            final(self).files() == cache_add_files(old(self).files(), file_views(files@)),
    {
        proof {
            use_type_invariant(&*self);
        }
        let mut symbols: Vec<String> = Vec::new();
        std::mem::swap(&mut symbols, &mut self.processed_symbols);
        insert_string(&mut symbols, symbol);
        self.processed_symbols = symbols;
        self.record_files(files);
    }
}

/// How the resolution of one symbol begins.
#[derive(Debug, Clone, Copy, PartialEq, Eq, Structural)]
pub enum SymbolStart {
    /// The symbol was already processed in this resolution: nothing to do.
    AlreadyProcessed,
    /// The symbol was resolved before: the cached descriptors were taken over.
    CacheHit,
    /// The symbol is marked processed; the file containing it is to be fetched.
    Fetch,
}

/// What one resolution has collected: the descriptors, and the symbols and file
/// names it has processed.
#[derive(Debug)]
pub struct ResolveState {
    pub file_descriptors: Vec<FileDescriptor>,
    pub processed_symbols: Vec<String>,
    pub processed_files: Vec<String>,
}

impl ResolveState {
    /// A resolution that has collected nothing.
    pub fn new() -> (r: Self)
        ensures
            r.file_descriptors@.len() == 0,
            r.processed_symbols@.len() == 0,
            r.processed_files@.len() == 0,
    {
        ResolveState { file_descriptors: Vec::new(), processed_symbols: Vec::new(), processed_files: Vec::new() }
    }

    /// Begins the resolution of a symbol: a symbol processed here is skipped; a
    /// symbol in the cache takes over the cached descriptors whose files are not
    /// processed yet; any other symbol is marked processed and must be fetched.
    pub fn begin_symbol(&mut self, cache: &DescriptorCache, symbol: &str) -> (r: SymbolStart)
        ensures
            views(old(self).processed_symbols@).contains(symbol@) ==> r == SymbolStart::AlreadyProcessed
                && final(self).file_descriptors@ == old(self).file_descriptors@
                && final(self).processed_symbols@ == old(self).processed_symbols@
                && final(self).processed_files@ == old(self).processed_files@,
            !views(old(self).processed_symbols@).contains(symbol@) && cache.symbols().contains(
                symbol@,
            ) ==> r == SymbolStart::CacheHit && (file_views(final(self).file_descriptors@), views(
                final(self).processed_files@,
            )) == absorb_cached(
                file_views(old(self).file_descriptors@),
                views(old(self).processed_files@),
                cache.files(),
            ) && final(self).processed_symbols@ == old(self).processed_symbols@,
            !views(old(self).processed_symbols@).contains(symbol@) && !cache.symbols().contains(
                symbol@,
            ) ==> r == SymbolStart::Fetch && views(final(self).processed_symbols@) == views(
                old(self).processed_symbols@,
            ).push(symbol@) && final(self).file_descriptors@ == old(self).file_descriptors@
                && final(self).processed_files@ == old(self).processed_files@,
    {
        if contains_string(&self.processed_symbols, symbol) {
            return SymbolStart::AlreadyProcessed;
        }
        if cache.has_symbol(symbol) {
            let mut i: usize = 0;
            while i < cache.file_descriptors.len()
                invariant
                    i <= cache.file_descriptors.len(),
                    self.processed_symbols@ == old(self).processed_symbols@,
                    (file_views(self.file_descriptors@), views(self.processed_files@)) == absorb_cached(
                        file_views(old(self).file_descriptors@),
                        views(old(self).processed_files@),
                        cache.files().take(i as int),
                    ),
                decreases cache.file_descriptors.len() - i,
            {
                proof {
                    assert(cache.files().take(i + 1).drop_last() =~= file_views(
                        cache.file_descriptors@,
                    ).take(i as int));
                    assert(cache.files().take(i + 1).last()
                        == cache.file_descriptors@[i as int]@);
                }
                match &cache.file_descriptors[i].name {
                    Some(n) => {
                        if !contains_string(&self.processed_files, n.as_str()) {
                            let ghost fb = file_views(self.file_descriptors@);
                            let ghost pb = views(self.processed_files@);
                            self.file_descriptors.push(cache.file_descriptors[i].copy());
                            self.processed_files.push(n.clone());
                            assert(file_views(self.file_descriptors@) =~= fb.push(cache.file_descriptors@[i as int]@));
                            assert(views(self.processed_files@) =~= pb.push(n@));
                        }
                    },
                    None => {},
                }
                i += 1;
            }
            assert(cache.files().take(cache.file_descriptors@.len() as int) =~= file_views(
                cache.file_descriptors@,
            ));
            return SymbolStart::CacheHit;
        }
        let ghost sb = views(self.processed_symbols@);
        self.processed_symbols.push(crate::text::owned(symbol));
        assert(views(self.processed_symbols@) =~= sb.push(symbol@));
        SymbolStart::Fetch
    }

    /// Takes in the descriptors of the file that contains a symbol, and returns the
    /// dependencies still to be fetched.
    pub fn absorb_symbol_files(&mut self, files: Vec<FileDescriptor>) -> (r: Vec<String>)
        ensures
            (file_views(final(self).file_descriptors@), views(final(self).processed_files@), views(r@))
                == absorb_symbol_files(
                file_views(old(self).file_descriptors@),
                views(old(self).processed_files@),
                Seq::empty(),
                file_views(files@),
            ),
            final(self).processed_symbols@ == old(self).processed_symbols@,
    {
        let mut deps: Vec<String> = Vec::new();
        let mut i: usize = 0;
        while i < files.len()
            invariant
                i <= files.len(),
                self.processed_symbols@ == old(self).processed_symbols@,
                (file_views(self.file_descriptors@), views(self.processed_files@), views(deps@))
                    == absorb_symbol_files(
                    file_views(old(self).file_descriptors@),
                    views(old(self).processed_files@),
                    Seq::empty(),
                    file_views(files@).take(i as int),
                ),
            decreases files.len() - i,
        {
            proof {
                assert(file_views(files@).take(i + 1).drop_last() =~= file_views(files@).take(i as int));
                assert(file_views(files@).take(i + 1).last() == files@[i as int]@);
            }
            let f = &files[i];
            match &f.name {
                Some(n) => {
                    if !contains_string(&self.processed_files, n.as_str()) {
                        let ghost pb = views(self.processed_files@);
                        self.processed_files.push(n.clone());
                        assert(views(self.processed_files@) =~= pb.push(n@));
                        let ghost db = views(deps@);
                        self.note_missing(&f.dependency, &mut deps);
                        let ghost fb = file_views(self.file_descriptors@);
                        self.file_descriptors.push(f.copy());
                        assert(file_views(self.file_descriptors@) =~= fb.push(files@[i as int]@));
                    }
                },
                None => {
                    let ghost fb = file_views(self.file_descriptors@);
                    self.file_descriptors.push(f.copy());
                    assert(file_views(self.file_descriptors@) =~= fb.push(files@[i as int]@));
                },
            }
            i += 1;
        }
        assert(file_views(files@).take(files@.len() as int) =~= file_views(files@));
        deps
    }

    /// Appends the dependencies whose files are not processed yet.
    fn note_missing(&self, dependency: &Vec<String>, deps: &mut Vec<String>)
        ensures
            views(final(deps)@) == views(old(deps)@) + missing(views(dependency@), views(self.processed_files@)),
    {
        let mut j: usize = 0;
        while j < dependency.len()
            invariant
                j <= dependency.len(),
                views(deps@) == views(old(deps)@) + missing(
                    views(dependency@).take(j as int),
                    views(self.processed_files@),
                ),
            decreases dependency.len() - j,
        {
            proof {
                assert(views(dependency@).take(j + 1).drop_last() =~= views(dependency@).take(j as int));
                assert(views(dependency@).take(j + 1).last() == dependency@[j as int]@);
            }
            let ghost db = views(deps@);
            if !contains_string(&self.processed_files, dependency[j].as_str()) {
                deps.push(dependency[j].clone());
                assert(views(deps@) =~= db.push(dependency@[j as int]@));
            }
            assert(views(deps@) =~= views(old(deps)@) + missing(
                views(dependency@).take(j + 1),
                views(self.processed_files@),
            ));
            j += 1;
        }
        assert(views(dependency@).take(dependency@.len() as int) =~= views(dependency@));
    }

    /// Whether the file of a dependency still has to be fetched.
    pub fn needs_fetch(&self, dependency: &str) -> (r: bool)
        ensures
            r == !views(self.processed_files@).contains(dependency@),
    {
        !contains_string(&self.processed_files, dependency)
    }

    /// Takes in the descriptors fetched for a dependency: the dependency's file is
    /// processed, every descriptor is kept, and their dependencies that are neither
    /// processed nor in the next round join it.
    pub fn absorb_dependency(&mut self, dependency: &str, files: Vec<FileDescriptor>, next_round: &mut Vec<String>)
        ensures
            views(final(self).processed_files@) == set_insert(views(old(self).processed_files@), dependency@),
            (file_views(final(self).file_descriptors@), views(final(next_round)@)) == absorb_dependency_files(
                file_views(old(self).file_descriptors@),
                views(old(next_round)@),
                views(final(self).processed_files@),
                file_views(files@),
            ),
            final(self).processed_symbols@ == old(self).processed_symbols@,
    {
        insert_string(&mut self.processed_files, dependency);
        let ghost next0 = views(next_round@);
        let ghost files0 = file_views(self.file_descriptors@);
        let mut i: usize = 0;
        while i < files.len()
            invariant
                i <= files.len(),
                self.processed_symbols@ == old(self).processed_symbols@,
                views(self.processed_files@) == set_insert(views(old(self).processed_files@), dependency@),
                (file_views(self.file_descriptors@), views(next_round@)) == absorb_dependency_files(
                    files0,
                    next0,
                    views(self.processed_files@),
                    file_views(files@).take(i as int),
                ),
            decreases files.len() - i,
        {
            proof {
                assert(file_views(files@).take(i + 1).drop_last() =~= file_views(files@).take(i as int));
                assert(file_views(files@).take(i + 1).last() == files@[i as int]@);
            }
            let ghost fb = file_views(self.file_descriptors@);
            self.file_descriptors.push(files[i].copy());
            assert(file_views(self.file_descriptors@) =~= fb.push(files@[i as int]@));
            self.add_new_dependencies(&files[i].dependency, next_round);
            i += 1;
        }
        assert(file_views(files@).take(files@.len() as int) =~= file_views(files@));
    }

    /// Adds to the next round the dependencies that are neither processed nor in it.
    fn add_new_dependencies(&self, dependency: &Vec<String>, next_round: &mut Vec<String>)
        ensures
            views(final(next_round)@) == add_new(
                views(old(next_round)@),
                views(self.processed_files@),
                views(dependency@),
            ),
    {
        let mut j: usize = 0;
        while j < dependency.len()
            invariant
                j <= dependency.len(),
                views(next_round@) == add_new(
                    views(old(next_round)@),
                    views(self.processed_files@),
                    views(dependency@).take(j as int),
                ),
            decreases dependency.len() - j,
        {
            proof {
                assert(views(dependency@).take(j + 1).drop_last() =~= views(dependency@).take(j as int));
                assert(views(dependency@).take(j + 1).last() == dependency@[j as int]@);
            }
            let d = dependency[j].as_str();
            if !contains_string(&self.processed_files, d) && !contains_string(next_round, d) {
                let ghost nb = views(next_round@);
                next_round.push(dependency[j].clone());
                assert(views(next_round@) =~= nb.push(dependency@[j as int]@));
            }
            j += 1;
        }
        assert(views(dependency@).take(dependency@.len() as int) =~= views(dependency@));
    }

    /// The method names of the named service among the collected descriptors.
    pub fn service_methods(&self, service: &str) -> (r: Result<Vec<String>, PoolQueryError>)
        ensures
            match pool_service_methods_of(encoded_files(self.file_descriptors@), service@) {
                Some(Some(names)) => r matches Ok(v) && views(v@) == names,
                Some(None) => r == Err::<Vec<String>, PoolQueryError>(PoolQueryError::NotFound),
                None => r == Err::<Vec<String>, PoolQueryError>(PoolQueryError::PoolInvalid),
            },
    {
        match pool_service_methods(&self.file_descriptors, service) {
            Some(Some(v)) => Ok(v),
            Some(None) => Err(PoolQueryError::NotFound),
            None => Err(PoolQueryError::PoolInvalid),
        }
    }

    /// The field names of the named message among the collected descriptors.
    pub fn message_field_names(&self, message: &str) -> (r: Result<Vec<String>, PoolQueryError>)
        ensures
            match pool_message_fields_of(encoded_files(self.file_descriptors@), message@) {
                Some(Some(names)) => r matches Ok(v) && views(v@) == names,
                Some(None) => r == Err::<Vec<String>, PoolQueryError>(PoolQueryError::NotFound),
                None => r == Err::<Vec<String>, PoolQueryError>(PoolQueryError::PoolInvalid),
            },
    {
        match pool_message_fields(&self.file_descriptors, message) {
            Some(Some(v)) => Ok(v),
            Some(None) => Err(PoolQueryError::NotFound),
            None => Err(PoolQueryError::PoolInvalid),
        }
    }

    /// The messages of the collected descriptors that are not processed symbols yet,
    /// in the pool's order: none while the descriptors do not make a pool.
    pub fn extract_additional_symbols(&self) -> (r: Vec<String>)
        ensures
            match pool_message_names_of(encoded_files(self.file_descriptors@)) {
                Some(names) => views(r@) == names.filter(|m: Seq<char>| !views(self.processed_symbols@).contains(m)),
                None => r@.len() == 0,
            },
    {
        match pool_message_names(&self.file_descriptors) {
            Some(names) => self.unseen_symbols(&names),
            None => Vec::new(),
        }
    }

    /// The message names that are not processed symbols yet, in order.
    pub fn unseen_symbols(&self, message_names: &Vec<String>) -> (r: Vec<String>)
        ensures
            views(r@) == views(message_names@).filter(|m: Seq<char>| !views(self.processed_symbols@).contains(m)),
    {
        let ghost keep = |m: Seq<char>| !views(self.processed_symbols@).contains(m);
        let mut out: Vec<String> = Vec::new();
        let mut i: usize = 0;
        while i < message_names.len()
            invariant
                i <= message_names.len(),
                keep == (|m: Seq<char>| !views(self.processed_symbols@).contains(m)),
                views(out@) == views(message_names@).take(i as int).filter(keep),
            decreases message_names.len() - i,
        {
            proof {
                reveal_with_fuel(Seq::<_>::filter, 1);
                assert(views(message_names@).take(i + 1).drop_last() =~= views(message_names@).take(i as int));
            }
            let ghost ob = views(out@);
            if !contains_string(&self.processed_symbols, message_names[i].as_str()) {
                out.push(message_names[i].clone());
                assert(views(out@) =~= ob.push(message_names@[i as int]@));
            }
            i += 1;
        }
        assert(views(message_names@).take(message_names@.len() as int) =~= views(message_names@));
        out
    }
}

/// Whether another round of dependency fetching is due: some dependency is pending
/// and fewer than [`MAX_DEPENDENCY_ROUNDS`] rounds were made.
pub fn should_continue_rounds(pending: &Vec<String>, rounds: usize) -> (r: bool)
    ensures
        r == (pending@.len() > 0 && rounds < MAX_DEPENDENCY_ROUNDS),
{
    pending.len() > 0 && rounds < MAX_DEPENDENCY_ROUNDS
}

/// The descriptors of the reply to a request for the file containing a symbol:
/// nothing when no reply came, an error when the reply holds no descriptors or one
/// of them does not decode.
pub fn symbol_reply_files(reply: Option<ReflectionReply>) -> (r: Result<Option<Vec<FileDescriptor>>, ReflectionError>)
    ensures
        match reply {
            None => r matches Ok(None),
            Some(ReflectionReply::FileDescriptors(blobs)) => match decode_all(
                blobs@.map_values(|b: Vec<u8>| b@),
            ) {
                Some(fs) => r matches Ok(Some(v)) && file_views(v@) == fs,
                None => r matches Err(ReflectionError::DecodeFailed),
            },
            Some(_) => r matches Err(ReflectionError::UnexpectedResponse),
        },
{
    match reply {
        None => Ok(None),
        Some(ReflectionReply::FileDescriptors(blobs)) => match decode_files(blobs) {
            Ok(fs) => Ok(Some(fs)),
            Err(e) => Err(e),
        },
        Some(_) => Err(ReflectionError::UnexpectedResponse),
    }
}

/// The descriptors of the reply to a request for a file by name: an error when no
/// reply came, when the server answered with an error, when the reply holds no
/// descriptors, or when one of them does not decode.
pub fn file_reply_files(file_name: &str, reply: Option<ReflectionReply>) -> (r: Result<Vec<FileDescriptor>, ReflectionError>)
    ensures
        match reply {
            None => r matches Err(ReflectionError::NoResponse { file }) && file@ == file_name@,
            Some(ReflectionReply::FileDescriptors(blobs)) => match decode_all(
                blobs@.map_values(|b: Vec<u8>| b@),
            ) {
                Some(fs) => r matches Ok(v) && file_views(v@) == fs,
                None => r matches Err(ReflectionError::DecodeFailed),
            },
            Some(ReflectionReply::Error { message, code }) => r matches Err(
                ReflectionError::ServerError { file, message: m, code: c },
            ) && file@ == file_name@ && m@ == message@ && c == code,
            Some(_) => r matches Err(ReflectionError::UnexpectedResponse),
        },
{
    match reply {
        None => Err(ReflectionError::NoResponse { file: crate::text::owned(file_name) }),
        Some(ReflectionReply::FileDescriptors(blobs)) => decode_files(blobs),
        Some(ReflectionReply::Error { message, code }) => Err(
            ReflectionError::ServerError { file: crate::text::owned(file_name), message, code },
        ),
        Some(_) => Err(ReflectionError::UnexpectedResponse),
    }
}

/// The service names of the reply to a request for the list of services.
pub fn service_names(reply: Option<ReflectionReply>) -> (r: Result<Vec<String>, ReflectionError>)
    ensures
        match reply {
            Some(ReflectionReply::Services(names)) => r matches Ok(v) && v == names,
            _ => r matches Err(ReflectionError::ServiceListUnavailable),
        },
{
    match reply {
        Some(ReflectionReply::Services(names)) => Ok(names),
        _ => Err(ReflectionError::ServiceListUnavailable),
    }
}


/// Whether the kind name mentions any of the words.
pub open spec fn mentions_any(kind: Seq<char>, words: Seq<Seq<char>>) -> bool {
    exists|i: int| 0 <= i < words.len() && contains_seq(kind, #[trigger] words[i])
}

/// The sample value of a message field in a template, chosen by the words its kind's
/// name mentions: `false` for booleans, `0` for 32-bit integers and enums, the
/// string `"0"` for 64-bit integers, `0.0` for floats, `"string"` for strings,
/// `"base64encoded"` for bytes, `{}` for messages, and `null` otherwise.
pub open spec fn template_default(kind: Seq<char>) -> JsonView {
    if contains_seq(kind, "Bool"@) {
        JsonView::Bool(false)
    } else if mentions_any(kind, seq!["Int32"@, "Sint32"@, "Sfixed32"@, "Fixed32"@, "Uint32"@]) {
        JsonView::Number(JsonNumber::PosInt(0))
    } else if mentions_any(kind, seq!["Int64"@, "Sint64"@, "Uint64"@, "Fixed64"@, "Sfixed64"@]) {
        JsonView::String("0"@)
    } else if contains_seq(kind, "Float"@) || contains_seq(kind, "Double"@) {
        JsonView::Number(JsonNumber::Float(0))
    } else if contains_seq(kind, "String"@) {
        JsonView::String("string"@)
    } else if contains_seq(kind, "Bytes"@) {
        JsonView::String("base64encoded"@)
    } else if contains_seq(kind, "Message"@) {
        JsonView::Object(Seq::empty())
    } else if contains_seq(kind, "Enum"@) {
        JsonView::Number(JsonNumber::PosInt(0))
    } else {
        JsonView::Null
    }
}

/// Whether the kind name mentions one of the five words.
fn mentions_one_of(kind: &str, a: &str, b: &str, c: &str, d: &str, e: &str) -> (r: bool)
    ensures
        r == mentions_any(kind@, seq![a@, b@, c@, d@, e@]),
{
    let r = crate::text::contains(kind, a) || crate::text::contains(kind, b) || crate::text::contains(kind, c)
        || crate::text::contains(kind, d) || crate::text::contains(kind, e);
    let ghost ws = seq![a@, b@, c@, d@, e@];
    proof {
    if r {
        if contains_seq(kind@, a@) {
            assert(contains_seq(kind@, ws[0]));
        } else if contains_seq(kind@, b@) {
            assert(contains_seq(kind@, ws[1]));
        } else if contains_seq(kind@, c@) {
            assert(contains_seq(kind@, ws[2]));
        } else if contains_seq(kind@, d@) {
            assert(contains_seq(kind@, ws[3]));
        } else {
            assert(contains_seq(kind@, ws[4]));
        }
    }
    }
    r
}

/// The sample value of a field whose kind has the given name.
pub fn template_default_value(kind: &str) -> (r: JsonValue)
    ensures
        r@ == template_default(kind@),
{
    let r = if crate::text::contains(kind, "Bool") {
        JsonValue::Bool(false)
    } else if mentions_one_of(kind, "Int32", "Sint32", "Sfixed32", "Fixed32", "Uint32") {
        JsonValue::Number(JsonNumber::PosInt(0))
    } else if mentions_one_of(kind, "Int64", "Sint64", "Uint64", "Fixed64", "Sfixed64") {
        JsonValue::String(crate::text::owned("0"))
    } else if crate::text::contains(kind, "Float") || crate::text::contains(kind, "Double") {
        JsonValue::Number(JsonNumber::Float(0))
    } else if crate::text::contains(kind, "String") {
        JsonValue::String(crate::text::owned("string"))
    } else if crate::text::contains(kind, "Bytes") {
        JsonValue::String(crate::text::owned("base64encoded"))
    } else if crate::text::contains(kind, "Message") {
        JsonValue::Object(Vec::new())
    } else if crate::text::contains(kind, "Enum") {
        JsonValue::Number(JsonNumber::PosInt(0))
    } else {
        JsonValue::Null
    };
    proof {
        if r is Object {
            assert(crate::json::json_members_view(Seq::<(String, JsonValue)>::empty()) =~= Seq::empty());
        }
    }
    r
}

/// The template entries after each field, in order, sets its JSON name to the sample
/// value of its kind; a later field with the same JSON name replaces an earlier one.
pub open spec fn template_entries(fields: Seq<(Seq<char>, Seq<char>)>) -> Seq<(Seq<char>, JsonView)>
    decreases fields.len(),
{
    if fields.len() == 0 {
        Seq::empty()
    } else {
        insert_entry(template_entries(fields.drop_last()), fields.last().1, template_default(fields.last().0))
    }
}

/// A sample JSON object for a message whose fields are given by their kind names
/// and JSON names, in order.
pub fn message_template(fields: &Vec<(String, String)>) -> (r: StringMap<JsonValue>)
    ensures
        r@ == template_entries(fields@.map_values(|f: (String, String)| (f.0@, f.1@))),
{
    let ghost fs = fields@.map_values(|f: (String, String)| (f.0@, f.1@));
    let mut template: StringMap<JsonValue> = StringMap::new();
    let mut i: usize = 0;
    while i < fields.len()
        invariant
            i <= fields.len(),
            fs == fields@.map_values(|f: (String, String)| (f.0@, f.1@)),
            template@ == template_entries(fs.take(i as int)),
        decreases fields.len() - i,
    {
        proof {
            assert(fs.take(i + 1).drop_last() =~= fs.take(i as int));
            assert(fs.take(i + 1).last() == (fields@[i as int].0@, fields@[i as int].1@));
        }
        let v = template_default_value(fields[i].0.as_str());
        template.insert(fields[i].1.clone(), v);
        i += 1;
    }
    assert(fs.take(fs.len() as int) =~= fs);
    template
}


/// Offering descriptors to the cache never drops or reorders what it held.
pub proof fn law_cache_only_grows(cached: Seq<FileView>, incoming: Seq<FileView>)
    ensures
        cache_add_files(cached, incoming).len() >= cached.len(),
        cache_add_files(cached, incoming).subrange(0, cached.len() as int) == cached,
    decreases incoming.len(),
{
    if incoming.len() > 0 {
        law_cache_only_grows(cached, incoming.drop_last());
        let c = cache_add_files(cached, incoming.drop_last());
        assert(c.push(incoming.last()).subrange(0, cached.len() as int) =~= c.subrange(0, cached.len() as int));
    }
}

proof fn lemma_wf_drop_last(s: Seq<FileView>)
    requires
        cache_files_wf(s),
        s.len() > 0,
    ensures
        cache_files_wf(s.drop_last()),
        !has_file(s.drop_last(), s.last().name->Some_0),
{
    let d = s.drop_last();
    assert forall|i: int| 0 <= i < d.len() implies (#[trigger] d[i]).name is Some by {
        assert(d[i] == s[i]);
    }
    assert forall|i: int, j: int| 0 <= i < d.len() && 0 <= j < d.len() && i != j implies (#[trigger] d[i]).name
        != (#[trigger] d[j]).name by {
        assert(d[i] == s[i]);
        assert(d[j] == s[j]);
    }
    if has_file(d, s.last().name->Some_0) {
        let k = choose|k: int| 0 <= k < d.len() && d[k].name == Some(s.last().name->Some_0);
        assert(s[k].name == s[s.len() - 1].name);
    }
}

/// Offering well-formed descriptors (named, under distinct names) to an empty cache
/// caches exactly them, in order.
pub proof fn law_fresh_cache_holds_all(files: Seq<FileView>)
    requires
        cache_files_wf(files),
    ensures
        cache_add_files(Seq::empty(), files) == files,
    decreases files.len(),
{
    if files.len() > 0 {
        lemma_wf_drop_last(files);
        law_fresh_cache_holds_all(files.drop_last());
        assert(files.drop_last().push(files.last()) =~= files);
    }
}

/// A resolution that starts fresh and hits a well-formed cache collects exactly the
/// cached descriptors, in the cache's order, and processes each cached file name.
pub proof fn law_cache_hit_takes_cache(cached: Seq<FileView>)
    requires
        cache_files_wf(cached),
    ensures
        absorb_cached(Seq::empty(), Seq::empty(), cached).0 == cached,
        absorb_cached(Seq::empty(), Seq::empty(), cached).1 == cached.map_values(|f: FileView| f.name->Some_0),
    decreases cached.len(),
{
    if cached.len() > 0 {
        lemma_wf_drop_last(cached);
        law_cache_hit_takes_cache(cached.drop_last());
        let d = cached.drop_last();
        let names = d.map_values(|f: FileView| f.name->Some_0);
        let n = cached.last().name->Some_0;
        assert(cached[cached.len() - 1].name is Some);
        if names.contains(n) {
            let k = choose|k: int| 0 <= k < names.len() && names[k] == n;
            assert(d[k].name == Some(n));
            assert(has_file(d, n));
        }
        assert(d.push(cached.last()) =~= cached);
        assert(names.push(n) =~= cached.map_values(|f: FileView| f.name->Some_0));
    }
}

/// Resolving a symbol again, after a first resolution from an empty cache collected
/// well-formed descriptors and recorded them, collects the very same descriptors;
/// so a pool made of them has the same messages, and as many.
pub proof fn law_repeated_resolution_same_pool(files: Seq<FileView>)
    requires
        cache_files_wf(files),
    ensures
        absorb_cached(Seq::empty(), Seq::empty(), cache_add_files(Seq::empty(), files)).0 == files,
        pool_message_names_of(
            absorb_cached(Seq::empty(), Seq::empty(), cache_add_files(Seq::empty(), files)).0.map_values(
                |f: FileView| f.encoded,
            ),
        ) == pool_message_names_of(files.map_values(|f: FileView| f.encoded)),
{
    law_fresh_cache_holds_all(files);
    law_cache_hit_takes_cache(files);
}

/// After descriptors are offered to the cache, every named one is cached.
pub proof fn law_cache_holds_offered(cached: Seq<FileView>, incoming: Seq<FileView>, i: int)
    requires
        0 <= i < incoming.len(),
        incoming[i].name is Some,
    ensures
        has_file(cache_add_files(cached, incoming), incoming[i].name->Some_0),
    decreases incoming.len(),
{
    let n = incoming[i].name->Some_0;
    let c = cache_add_files(cached, incoming.drop_last());
    if i < incoming.len() - 1 {
        law_cache_holds_offered(cached, incoming.drop_last(), i);
        let k = choose|k: int| 0 <= k < c.len() && c[k].name == Some(n);
        law_cache_only_grows(c, seq![incoming.last()]);
        let r = cache_add_files(cached, incoming);
        assert(r.subrange(0, c.len() as int) == c) by {
            assert(seq![incoming.last()].drop_last() =~= Seq::<FileView>::empty());
        }
        assert(r[k] == c[k]);
    } else {
        let r = cache_add_files(cached, incoming);
        if !has_file(c, n) {
            assert(r[c.len() as int].name == Some(n));
        }
    }
}

/// Offering descriptors keeps the cache well formed: named, under distinct names.
pub proof fn law_cache_stays_wf(cached: Seq<FileView>, incoming: Seq<FileView>)
    requires
        cache_files_wf(cached),
    ensures
        cache_files_wf(cache_add_files(cached, incoming)),
    decreases incoming.len(),
{
    if incoming.len() > 0 {
        law_cache_stays_wf(cached, incoming.drop_last());
        let c = cache_add_files(cached, incoming.drop_last());
        if let Some(n) = incoming.last().name {
            if !has_file(c, n) {
                let r = c.push(incoming.last());
                assert forall|a: int, b: int|
                    0 <= a < r.len() && 0 <= b < r.len() && a != b implies (#[trigger] r[a]).name != (#[trigger] r[b]).name by {
                    if a == c.len() && b < c.len() {
                        assert(c[b].name != Some(n));
                    }
                    if b == c.len() && a < c.len() {
                        assert(c[a].name != Some(n));
                    }
                }
            }
        }
    }
}

/// On a cache hit, every cached file ends up processed in the resolution.
pub proof fn law_cache_hit_covers(files: Seq<FileView>, processed: Seq<Seq<char>>, cached: Seq<FileView>, i: int)
    requires
        0 <= i < cached.len(),
        cached[i].name is Some,
    ensures
        absorb_cached(files, processed, cached).1.contains(cached[i].name->Some_0),
    decreases cached.len(),
{
    let (f, p) = absorb_cached(files, processed, cached.drop_last());
    law_absorb_cached_keeps(files, processed, cached.drop_last());
    if i < cached.len() - 1 {
        law_cache_hit_covers(files, processed, cached.drop_last(), i);
        let k = choose|k: int| 0 <= k < p.len() && p[k] == cached[i].name->Some_0;
        let (f2, p2) = absorb_cached(files, processed, cached);
        assert(p2[k] == p[k]);
    } else {
        let (f2, p2) = absorb_cached(files, processed, cached);
        if !p.contains(cached[i].name->Some_0) {
            assert(p2[p.len() as int] == cached[i].name->Some_0);
        }
    }
}

/// Taking over cached descriptors only adds to the processed file names.
pub proof fn law_absorb_cached_keeps(files: Seq<FileView>, processed: Seq<Seq<char>>, cached: Seq<FileView>)
    ensures
        absorb_cached(files, processed, cached).1.len() >= processed.len(),
        absorb_cached(files, processed, cached).1.subrange(0, processed.len() as int) == processed,
    decreases cached.len(),
{
    if cached.len() > 0 {
        law_absorb_cached_keeps(files, processed, cached.drop_last());
        let (f, p) = absorb_cached(files, processed, cached.drop_last());
        assert(p.push(cached.last().name->Some_0).subrange(0, processed.len() as int) =~= p.subrange(
            0,
            processed.len() as int,
        ));
    }
}

/// Recording a symbol in the cache makes it known there, and every symbol known
/// before stays known: a later resolution that has not processed one of them takes
/// it from the cache (`SymbolStart::CacheHit`) instead of fetching it.
pub proof fn law_recorded_symbols_stay(known: Seq<Seq<char>>, symbol: Seq<char>)
    ensures
        set_insert(known, symbol).contains(symbol),
        forall|x: Seq<char>| known.contains(x) ==> #[trigger] set_insert(known, symbol).contains(x),
{
    if !known.contains(symbol) {
        assert(known.push(symbol)[known.len() as int] == symbol);
        assert forall|x: Seq<char>| known.contains(x) implies #[trigger] set_insert(known, symbol).contains(x) by {
            let k = choose|k: int| 0 <= k < known.len() && known[k] == x;
            assert(known.push(symbol)[k] == x);
        }
    }
}

/// Every dependency of every collected descriptor is processed or still pending.
pub open spec fn deps_covered(files: Seq<FileView>, processed: Seq<Seq<char>>, pending: Seq<Seq<char>>) -> bool {
    forall|i: int, j: int|
        0 <= i < files.len() && 0 <= j < files[i].dependency.len() ==> processed.contains(
            #[trigger] files[i].dependency[j],
        ) || pending.contains(files[i].dependency[j])
}

proof fn lemma_add_new_keeps(next: Seq<Seq<char>>, processed: Seq<Seq<char>>, deps: Seq<Seq<char>>)
    ensures
        forall|x: Seq<char>| next.contains(x) ==> #[trigger] add_new(next, processed, deps).contains(x),
        forall|j: int|
            0 <= j < deps.len() && !processed.contains(deps[j]) ==> add_new(next, processed, deps).contains(
                #[trigger] deps[j],
            ),
    decreases deps.len(),
{
    if deps.len() > 0 {
        let n = add_new(next, processed, deps.drop_last());
        lemma_add_new_keeps(next, processed, deps.drop_last());
        assert forall|x: Seq<char>| n.contains(x) implies #[trigger] add_new(next, processed, deps).contains(x) by {
            if !(processed.contains(deps.last()) || n.contains(deps.last())) {
                let k = choose|k: int| 0 <= k < n.len() && n[k] == x;
                assert(n.push(deps.last())[k] == x);
            }
        }
        assert forall|j: int| 0 <= j < deps.len() && !processed.contains(deps[j]) implies add_new(
            next,
            processed,
            deps,
        ).contains(#[trigger] deps[j]) by {
            if j < deps.len() - 1 {
                assert(deps.drop_last()[j] == deps[j]);
                assert(n.contains(deps[j]));
            } else if !n.contains(deps.last()) {
                assert(n.push(deps.last())[n.len() as int] == deps.last());
            }
        }
    }
}

proof fn lemma_missing_holds(deps: Seq<Seq<char>>, processed: Seq<Seq<char>>)
    ensures
        forall|j: int|
            0 <= j < deps.len() && !processed.contains(deps[j]) ==> missing(deps, processed).contains(
                #[trigger] deps[j],
            ),
    decreases deps.len(),
{
    if deps.len() > 0 {
        let m = missing(deps.drop_last(), processed);
        let tail = if processed.contains(deps.last()) {
            Seq::<Seq<char>>::empty()
        } else {
            seq![deps.last()]
        };
        lemma_missing_holds(deps.drop_last(), processed);
        assert forall|j: int| 0 <= j < deps.len() && !processed.contains(deps[j]) implies missing(
            deps,
            processed,
        ).contains(#[trigger] deps[j]) by {
            if j < deps.len() - 1 {
                assert(deps.drop_last()[j] == deps[j]);
                let k = choose|k: int| 0 <= k < m.len() && m[k] == deps[j];
                assert((m + tail)[k] == deps[j]);
            } else {
                assert((m + tail)[m.len() as int] == deps[j]);
            }
        }
    }
}

/// Taking in the descriptors fetched for a dependency keeps every dependency of the
/// collected descriptors processed or in the next round: the new descriptors'
/// unprocessed dependencies join the round.
pub proof fn law_dependency_step_covers(
    files: Seq<FileView>,
    next: Seq<Seq<char>>,
    processed: Seq<Seq<char>>,
    incoming: Seq<FileView>,
)
    requires
        deps_covered(files, processed, next),
    ensures
        deps_covered(
            absorb_dependency_files(files, next, processed, incoming).0,
            processed,
            absorb_dependency_files(files, next, processed, incoming).1,
        ),
    decreases incoming.len(),
{
    if incoming.len() > 0 {
        let (f, n) = absorb_dependency_files(files, next, processed, incoming.drop_last());
        law_dependency_step_covers(files, next, processed, incoming.drop_last());
        let c = incoming.last();
        let n2 = add_new(n, processed, c.dependency);
        lemma_add_new_keeps(n, processed, c.dependency);
        let f2 = f.push(c);
        assert forall|i: int, j: int| 0 <= i < f2.len() && 0 <= j < f2[i].dependency.len() implies processed.contains(
            #[trigger] f2[i].dependency[j],
        ) || n2.contains(f2[i].dependency[j]) by {
            if i < f.len() {
                assert(f2[i] == f[i]);
                assert(processed.contains(f[i].dependency[j]) || n.contains(f[i].dependency[j]));
            } else {
                assert(f2[i] == c);
            }
        }
    }
}

/// Taking in the named descriptors of a symbol reply keeps every dependency of the
/// collected descriptors processed or noted as new.
pub proof fn law_symbol_step_covers(
    files: Seq<FileView>,
    processed: Seq<Seq<char>>,
    deps: Seq<Seq<char>>,
    incoming: Seq<FileView>,
)
    requires
        deps_covered(files, processed, deps),
        forall|k: int| 0 <= k < incoming.len() ==> (#[trigger] incoming[k]).name is Some,
    ensures
        deps_covered(
            absorb_symbol_files(files, processed, deps, incoming).0,
            absorb_symbol_files(files, processed, deps, incoming).1,
            absorb_symbol_files(files, processed, deps, incoming).2,
        ),
    decreases incoming.len(),
{
    if incoming.len() > 0 {
        let (f, p, d) = absorb_symbol_files(files, processed, deps, incoming.drop_last());
        assert forall|k: int| 0 <= k < incoming.drop_last().len() implies (#[trigger] incoming.drop_last()[k]).name is Some by {
            assert(incoming.drop_last()[k] == incoming[k]);
        }
        law_symbol_step_covers(files, processed, deps, incoming.drop_last());
        let c = incoming.last();
        assert(incoming[incoming.len() - 1].name is Some);
        let n = c.name->Some_0;
        if !p.contains(n) {
            let p2 = p.push(n);
            let m = missing(c.dependency, p2);
            lemma_missing_holds(c.dependency, p2);
            let f2 = f.push(c);
            let d2 = d + m;
            assert forall|i: int, j: int| 0 <= i < f2.len() && 0 <= j < f2[i].dependency.len() implies p2.contains(
                #[trigger] f2[i].dependency[j],
            ) || d2.contains(f2[i].dependency[j]) by {
                let x = f2[i].dependency[j];
                if i < f.len() {
                    assert(f2[i] == f[i]);
                    assert(p.contains(x) || d.contains(x));
                    if p.contains(x) {
                        let k = choose|k: int| 0 <= k < p.len() && p[k] == x;
                        assert(p2[k] == x);
                    } else {
                        let k = choose|k: int| 0 <= k < d.len() && d[k] == x;
                        assert(d2[k] == x);
                    }
                } else {
                    assert(f2[i] == c);
                    if !p2.contains(x) {
                        assert(m.contains(c.dependency[j]));
                        let k = choose|k: int| 0 <= k < m.len() && m[k] == x;
                        assert(d2[d.len() + k] == x);
                    }
                }
            }
        }
    }
}

/// Coverage carries over as the rounds advance: a pending dependency that gets
/// processed, or stays pending, keeps every dependency covered.
pub proof fn law_covered_as_rounds_advance(
    files: Seq<FileView>,
    processed: Seq<Seq<char>>,
    pending: Seq<Seq<char>>,
    processed2: Seq<Seq<char>>,
    pending2: Seq<Seq<char>>,
)
    requires
        deps_covered(files, processed, pending),
        forall|x: Seq<char>| processed.contains(x) ==> #[trigger] processed2.contains(x),
        forall|x: Seq<char>| #[trigger] pending.contains(x) ==> processed2.contains(x) || pending2.contains(x),
    ensures
        deps_covered(files, processed2, pending2),
{
    assert forall|i: int, j: int| 0 <= i < files.len() && 0 <= j < files[i].dependency.len() implies processed2.contains(
        #[trigger] files[i].dependency[j],
    ) || pending2.contains(files[i].dependency[j]) by {
        let x = files[i].dependency[j];
        if processed.contains(x) {
            assert(processed2.contains(x));
        } else {
            assert(pending.contains(x));
        }
    }
}

/// When nothing is pending any more, the collected descriptors are closed under
/// their dependencies: every dependency of every one of them is processed.
pub proof fn law_closed_when_nothing_pending(files: Seq<FileView>, processed: Seq<Seq<char>>)
    requires
        deps_covered(files, processed, Seq::empty()),
    ensures
        forall|i: int, j: int|
            0 <= i < files.len() && 0 <= j < files[i].dependency.len() ==> processed.contains(
                #[trigger] files[i].dependency[j],
            ),
{
}

/// A template has an entry for the JSON name of every field.
pub proof fn law_template_names_every_field(fields: Seq<(Seq<char>, Seq<char>)>, i: int)
    requires
        0 <= i < fields.len(),
    ensures
        crate::json::lookup(template_entries(fields), fields[i].1) is Some,
    decreases fields.len(),
{
    let prev = template_entries(fields.drop_last());
    let last = fields.last();
    if i == fields.len() - 1 {
        crate::json::law_lookup_after_insert(prev, last.1, template_default(last.0));
    } else {
        law_template_names_every_field(fields.drop_last(), i);
        if fields[i].1 == last.1 {
            crate::json::law_lookup_after_insert(prev, last.1, template_default(last.0));
        } else {
            crate::json::law_lookup_after_insert_other(prev, last.1, template_default(last.0), fields[i].1);
        }
    }
}

/// A kind name mentions one of five words exactly when it contains one of them.
proof fn lemma_mentions_five(kind: Seq<char>, a: Seq<char>, b: Seq<char>, c: Seq<char>, d: Seq<char>, e: Seq<char>)
    ensures
        mentions_any(kind, seq![a, b, c, d, e]) <==> (contains_seq(kind, a) || contains_seq(kind, b)
            || contains_seq(kind, c) || contains_seq(kind, d) || contains_seq(kind, e)),
{
    let ws = seq![a, b, c, d, e];
    assert(ws[0] == a && ws[1] == b && ws[2] == c && ws[3] == d && ws[4] == e);
    if mentions_any(kind, ws) {
        let i = choose|i: int| 0 <= i < ws.len() && contains_seq(kind, #[trigger] ws[i]);
        assert(i == 0 || i == 1 || i == 2 || i == 3 || i == 4);
    }
}

/// The sample value of a field follows the first word its kind's name mentions, in
/// the order `Bool`, the 32-bit integer kinds, the 64-bit integer kinds, `Float` or
/// `Double`, `String`, `Bytes`, `Message`, `Enum`: `false`, `0`, `"0"`, `0.0`,
/// `"string"`, `"base64encoded"`, `{}`, `0`; a kind mentioning none of them is
/// sampled as `null`.
pub proof fn law_template_sample_values(kind: Seq<char>)
    ensures
        contains_seq(kind, "Bool"@) ==> template_default(kind) == JsonView::Bool(false),
        !contains_seq(kind, "Bool"@) && (contains_seq(kind, "Int32"@) || contains_seq(kind, "Sint32"@)
            || contains_seq(kind, "Sfixed32"@) || contains_seq(kind, "Fixed32"@) || contains_seq(kind, "Uint32"@))
            ==> template_default(kind) == JsonView::Number(JsonNumber::PosInt(0)),
        ({
            &&& !contains_seq(kind, "Bool"@)
            &&& !contains_seq(kind, "Int32"@) && !contains_seq(kind, "Sint32"@) && !contains_seq(kind, "Sfixed32"@)
            &&& !contains_seq(kind, "Fixed32"@) && !contains_seq(kind, "Uint32"@)
        }) ==> {
            &&& (contains_seq(kind, "Int64"@) || contains_seq(kind, "Sint64"@) || contains_seq(kind, "Uint64"@)
                || contains_seq(kind, "Fixed64"@) || contains_seq(kind, "Sfixed64"@)) ==> template_default(kind)
                == JsonView::String("0"@)
            &&& ({
                &&& !contains_seq(kind, "Int64"@) && !contains_seq(kind, "Sint64"@) && !contains_seq(kind, "Uint64"@)
                &&& !contains_seq(kind, "Fixed64"@) && !contains_seq(kind, "Sfixed64"@)
            }) ==> {
                &&& (contains_seq(kind, "Float"@) || contains_seq(kind, "Double"@)) ==> template_default(kind)
                    == JsonView::Number(JsonNumber::Float(0))
                &&& (!contains_seq(kind, "Float"@) && !contains_seq(kind, "Double"@)) ==> {
                    &&& contains_seq(kind, "String"@) ==> template_default(kind) == JsonView::String("string"@)
                    &&& !contains_seq(kind, "String"@) && contains_seq(kind, "Bytes"@) ==> template_default(kind)
                        == JsonView::String("base64encoded"@)
                    &&& !contains_seq(kind, "String"@) && !contains_seq(kind, "Bytes"@) && contains_seq(
                        kind,
                        "Message"@,
                    ) ==> template_default(kind) == JsonView::Object(Seq::empty())
                    &&& !contains_seq(kind, "String"@) && !contains_seq(kind, "Bytes"@) && !contains_seq(
                        kind,
                        "Message"@,
                    ) && contains_seq(kind, "Enum"@) ==> template_default(kind) == JsonView::Number(
                        JsonNumber::PosInt(0),
                    )
                    &&& !contains_seq(kind, "String"@) && !contains_seq(kind, "Bytes"@) && !contains_seq(
                        kind,
                        "Message"@,
                    ) && !contains_seq(kind, "Enum"@) ==> template_default(kind) == JsonView::Null
                }
            }
        },
{
    lemma_mentions_five(kind, "Int32"@, "Sint32"@, "Sfixed32"@, "Fixed32"@, "Uint32"@);
    lemma_mentions_five(kind, "Int64"@, "Sint64"@, "Uint64"@, "Fixed64"@, "Sfixed64"@);
}

} // verus!
