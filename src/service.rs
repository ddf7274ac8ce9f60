use vstd::prelude::*;
use crate::cache::OpenFileCache;
use crate::patch::{apply_patch, check_hunk_ranges, hunk_ranges_short, patch_error, patched};

verus! {

/// The request methods that the service tells apart.
#[derive(Clone, Copy, Debug, PartialEq, Eq, Structural)]
pub enum Method {
    Get,
    Post,
    Other,
}

/// The operation a request asks for.
#[derive(Clone, Copy, Debug, PartialEq, Eq, Structural)]
pub enum Operation {
    CreateFile,
    CreateDir,
    Remove,
    Close,
    Read,
    Write,
}

/// Why a request has no operation.
#[derive(Clone, Copy, Debug, PartialEq, Eq, Structural)]
pub enum RouteError {
    /// The query, which names the target path, is absent or empty.
    EmptyQuery,
    /// No operation is bound to the method and path.
    UnsupportedRoute,
}

/// The status class of a response.
#[derive(Clone, Copy, Debug, PartialEq, Eq, Structural)]
pub enum Status {
    Success,
    NotAcceptable,
    NotFound,
}

/// What the filesystem says a path is.
#[derive(Clone, Copy, Debug, PartialEq, Eq, Structural)]
pub enum EntryKind {
    Directory,
    File,
    Other,
}

/// How a path is to be removed.
#[derive(Clone, Copy, Debug, PartialEq, Eq, Structural)]
pub enum Removal {
    /// Recursively, with everything below it.
    Directory,
    /// Alone.
    File,
}

/// The body of a response: a message, or the content of a file.
#[derive(Debug)]
pub enum Body {
    Text(String),
    Data(Vec<u8>),
}

/// A response: its status and its body.
#[derive(Debug)]
pub struct Response {
    pub status: Status,
    pub body: Body,
}

/// What a response body holds, as text or bytes.
pub enum BodyView {
    Text(Seq<char>),
    Data(Seq<u8>),
}

/// What a response holds.
pub struct ResponseView {
    pub status: Status,
    pub body: BodyView,
}

impl View for Response {
    type V = ResponseView;

    open spec fn view(&self) -> ResponseView {
        ResponseView {
            status: self.status,
            body: match self.body {
                Body::Text(t) => BodyView::Text(t@),
                Body::Data(d) => BodyView::Data(d@),
            },
        }
    }
}

/// A response that carries a message.
pub open spec fn text(status: Status, t: Seq<char>) -> ResponseView {
    ResponseView { status, body: BodyView::Text(t) }
}

/// A successful response that carries content.
pub open spec fn data(d: Seq<u8>) -> ResponseView {
    ResponseView { status: Status::Success, body: BodyView::Data(d) }
}

/// The operation bound to a method and a path.
pub open spec fn spec_operation(method: Method, path: Seq<char>) -> Option<Operation> {
    if method == Method::Get && path == "/create_file"@ {
        Some(Operation::CreateFile)
    } else if method == Method::Get && path == "/create_dir"@ {
        Some(Operation::CreateDir)
    } else if method == Method::Get && path == "/remove"@ {
        Some(Operation::Remove)
    } else if method == Method::Get && path == "/close"@ {
        Some(Operation::Close)
    } else if method == Method::Get && path == "/read"@ {
        Some(Operation::Read)
    } else if method == Method::Post && path == "/write"@ {
        Some(Operation::Write)
    } else {
        None
    }
}

/// Routing: a request needs a non-empty query first, then a bound
/// operation.
pub open spec fn spec_route(method: Method, path: Seq<char>, query: Option<Seq<char>>) -> Result<
    Operation,
    RouteError,
> {
    match query {
        None => Err(RouteError::EmptyQuery),
        Some(q) => if q.len() == 0 {
            Err(RouteError::EmptyQuery)
        } else {
            match spec_operation(method, path) {
                Some(op) => Ok(op),
                None => Err(RouteError::UnsupportedRoute),
            }
        },
    }
}

/// The response to a request that has no operation.
pub open spec fn spec_route_error(e: RouteError) -> ResponseView {
    match e {
        RouteError::EmptyQuery => text(Status::NotAcceptable, "Empty query"@),
        RouteError::UnsupportedRoute => text(Status::NotFound, "Unsupported route"@),
    }
}

/// The response to a filesystem step: a confirmation that ends with the
/// path, or the failure's own message.
pub open spec fn spec_confirm(prefix: Seq<char>, path: Seq<char>, outcome: Result<(), Seq<char>>) -> ResponseView {
    match outcome {
        Ok(_) => text(Status::Success, prefix + path),
        Err(e) => text(Status::NotAcceptable, e),
    }
}

/// Reading a cached handle: its content, or the failure.
pub open spec fn spec_read_cached(content: Result<Seq<u8>, Seq<char>>) -> ResponseView {
    match content {
        Ok(d) => data(d),
        Err(e) => text(Status::NotAcceptable, e),
    }
}

/// Reading an uncached path: on success the fresh handle is cached and the
/// content served; on failure the cache is left as it was.
pub open spec fn spec_finish_read<H>(
    c: Map<Seq<char>, H>,
    p: Seq<char>,
    opened: Result<(H, Seq<u8>), Seq<char>>,
) -> (Map<Seq<char>, H>, ResponseView) {
    match opened {
        Ok((h, d)) => (c.insert(p, h), data(d)),
        Err(e) => (c, text(Status::NotAcceptable, e)),
    }
}

/// The first half of a write: the patched content, or the response that
/// ends the request. That is a failed read of the current content, a patch
/// whose hunk headers hold numbers too long to be ranges, or a patch that
/// does not parse or apply, answered with the applier's own message.
pub open spec fn spec_plan_write(current: Result<Seq<u8>, Seq<char>>, patch: Seq<u8>) -> Result<
    Seq<u8>,
    ResponseView,
> {
    match current {
        Err(e) => Err(text(Status::NotAcceptable, e)),
        Ok(c) => if !hunk_ranges_short(patch) {
            Err(text(Status::NotAcceptable, "Invalid patch: hunk range number too long"@))
        } else {
            match patched(c, patch) {
                Some(v) => Ok(v),
                None => Err(text(Status::NotAcceptable, patch_error(c, patch))),
            }
        },
    }
}

/// The second half of a write: the handle that holds the patched content
/// replaces the cached one; on failure the cache is left as it was.
pub open spec fn spec_finish_write<H>(
    c: Map<Seq<char>, H>,
    p: Seq<char>,
    stored: Result<H, Seq<char>>,
) -> (Map<Seq<char>, H>, ResponseView) {
    match stored {
        Ok(h) => (c.insert(p, h), text(Status::Success, "POST write to file "@ + p)),
        Err(e) => (c, text(Status::NotAcceptable, e)),
    }
}

/// Closing: evicts a cached path; an uncached one is an error.
pub open spec fn spec_close<H>(c: Map<Seq<char>, H>, p: Seq<char>) -> (Map<Seq<char>, H>, ResponseView) {
    if c.contains_key(p) {
        (c.remove(p), text(Status::Success, "GET close file "@ + p))
    } else {
        (c, text(Status::NotAcceptable, "Not exists"@))
    }
}

/// The first half of a removal: whatever the path is, its handle is
/// evicted; then a directory or a file is to be removed, and anything else
/// is refused.
pub open spec fn spec_plan_remove<H>(
    c: Map<Seq<char>, H>,
    p: Seq<char>,
    kind: Result<EntryKind, Seq<char>>,
) -> (Map<Seq<char>, H>, Result<Removal, ResponseView>) {
    (
        c.remove(p),
        match kind {
            Err(e) => Err(text(Status::NotAcceptable, e)),
            Ok(EntryKind::Directory) => Ok(Removal::Directory),
            Ok(EntryKind::File) => Ok(Removal::File),
            Ok(EntryKind::Other) => Err(text(Status::NotAcceptable, "Unsupported file type"@)),
        },
    )
}

/// The second half of a removal: the confirmation names what was removed.
pub open spec fn spec_removed(p: Seq<char>, removal: Removal, outcome: Result<(), Seq<char>>) -> ResponseView {
    match removal {
        Removal::Directory => spec_confirm("GET remove directory "@, p, outcome),
        Removal::File => spec_confirm("GET remove file "@, p, outcome),
    }
}

/// A filesystem outcome with its error as text.
pub open spec fn unit_outcome(r: Result<(), String>) -> Result<(), Seq<char>> {
    match r {
        Ok(_) => Ok(()),
        Err(e) => Err(e@),
    }
}

/// A read outcome with its content and error as sequences.
pub open spec fn bytes_outcome(r: Result<Vec<u8>, String>) -> Result<Seq<u8>, Seq<char>> {
    match r {
        Ok(d) => Ok(d@),
        Err(e) => Err(e@),
    }
}

/// Whether two texts are equal.
fn same_text(a: &str, b: &str) -> (r: bool)
    ensures
        r == (a@ == b@),
{
    let x = a.to_owned();
    let y = b.to_owned();
    x == y
}

/// `prefix` followed by `path`.
fn confirmation(prefix: &str, path: &str) -> (r: String)
    ensures
        r@ == prefix@ + path@,
{
    let mut s = prefix.to_owned();
    s.append(path);
    s
}

/// A response that carries the message `t`.
fn text_response(status: Status, t: &str) -> (r: Response)
    ensures
        r@ == text(status, t@),
{
    Response { status, body: Body::Text(t.to_owned()) }
}

/// A client error that carries a failure's own message.
fn failure(e: String) -> (r: Response)
    ensures
        r@ == text(Status::NotAcceptable, e@),
{
    Response { status: Status::NotAcceptable, body: Body::Text(e) }
}

/// Picks the operation of a request from its method, its path and its
/// query (which names the target path).
pub fn route(method: Method, path: &str, query: Option<&str>) -> (r: Result<Operation, RouteError>)
    ensures
        r == spec_route(method, path@, match query {
            Some(q) => Some(q@),
            None => None,
        }),
{
    let q = match query {
        None => {
            return Err(RouteError::EmptyQuery);
        },
        Some(q) => q,
    };
    if q.is_empty() {
        return Err(RouteError::EmptyQuery);
    }
    match method {
        Method::Get => {
            if same_text(path, "/create_file") {
                Ok(Operation::CreateFile)
            } else if same_text(path, "/create_dir") {
                Ok(Operation::CreateDir)
            } else if same_text(path, "/remove") {
                Ok(Operation::Remove)
            } else if same_text(path, "/close") {
                Ok(Operation::Close)
            } else if same_text(path, "/read") {
                Ok(Operation::Read)
            } else {
                Err(RouteError::UnsupportedRoute)
            }
        },
        Method::Post => {
            if same_text(path, "/write") {
                Ok(Operation::Write)
            } else {
                Err(RouteError::UnsupportedRoute)
            }
        },
        Method::Other => Err(RouteError::UnsupportedRoute),
    }
}

/// The response to a request that has no operation.
pub fn route_error_response(e: RouteError) -> (r: Response)
    ensures
        r@ == spec_route_error(e),
{
    match e {
        RouteError::EmptyQuery => text_response(Status::NotAcceptable, "Empty query"),
        RouteError::UnsupportedRoute => text_response(Status::NotFound, "Unsupported route"),
    }
}

/// The response to creating an empty file at `path`.
pub fn create_file_response(path: &str, outcome: Result<(), String>) -> (r: Response)
    ensures
        r@ == spec_confirm("GET created file "@, path@, unit_outcome(outcome)),
{
    match outcome {
        Ok(_) => Response { status: Status::Success, body: Body::Text(confirmation("GET created file ", path)) },
        Err(e) => failure(e),
    }
}

/// The response to creating a directory tree at `path`.
pub fn create_dir_response(path: &str, outcome: Result<(), String>) -> (r: Response)
    ensures
        r@ == spec_confirm("GET created dir "@, path@, unit_outcome(outcome)),
{
    match outcome {
        Ok(_) => Response { status: Status::Success, body: Body::Text(confirmation("GET created dir ", path)) },
        Err(e) => failure(e),
    }
}

/// The response to reading the handle cached for a path.
pub fn read_cached_response(content: Result<Vec<u8>, String>) -> (r: Response)
    ensures
        r@ == spec_read_cached(bytes_outcome(content)),
{
    match content {
        Ok(d) => Response { status: Status::Success, body: Body::Data(d) },
        Err(e) => failure(e),
    }
}

/// Ends the read of an uncached path with what opening and reading it
/// gave: the fresh handle and the content, or the failure.
pub fn finish_read<H>(cache: &mut OpenFileCache<H>, path: &str, opened: Result<(H, Vec<u8>), String>) -> (r: Response)
    requires
        old(cache).wf(),
    ensures
        final(cache).wf(),
        (final(cache)@, r@) == spec_finish_read(old(cache)@, path@, match opened {
            Ok((h, d)) => Ok((h, d@)),
            Err(e) => Err(e@),
        }),
{
    match opened {
        Ok((h, d)) => {
            cache.insert(path, h);
            Response { status: Status::Success, body: Body::Data(d) }
        },
        Err(e) => failure(e),
    }
}

/// Applies a patch to the current content of a file: the patched content,
/// or the response that ends the request.
pub fn plan_write(current: Result<Vec<u8>, String>, patch: &[u8]) -> (r: Result<Vec<u8>, Response>)
    ensures
        match r {
            Ok(v) => spec_plan_write(bytes_outcome(current), patch@) == Ok::<Seq<u8>, ResponseView>(v@),
            Err(resp) => spec_plan_write(bytes_outcome(current), patch@) == Err::<Seq<u8>, ResponseView>(resp@),
        },
{
    match current {
        Err(e) => Err(failure(e)),
        Ok(c) => {
            if !check_hunk_ranges(patch) {
                return Err(text_response(Status::NotAcceptable, "Invalid patch: hunk range number too long"));
            }
            match apply_patch(c.as_slice(), patch) {
                Ok(v) => Ok(v),
                Err(e) => Err(failure(e)),
            }
        },
    }
}

/// Ends a write with what storing the patched content gave: the handle
/// that holds it, or the failure.
pub fn finish_write<H>(cache: &mut OpenFileCache<H>, path: &str, stored: Result<H, String>) -> (r: Response)
    requires
        old(cache).wf(),
    ensures
        final(cache).wf(),
        (final(cache)@, r@) == spec_finish_write(old(cache)@, path@, match stored {
            Ok(h) => Ok(h),
            Err(e) => Err(e@),
        }),
{
    match stored {
        Ok(h) => {
            cache.insert(path, h);
            Response { status: Status::Success, body: Body::Text(confirmation("POST write to file ", path)) }
        },
        Err(e) => failure(e),
    }
}

/// Closes a path: evicts its handle, or reports that it was not open.
pub fn on_close<H>(cache: &mut OpenFileCache<H>, path: &str) -> (r: Response)
    requires
        old(cache).wf(),
    ensures
        final(cache).wf(),
        (final(cache)@, r@) == spec_close(old(cache)@, path@),
{
    match cache.remove(path) {
        Some(_) => Response { status: Status::Success, body: Body::Text(confirmation("GET close file ", path)) },
        None => text_response(Status::NotAcceptable, "Not exists"),
    }
}

/// Starts the removal of a path, given what the filesystem says it is:
/// evicts its handle, then says how to remove it, or the response that
/// ends the request.
pub fn plan_remove<H>(cache: &mut OpenFileCache<H>, path: &str, kind: Result<EntryKind, String>) -> (r: Result<Removal, Response>)
    requires
        old(cache).wf(),
    ensures
        final(cache).wf(),
        (final(cache)@, match r {
            Ok(m) => Ok(m),
            Err(resp) => Err(resp@),
        }) == spec_plan_remove(old(cache)@, path@, match kind {
            Ok(k) => Ok(k),
            Err(e) => Err(e@),
        }),
{
    cache.remove(path);
    match kind {
        Err(e) => Err(failure(e)),
        Ok(EntryKind::Directory) => Ok(Removal::Directory),
        Ok(EntryKind::File) => Ok(Removal::File),
        Ok(EntryKind::Other) => Err(text_response(Status::NotAcceptable, "Unsupported file type")),
    }
}

/// The response to removing a path.
pub fn removed_response(path: &str, removal: Removal, outcome: Result<(), String>) -> (r: Response)
    ensures
        r@ == spec_removed(path@, removal, unit_outcome(outcome)),
{
    match outcome {
        Err(e) => failure(e),
        Ok(_) => {
            let t = match removal {
                Removal::Directory => confirmation("GET remove directory ", path),
                Removal::File => confirmation("GET remove file ", path),
            };
            Response { status: Status::Success, body: Body::Text(t) }
        },
    }
}

} // verus!
