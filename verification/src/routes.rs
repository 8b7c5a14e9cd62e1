//! Routing of the web server's requests, and the head of each response.
use vstd::prelude::*;
use vstd::slice::slice_subrange;
use vstd::string::StringSliceAdditionalSpecFns;

use crate::station::data::Data;

verus! {

/// What a request is answered with.
#[derive(Debug, Clone, Copy, PartialEq, Eq)]
pub enum Route {
    /// Any method but GET: 405.
    MethodNotAllowed,
    /// `/api/health`: plain text `OK`.
    Health,
    /// `/api/data`: the station's latest readings as JSON.
    Data,
    /// `/api/random-data`: made-up readings as JSON.
    RandomData,
    /// `/`: the page that shows the latest readings.
    Index,
    /// `/demo`: the page that shows made-up readings.
    Demo,
    /// Anything else: 404.
    NotFound,
}

/// The status line and content type that a response starts with.
#[derive(Debug, Clone, Copy, PartialEq, Eq)]
pub struct ResponseHead {
    pub status: u16,
    pub reason: &'static str,
    pub content_type: Option<&'static str>,
}

/// The bytes of `/api`.
pub open spec fn api_prefix() -> Seq<u8> {
    seq![47u8, 97u8, 112u8, 105u8]
}

/// The bytes of `/health`.
pub open spec fn health_path() -> Seq<u8> {
    seq![47u8, 104u8, 101u8, 97u8, 108u8, 116u8, 104u8]
}

/// The bytes of `/data`.
pub open spec fn data_path() -> Seq<u8> {
    seq![47u8, 100u8, 97u8, 116u8, 97u8]
}

/// The bytes of `/random-data`.
pub open spec fn random_data_path() -> Seq<u8> {
    seq![47u8, 114u8, 97u8, 110u8, 100u8, 111u8, 109u8, 45u8, 100u8, 97u8, 116u8, 97u8]
}

/// The bytes of `/`.
pub open spec fn index_path() -> Seq<u8> {
    seq![47u8]
}

/// The bytes of `/demo`.
pub open spec fn demo_path() -> Seq<u8> {
    seq![47u8, 100u8, 101u8, 109u8, 111u8]
}

/// The route of a path under `/api`, given the part after `/api`.
pub open spec fn spec_api_route(subpath: Seq<u8>) -> Option<Route> {
    if subpath == health_path() {
        Some(Route::Health)
    } else if subpath == data_path() {
        Some(Route::Data)
    } else if subpath == random_data_path() {
        Some(Route::RandomData)
    } else {
        None
    }
}

/// The route of a page.
pub open spec fn spec_template_route(path: Seq<u8>) -> Option<Route> {
    if path == index_path() {
        Some(Route::Index)
    } else if path == demo_path() {
        Some(Route::Demo)
    } else {
        None
    }
}

/// The route of a request: GET requests only; the API under `/api`, then
/// the pages, then 404.
pub open spec fn spec_route(is_get: bool, path: Seq<u8>) -> Route {
    if !is_get {
        Route::MethodNotAllowed
    } else if path.len() >= 4 && path.subrange(0, 4) == api_prefix()
        && spec_api_route(path.subrange(4, path.len() as int)) is Some {
        spec_api_route(path.subrange(4, path.len() as int))->0
    } else if spec_template_route(path) is Some {
        spec_template_route(path)->0
    } else {
        Route::NotFound
    }
}

/// Whether two byte strings are equal.
fn bytes_equal(a: &[u8], b: &[u8]) -> (r: bool)
    ensures
        r == (a@ == b@),
{
    if a.len() != b.len() {
        return false;
    }
    let mut i: usize = 0;
    while i < a.len()
        invariant
            i <= a@.len(),
            a@.len() == b@.len(),
            forall|j: int| 0 <= j < i ==> a@[j] == b@[j],
        decreases a@.len() - i,
    {
        if a[i] != b[i] {
            return false;
        }
        i = i + 1;
    }
    assert(a@ =~= b@);
    true
}

/// The route under `/api` of the part of the path after `/api`, if any.
pub fn api_route(subpath: &[u8]) -> (r: Option<Route>)
    ensures
        r == spec_api_route(subpath@),
{
    let health: [u8; 7] = [47, 104, 101, 97, 108, 116, 104];
    let data: [u8; 5] = [47, 100, 97, 116, 97];
    let random_data: [u8; 12] = [47, 114, 97, 110, 100, 111, 109, 45, 100, 97, 116, 97];
    assert(health@ == health_path());
    assert(data@ == data_path());
    assert(random_data@ == random_data_path());
    if bytes_equal(subpath, &health) {
        Some(Route::Health)
    } else if bytes_equal(subpath, &data) {
        Some(Route::Data)
    } else if bytes_equal(subpath, &random_data) {
        Some(Route::RandomData)
    } else {
        None
    }
}

/// The page route of a path, if any.
pub fn template_route(path: &[u8]) -> (r: Option<Route>)
    ensures
        r == spec_template_route(path@),
{
    let index: [u8; 1] = [47];
    let demo: [u8; 5] = [47, 100, 101, 109, 111];
    assert(index@ == index_path());
    assert(demo@ == demo_path());
    if bytes_equal(path, &index) {
        Some(Route::Index)
    } else if bytes_equal(path, &demo) {
        Some(Route::Demo)
    } else {
        None
    }
}

/// Routes a request by whether its method is GET and by its path.
pub fn route(is_get: bool, path: &str) -> (r: Route)
    ensures
        r == spec_route(is_get, path.spec_bytes()),
{
    if !is_get {
        return Route::MethodNotAllowed;
    }
    let bytes = path.as_bytes();
    if bytes.len() >= 4 {
        let prefix: [u8; 4] = [47, 97, 112, 105];
        assert(prefix@ == api_prefix());
        let head = slice_subrange(bytes, 0, 4);
        if bytes_equal(head, &prefix) {
            let subpath = slice_subrange(bytes, 4, bytes.len());
            if let Some(r) = api_route(subpath) {
                return r;
            }
        }
    }
    match template_route(bytes) {
        Some(r) => r,
        None => Route::NotFound,
    }
}

/// Every route that serves something answers 200 OK; a request with
/// another method than GET gets 405, and an unknown path 404.
pub proof fn lemma_route_statuses(r: Route)
    ensures
        r == Route::MethodNotAllowed ==> r.spec_status() == 405,
        r == Route::NotFound ==> r.spec_status() == 404,
        r != Route::MethodNotAllowed && r != Route::NotFound ==> r.spec_status() == 200,
{
}

impl Route {
    /// The status code that the route answers with.
    pub open spec fn spec_status(self) -> u16 {
        match self {
            Route::MethodNotAllowed => 405,
            Route::NotFound => 404,
            _ => 200,
        }
    }

    /// The status line and content type that the route's response starts with.
    pub fn head(&self) -> (r: ResponseHead)
        ensures
            r.status == self.spec_status(),
            *self == Route::MethodNotAllowed ==> r.status == 405,
            *self == Route::NotFound ==> r.status == 404,
            (*self == Route::Health || *self == Route::Data || *self == Route::RandomData
                || *self == Route::Index || *self == Route::Demo) ==> r.status == 200,
            r.reason@ == (match *self {
                Route::MethodNotAllowed => "Method Not Allowed"@,
                Route::NotFound => "Not Found"@,
                _ => "OK"@,
            }),
            r.content_type matches Some(t) ==> t@ == (match *self {
                Route::Health => "text/plain"@,
                Route::Data | Route::RandomData => "application/json"@,
                _ => "text/html; charset=utf-8"@,
            }),
            (r.content_type is Some) == !(*self == Route::MethodNotAllowed || *self == Route::NotFound),
    {
        match self {
            Route::MethodNotAllowed => ResponseHead { status: 405, reason: "Method Not Allowed", content_type: None },
            Route::NotFound => ResponseHead { status: 404, reason: "Not Found", content_type: None },
            Route::Health => ResponseHead { status: 200, reason: "OK", content_type: Some("text/plain") },
            Route::Data | Route::RandomData => ResponseHead {
                status: 200,
                reason: "OK",
                content_type: Some("application/json"),
            },
            Route::Index | Route::Demo => ResponseHead {
                status: 200,
                reason: "OK",
                content_type: Some("text/html; charset=utf-8"),
            },
        }
    }
}

/// The page that shows the station's latest readings.
#[derive(Debug, Clone, Copy, PartialEq, Eq)]
pub struct IndexTemplate {
    data: Data,
}

impl IndexTemplate {
    /// The page for the given readings.
    pub fn new(data: Data) -> (r: Self)
        ensures
            r@ == data,
    {
        IndexTemplate { data }
    }

    /// The readings the page shows.
    pub fn data(&self) -> (r: Data)
        ensures
            r == self@,
    {
        self.data
    }
}

impl View for IndexTemplate {
    type V = Data;

    closed spec fn view(&self) -> Data {
        self.data
    }
}

/// The page that shows made-up readings.
#[derive(Debug, Clone, Copy, PartialEq, Eq)]
pub struct DemoTemplate {
    data: Data,
}

impl DemoTemplate {
    /// The page for the given readings.
    pub fn new(data: Data) -> (r: Self)
        ensures
            r@ == data,
    {
        DemoTemplate { data }
    }

    /// The readings the page shows.
    pub fn data(&self) -> (r: Data)
        ensures
            r == self@,
    {
        self.data
    }
}

impl View for DemoTemplate {
    type V = Data;

    closed spec fn view(&self) -> Data {
        self.data
    }
}

} // verus!
