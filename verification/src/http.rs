//! The service's one route: `GET /` answers `200` with a fixed greeting;
//! any other path is `404`, and any other method on `/` is `405`.

use vstd::prelude::*;

verus! {

/// The request methods the router distinguishes.
#[derive(Clone, Copy, PartialEq, Eq, Structural, Debug)]
pub enum Method {
    Get,
    Head,
    Post,
    Put,
    Delete,
    Options,
    Patch,
    Trace,
}

/// An inbound request, reduced to what routing looks at. The query string is
/// carried so that the contract can say it is ignored; no headers or body are
/// ever consumed.
pub struct Request {
    pub method: Method,
    pub path: String,
    pub query: String,
}

/// An outbound response: a status code and the exact body bytes.
pub struct Response {
    pub status: u16,
    pub body: String,
}

/// The only routable path.
pub open spec fn root_path() -> Seq<char> {
    "/"@
}

/// The greeting returned by the one route.
pub open spec fn greeting() -> Seq<char> {
    "Hello, world!"@
}

/// The status the router owes a request: `200` for `GET /`, `404` off the
/// root path, `405` for a non-GET method on it.
pub open spec fn spec_status(m: Method, path: Seq<char>) -> u16 {
    if path != root_path() {
        404u16
    } else if m is Get {
        200u16
    } else {
        405u16
    }
}

/// The body the router owes a request: the greeting on success, empty on a
/// routing miss (the framework-default error responses carry no body).
pub open spec fn spec_body(m: Method, path: Seq<char>) -> Seq<char> {
    if spec_status(m, path) == 200 {
        greeting()
    } else {
        Seq::<char>::empty()
    }
}

/// `r` is the response the router owes `req`. The query string plays no part.
pub open spec fn responds(req: Request, r: Response) -> bool {
    &&& r.status == spec_status(req.method, req.path@)
    &&& r.body@ == spec_body(req.method, req.path@)
}

/// Where the server listens: all interfaces, fixed port, plain HTTP.
pub open spec fn listen_address() -> Seq<char> {
    "0.0.0.0:3000"@
}

/// The address handed to the listener.
pub fn bind_address() -> (a: String)
    ensures
        a@ == listen_address(),
{
    "0.0.0.0:3000".to_owned()
}

/// Repeated identical requests get identical responses: the response a
/// request is owed depends on its method and path alone, so handling one
/// request leaves no mark on any later one, and a query string changes
/// nothing.
pub proof fn lemma_identical_requests_identical_responses(
    req1: Request,
    req2: Request,
    r1: Response,
    r2: Response,
)
    requires
        req1.method == req2.method,
        req1.path@ == req2.path@,
        responds(req1, r1),
        responds(req2, r2),
    ensures
        r1.status == r2.status,
        r1.body@ == r2.body@,
{
}

/// Routes one request. Pure: reads nothing but the request, touches nothing.
pub fn route(req: &Request) -> (r: Response)
    ensures
        responds(*req, r),
        r.status == 200 <==> (req.method is Get && req.path@ == root_path()),
        req.path@ != root_path() ==> r.status == 404,
        req.path@ == root_path() && !(req.method is Get) ==> r.status == 405,
        r.status == 200 ==> r.body@ == greeting(),
        r.status != 200 ==> r.body@ =~= Seq::<char>::empty(),
{
    let root: String = "/".to_owned();
    if req.path == root {
        match req.method {
            Method::Get => Response { status: 200, body: "Hello, world!".to_owned() },
            _ => Response { status: 405, body: String::new() },
        }
    } else {
        Response { status: 404, body: String::new() }
    }
}

} // verus!
