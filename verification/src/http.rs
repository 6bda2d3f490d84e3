//! The exposure routes and the CORS response layer, as pure computation:
//! the liveness route, the snapshot route, and the header layer that every
//! outgoing response passes through. The transport itself lives outside
//! the library.

use crate::item::LogItem;
use crate::json::json_array;
use crate::json::render_logs;
use crate::sink::LogServer;
use vstd::prelude::*;

verus! {

/// An HTTP response as the exposure layer shapes it: a status code, the
/// response headers in order, and the body text.
pub struct HttpResponse {
    pub status: u16,
    pub headers: Vec<(String, String)>,
    pub body: String,
}

/// A header as a pair of character sequences: name and value.
pub open spec fn header_view(h: (String, String)) -> (Seq<char>, Seq<char>) {
    (h.0@, h.1@)
}

/// The CORS response layer: every outgoing response receives the four
/// cross-origin headers, and its status is forced to 200 regardless of
/// what the route produced.
pub struct CORS;

impl CORS {
    /// The four cross-origin headers, in the order they are added.
    pub open spec fn spec_headers() -> Seq<(Seq<char>, Seq<char>)> {
        seq![
            ("Access-Control-Allow-Origin"@, "*"@),
            ("Access-Control-Allow-Methods"@, "POST, GET, PATCH, OPTIONS, DELETE"@),
            ("Access-Control-Allow-Headers"@, "*"@),
            ("Access-Control-Allow-Credentials"@, "true"@),
        ]
    }

    /// The four cross-origin headers as name/value pairs, in order.
    pub fn headers() -> (r: Vec<(String, String)>)
        ensures
            r@.map_values(|h: (String, String)| header_view(h)) == Self::spec_headers(),
    {
        let mut r: Vec<(String, String)> = Vec::new();
        r.push((String::from_str("Access-Control-Allow-Origin"), String::from_str("*")));
        r.push(
            (
                String::from_str("Access-Control-Allow-Methods"),
                String::from_str("POST, GET, PATCH, OPTIONS, DELETE"),
            ),
        );
        r.push((String::from_str("Access-Control-Allow-Headers"), String::from_str("*")));
        r.push((String::from_str("Access-Control-Allow-Credentials"), String::from_str("true")));
        proof {
            assert(r@.map_values(|h: (String, String)| header_view(h)) =~= Self::spec_headers());
        }
        r
    }

    /// Adds the four cross-origin headers to a response and forces its
    /// status to 200, leaving the body untouched.
    pub fn apply(resp: &mut HttpResponse)
        ensures
            final(resp).status == 200,
            final(resp).body == old(resp).body,
            final(resp).headers@.map_values(|h: (String, String)| header_view(h)) == old(
                resp,
            ).headers@.map_values(|h: (String, String)| header_view(h)) + Self::spec_headers(),
            has_cors_headers(*final(resp)),
    {
        resp.headers.push(
            (String::from_str("Access-Control-Allow-Origin"), String::from_str("*")),
        );
        resp.headers.push(
            (
                String::from_str("Access-Control-Allow-Methods"),
                String::from_str("POST, GET, PATCH, OPTIONS, DELETE"),
            ),
        );
        resp.headers.push(
            (String::from_str("Access-Control-Allow-Headers"), String::from_str("*")),
        );
        resp.headers.push(
            (String::from_str("Access-Control-Allow-Credentials"), String::from_str("true")),
        );
        resp.status = 200;
        proof {
            let f = |h: (String, String)| header_view(h);
            let mapped = resp.headers@.map_values(f);
            let prior = old(resp).headers@.map_values(f);
            assert(mapped =~= prior + Self::spec_headers());
            assert forall|i: int| 0 <= i < Self::spec_headers().len() implies mapped.contains(
                #[trigger] Self::spec_headers()[i],
            ) by {
                assert(mapped[prior.len() + i] == Self::spec_headers()[i]);
            }
        }
    }
}

/// The response carries each of the four cross-origin headers.
pub open spec fn has_cors_headers(r: HttpResponse) -> bool {
    forall|i: int| 0 <= i < CORS::spec_headers().len() ==> r.headers@.map_values(
        |h: (String, String)| header_view(h),
    ).contains(#[trigger] CORS::spec_headers()[i])
}

/// The liveness route: a plain-text marker, no buffer access.
pub fn index() -> (r: &'static str)
    ensures
        r@ == "Logserver online"@,
{
    "Logserver online"
}

/// The snapshot route: a 200 status and the buffered records, oldest
/// first, to be rendered as JSON.
pub fn logs(server: &LogServer) -> (r: (u16, Vec<LogItem>))
    ensures
        r.0 == 200,
        r.1@.map_values(|it: LogItem| it@) == server@,
{
    (200, server.snapshot())
}

/// The complete liveness response as it leaves the server: status 200,
/// the marker body, and the four cross-origin headers.
pub fn respond_index() -> (r: HttpResponse)
    ensures
        r.status == 200,
        r.body@ == "Logserver online"@,
        r.headers@.map_values(|h: (String, String)| header_view(h)) == CORS::spec_headers(),
        has_cors_headers(r),
{
    let mut resp = HttpResponse {
        status: 200,
        headers: Vec::new(),
        body: String::from_str(index()),
    };
    CORS::apply(&mut resp);
    proof {
        assert(resp.headers@.map_values(|h: (String, String)| header_view(h))
            =~= CORS::spec_headers());
    }
    resp
}

/// The complete snapshot response as it leaves the server: status 200,
/// the buffered records as a JSON array (the empty buffer yields `[]`),
/// and the four cross-origin headers.
pub fn respond_logs(server: &LogServer) -> (r: HttpResponse)
    ensures
        r.status == 200,
        r.body@ == json_array(server@),
        r.headers@.map_values(|h: (String, String)| header_view(h)) == CORS::spec_headers(),
        has_cors_headers(r),
{
    let (_status, items) = logs(server);
    let body = render_logs(&items);
    let mut resp = HttpResponse { status: 200, headers: Vec::new(), body };
    CORS::apply(&mut resp);
    proof {
        assert(resp.headers@.map_values(|h: (String, String)| header_view(h))
            =~= CORS::spec_headers());
    }
    resp
}

} // verus!
