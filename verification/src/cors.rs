//! The cross-origin policy: one fixed origin may call, and a pre-flight request
//! is answered on the spot.

use vstd::prelude::*;

use crate::text::str_eq;

verus! {

/// What to do with a request, as far as cross-origin access goes.
#[derive(Debug, PartialEq, Eq)]
pub enum CorsAction {
    /// Hand the request on, and add this header, name and value, to the
    /// response that comes back.
    Forward((String, String)),
    /// Answer at once with this status, these headers and an empty body.
    Answer(u16, Vec<(String, String)>),
}

/// A `CorsAction` with its texts as sequences.
pub enum CorsActionView {
    Forward((Seq<char>, Seq<char>)),
    Answer(u16, Seq<(Seq<char>, Seq<char>)>),
}

impl View for CorsAction {
    type V = CorsActionView;

    open spec fn view(&self) -> CorsActionView {
        match self {
            CorsAction::Forward(header) => CorsActionView::Forward(header.deep_view()),
            CorsAction::Answer(status, headers) => CorsActionView::Answer(
                *status,
                headers.deep_view(),
            ),
        }
    }
}

/// The header that names the one origin allowed to call.
pub open spec fn allow_origin() -> (Seq<char>, Seq<char>) {
    ("Access-Control-Allow-Origin"@, "http://localhost:5173"@)
}

/// The policy. A pre-flight request, one whose method is `OPTIONS`, gets
/// status 204 with the allowed origin, any method, any header, and a day for
/// which the answer may be kept. Any other request goes on, and its response
/// gets the allowed origin.
pub open spec fn cors_policy(method: Seq<char>) -> CorsActionView {
    if method == "OPTIONS"@ {
        CorsActionView::Answer(
            204,
            seq![
                allow_origin(),
                ("Access-Control-Allow-Methods"@, "*"@),
                ("Access-Control-Allow-Headers"@, "*"@),
                ("Access-Control-Max-Age"@, "86400"@),
            ],
        )
    } else {
        CorsActionView::Forward(allow_origin())
    }
}

fn header(name: &str, value: &str) -> (pair: (String, String))
    ensures
        pair.deep_view() == (name@, value@),
{
    (name.to_owned(), value.to_owned())
}

/// Applies the cross-origin policy to a request with the given method.
pub fn cors_middleware(method: &str) -> (action: CorsAction)
    ensures
        action@ == cors_policy(method@),
{
    if !str_eq(method, "OPTIONS") {
        return CorsAction::Forward(header("Access-Control-Allow-Origin", "http://localhost:5173"));
    }
    let mut headers: Vec<(String, String)> = Vec::new();
    headers.push(header("Access-Control-Allow-Origin", "http://localhost:5173"));
    headers.push(header("Access-Control-Allow-Methods", "*"));
    headers.push(header("Access-Control-Allow-Headers", "*"));
    headers.push(header("Access-Control-Max-Age", "86400"));
    proof {
        assert(headers.deep_view() =~= cors_policy(method@)->Answer_1);
    }
    CorsAction::Answer(204, headers)
}

} // verus!
