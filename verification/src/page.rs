//! The default maintenance page.

use crate::response::MaintenanceResponse;
use axum::body::Body;
use axum::http::Response;
use vstd::pervasive::unreached;
use vstd::prelude::*;

verus! {

/// `http::Error`, what the response builder fails with.
#[verifier::external_type_specification]
#[verifier::external_body]
pub struct ExHttpError(axum::http::Error);

/// The status of the default maintenance response: 503 Service Unavailable.
pub open spec fn default_status() -> u16 {
    503
}

/// The name of the one header of the default maintenance response.
pub open spec fn default_header_name() -> Seq<char> {
    "Content-Type"@
}

/// The value of the one header of the default maintenance response.
pub open spec fn default_header_value() -> Seq<char> {
    "text/html"@
}

/// The body of the default maintenance response.
pub open spec fn default_body() -> Seq<char> {
    "<h1>Maintenance</h1><p>Site is under maintenance. Please try again later.</p>"@
}

/// Whether `status` is a status code that `http` accepts: three digits.
pub open spec fn is_status_code(status: u16) -> bool {
    100 <= status <= 999
}

/// Whether `c` is a token character: a letter, a digit, or one of
/// ``!#$%&'*+-.^_`|~``.
pub open spec fn is_token_char(c: char) -> bool {
    ||| 'a' <= c <= 'z'
    ||| 'A' <= c <= 'Z'
    ||| '0' <= c <= '9'
    ||| c == '!' || c == '#' || c == '$' || c == '%' || c == '&' || c == '\''
    ||| c == '*' || c == '+' || c == '-' || c == '.' || c == '^' || c == '_'
    ||| c == '`' || c == '|' || c == '~'
}

/// Whether `name` is a token of at most 65535 characters, which is what
/// `http` accepts as a header name.
pub open spec fn is_token(name: Seq<char>) -> bool {
    &&& 1 <= name.len() <= 65535
    &&& forall|i: int| 0 <= i < name.len() ==> is_token_char(#[trigger] name[i])
}

/// Whether `value` is made of visible ASCII characters and spaces, all of
/// which `http` accepts in a header value.
pub open spec fn is_visible_ascii(value: Seq<char>) -> bool {
    forall|i: int| 0 <= i < value.len() ==> ' ' <= #[trigger] value[i] <= '~'
}

/// A status and a header of which `http`'s builder is sure to make a
/// response.
pub open spec fn can_render(status: u16, name: Seq<char>, value: Seq<char>) -> bool {
    is_status_code(status) && is_token(name) && is_visible_ascii(value)
}

/// The response that `http`'s builder makes of a status, one header and a
/// body, where it makes one.
pub uninterp spec fn rendered(status: u16, name: Seq<char>, value: Seq<char>, body: Seq<char>) -> Response<Body>;

/// The default maintenance response: status 503, the header
/// `Content-Type: text/html`, and a short page that says so.
pub open spec fn default_page() -> Response<Body> {
    rendered(default_status(), default_header_name(), default_header_value(), default_body())
}

/// Builds a response with `http`'s builder: `Response::builder()`, then
/// `status`, `header` and `body` on it, the body made by `Body::from`.
///
/// Trusted. The builder succeeds where the status has three digits, the
/// header name is a token of at most 65535 characters and the header value
/// is made of visible ASCII characters and spaces. What it builds depends
/// on the four arguments alone.
#[verifier::external_body]
fn render(status: u16, name: &str, value: &str, body: &'static str) -> (built: Result<
    Response<Body>,
    axum::http::Error,
>)
    ensures
        can_render(status, name@, value@) ==> built is Ok,
        built matches Ok(response) ==> response == rendered(status, name@, value@, body@),
{
    Response::builder().status(status).header(name, value).body(Body::from(body))
}

/// Builds the default maintenance response.
pub fn default_response() -> (response: Response<Body>)
    ensures
        response == default_page(),
{
    proof {
        reveal_strlit("Content-Type");
        reveal_strlit("text/html");
    }
    match render(
        503,
        "Content-Type",
        "text/html",
        "<h1>Maintenance</h1><p>Site is under maintenance. Please try again later.</p>",
    ) {
        Ok(response) => response,
        Err(_) => unreached(),
    }
}

/// The generator that a layer has when none is given to it.
#[derive(Clone, Copy, Debug, Default)]
pub struct DefaultResponse;

impl MaintenanceResponse for DefaultResponse {
    /// Builds the default maintenance response.
    fn response(&self) -> (response: Response<Body>)
        ensures
            response == default_page(),
    {
        default_response()
    }
}

} // verus!
