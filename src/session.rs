//! Signing in: the options of a connection, the login request, and what the
//! bot reads from the login and room-state responses.
use vstd::prelude::*;
use vstd::string::StringExecFns;

use crate::json::{field, get, text_at, text_field, JsonValue};
use crate::link::{json_string, quote};

verus! {

/// Where to connect, and as whom.
#[derive(Debug, Clone)]
pub struct ConnectionOptions {
    pub api_url: String,
    pub socket_url: String,
    pub email: String,
    pub password: String,
}

/// The command line: the HTTP and socket endpoints of the server.
#[derive(Debug, Clone)]
pub struct Cli {
    pub api_url: String,
    pub socket_url: String,
    pub help: bool,
}

/// The room state holds a socket token that is neither a string nor null.
#[derive(Debug, Clone, Copy, PartialEq, Eq)]
pub struct SocketTokenError;

impl SocketTokenError {
    /// The message shown for this error.
    pub fn message(&self) -> (r: String)
        ensures
            r@ == "unexpected socket token type"@,
    {
        "unexpected socket token type".to_owned()
    }
}

/// The URL of the endpoint `endpoint` of the API at `api_url`.
pub fn endpoint_url(api_url: &str, endpoint: &str) -> (r: String)
    ensures
        r@ == api_url@ + "/"@ + endpoint@,
{
    api_url.to_owned().concat("/").concat(endpoint)
}

/// The body of the login request.
pub open spec fn login_body_text(email: Seq<char>, password: Seq<char>) -> Seq<char> {
    "{\"email\":"@ + json_string(email) + ",\"password\":"@ + json_string(password) + "}"@
}

/// The body of the login request.
pub fn login_body(email: &str, password: &str) -> (r: String)
    ensures
        r@ == login_body_text(email@, password@),
{
    let e = quote(email);
    let p = quote(password);
    "{\"email\":".to_owned().concat(e.as_str()).concat(",\"password\":").concat(p.as_str()).concat(
        "}",
    )
}

/// The token of a login response: its member `meta.jwt`, a string.
pub open spec fn jwt_in(login: JsonValue) -> Option<Seq<char>> {
    match field(login, "meta"@) {
        Some(meta) => text_at(meta, "jwt"@),
        None => None,
    }
}

/// The token of a login response.
pub fn jwt_from_login(login: &JsonValue) -> (r: Option<String>)
    ensures
        match jwt_in(*login) {
            Some(t) => r matches Some(s) && s@ == t,
            None => r is None,
        },
{
    match get(login, "meta") {
        Some(meta) => text_field(meta, "jwt"),
        None => None,
    }
}

/// The value of the header `Authorization` for the token `jwt`.
pub fn auth_header(jwt: &str) -> (r: String)
    ensures
        r@ == "JWT "@ + jwt@,
{
    "JWT ".to_owned().concat(jwt)
}

/// The socket token of the room state `now`, its member `socketToken`: none
/// where it is missing or null, the text where it is a string, and an error
/// otherwise.
pub fn socket_token(now: &JsonValue) -> (r: Result<Option<String>, SocketTokenError>)
    ensures
        match field(*now, "socketToken"@) {
            None => r matches Ok(None),
            Some(JsonValue::Null) => r matches Ok(None),
            Some(JsonValue::Str(t)) => r matches Ok(Some(s)) && s@ == t@,
            Some(_) => r is Err,
        },
{
    match get(now, "socketToken") {
        None => Ok(None),
        Some(JsonValue::Null) => Ok(None),
        Some(JsonValue::Str(t)) => Ok(Some(t.clone())),
        Some(_) => Err(SocketTokenError),
    }
}

} // verus!
