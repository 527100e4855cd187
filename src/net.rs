//! The requests the client sends to its backend, and how it reads the replies.
use vstd::prelude::*;
use vstd::string::*;
use crate::json::{
    compact_json, json_compact, json_error, json_quoted, json_string_member, json_syntax_error,
    opt_text, quote_json, string_member, url_encode, url_encoded,
};
use crate::text::{joined, push_char};

verus! {

/// The backend used when none is configured.
pub open spec fn default_backend() -> Seq<char> {
    "http://host.docker.internal:8080"@
}

/// The backend's base URL: the configured one, else the default.
pub fn backend_base(configured: Option<String>) -> (r: String)
    ensures
        r@ == match configured {
            Some(b) => b@,
            None => default_backend(),
        },
{
    match configured {
        Some(b) => b,
        None => String::from_str("http://host.docker.internal:8080"),
    }
}

/// The two requests that obtain a token.
#[derive(Clone, Copy, Debug, PartialEq, Eq, Structural)]
pub enum AuthKind {
    Login,
    Register,
}

/// The path of an authentication endpoint.
pub open spec fn auth_path(kind: AuthKind) -> Seq<char> {
    match kind {
        AuthKind::Login => "/auth/login"@,
        AuthKind::Register => "/auth/register"@,
    }
}

/// The word that starts the status lines of an authentication request.
pub open spec fn auth_label(kind: AuthKind) -> Seq<char> {
    match kind {
        AuthKind::Login => "Login"@,
        AuthKind::Register => "Register"@,
    }
}

/// The URL of an authentication endpoint.
pub fn auth_url(base: &str, kind: AuthKind) -> (r: String)
    ensures
        r@ == base@ + auth_path(kind),
{
    match kind {
        AuthKind::Login => joined(base, "/auth/login"),
        AuthKind::Register => joined(base, "/auth/register"),
    }
}

/// The URL of a ticker search, the ticker percent-encoded.
pub fn search_url(base: &str, ticker: &str) -> (r: String)
    ensures
        r@ == base@ + "/search?ticker="@ + url_encoded(ticker@),
{
    let mut r = joined(base, "/search?ticker=");
    let enc = url_encode(ticker);
    r.append(enc.as_str());
    r
}

/// The value of the `Authorization` header that carries a token.
pub fn bearer_header(token: &str) -> (r: String)
    ensures
        r@ == "Bearer "@ + token@,
{
    joined("Bearer ", token)
}

/// The JSON document that carries credentials, members in key order.
pub open spec fn credentials_doc(username: Seq<char>, password: Seq<char>) -> Seq<char> {
    "{\"password\":"@ + json_quoted(password) + ",\"username\":"@ + json_quoted(username) + "}"@
}

/// The body of a login or registration request.
pub fn credentials_body(username: &str, password: &str) -> (r: String)
    ensures
        r@ == credentials_doc(username@, password@),
{
    let mut r = String::from_str("{\"password\":");
    let p = quote_json(password);
    r.append(p.as_str());
    r.append(",\"username\":");
    let u = quote_json(username);
    r.append(u.as_str());
    r.append("}");
    r
}

/// Whether an HTTP status code reports success (the 2xx range).
pub fn is_success(code: u16) -> (r: bool)
    ensures
        r == (200 <= code <= 299),
{
    200 <= code && code <= 299
}

/// The character of a decimal digit.
pub open spec fn digit_char(d: nat) -> char {
    if d == 0 {
        '0'
    } else if d == 1 {
        '1'
    } else if d == 2 {
        '2'
    } else if d == 3 {
        '3'
    } else if d == 4 {
        '4'
    } else if d == 5 {
        '5'
    } else if d == 6 {
        '6'
    } else if d == 7 {
        '7'
    } else if d == 8 {
        '8'
    } else {
        '9'
    }
}

/// A number written in decimal, without leading zeros.
pub open spec fn decimal(n: nat) -> Seq<char>
    decreases n,
{
    if n < 10 {
        seq![digit_char(n)]
    } else {
        decimal(n / 10).push(digit_char(n % 10))
    }
}

fn digit(d: u16) -> (c: char)
    requires
        d < 10,
    ensures
        c == digit_char(d as nat),
{
    if d == 0 {
        '0'
    } else if d == 1 {
        '1'
    } else if d == 2 {
        '2'
    } else if d == 3 {
        '3'
    } else if d == 4 {
        '4'
    } else if d == 5 {
        '5'
    } else if d == 6 {
        '6'
    } else if d == 7 {
        '7'
    } else if d == 8 {
        '8'
    } else {
        '9'
    }
}

fn push_decimal(out: &mut String, n: u16)
    ensures
        final(out)@ == old(out)@ + decimal(n as nat),
    decreases n,
{
    if n >= 10 {
        push_decimal(out, n / 10);
    }
    push_char(out, digit(n % 10));
}

/// The error text of a reply whose status reports failure.
pub open spec fn http_error(code: nat, body: Seq<char>) -> Seq<char> {
    "HTTP "@ + decimal(code) + ": "@ + body
}

/// What the client reads of a JSON reply: its `token` member, when that is
/// a string, and the reply in compact form, as a status line shows it.
#[derive(Debug)]
pub struct Reply {
    pub token: Option<String>,
    pub shown: String,
}

/// The model of a reply.
pub struct ReplyModel {
    pub token: Option<Seq<char>>,
    pub shown: Seq<char>,
}

impl View for Reply {
    type V = ReplyModel;

    open spec fn view(&self) -> ReplyModel {
        ReplyModel { token: opt_text(self.token), shown: self.shown@ }
    }
}

/// What is read of a reply body that `serde_json` accepts.
pub open spec fn reply_of(body: Seq<char>) -> ReplyModel {
    ReplyModel {
        token: json_string_member(body, "token"@),
        shown: json_compact(body),
    }
}

/// The error text of a body that `serde_json` refuses for `reason`.
pub open spec fn parse_error(reason: Seq<char>, body: Seq<char>) -> Seq<char> {
    "parse json: "@ + reason + " - raw: "@ + body
}

/// The result of reading a reply with status `code` and body `body`.
pub open spec fn reply_result(code: nat, body: Seq<char>) -> Result<ReplyModel, Seq<char>> {
    if !(200 <= code <= 299) {
        Err(http_error(code, body))
    } else {
        match json_error(body) {
            Some(reason) => Err(parse_error(reason, body)),
            None => Ok(reply_of(body)),
        }
    }
}

/// Reads a reply: a failing status gives `HTTP <code>: <body>`; otherwise
/// the body must be JSON, else `parse json: <reason> - raw: <body>`.
pub fn read_reply(code: u16, body: &str) -> (r: Result<Reply, String>)
    ensures
        match r {
            Ok(rep) => reply_result(code as nat, body@) == Ok::<ReplyModel, Seq<char>>(rep@),
            Err(e) => reply_result(code as nat, body@) == Err::<ReplyModel, Seq<char>>(e@),
        },
{
    if !is_success(code) {
        let mut e = String::from_str("HTTP ");
        push_decimal(&mut e, code);
        e.append(": ");
        e.append(body);
        return Err(e);
    }
    match json_syntax_error(body) {
        Some(reason) => {
            let mut e = String::from_str("parse json: ");
            e.append(reason.as_str());
            e.append(" - raw: ");
            e.append(body);
            Err(e)
        },
        None => Ok(Reply { token: string_member(body, "token"), shown: compact_json(body) }),
    }
}

} // verus!
