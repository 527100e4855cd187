//! The status line and the session token that finished requests write into.
//!
//! Requests run side by side; each one, when it finishes, hands a
//! [`Completion`] to [`Shared::complete`]. The last one to finish sets the
//! status line, and a token, once obtained, stays until another replaces it.
use vstd::prelude::*;
use vstd::string::*;
use crate::json::opt_text;
use crate::net::{auth_label, AuthKind, Reply, ReplyModel};
use crate::text::joined;

verus! {

/// What a finished request writes: a status line, and a new token if it got one.
pub struct Completion {
    pub status: String,
    pub token: Option<String>,
}

/// The model of a completion.
pub struct CompletionModel {
    pub status: Seq<char>,
    pub token: Option<Seq<char>>,
}

impl View for Completion {
    type V = CompletionModel;

    open spec fn view(&self) -> CompletionModel {
        CompletionModel { status: self.status@, token: opt_text(self.token) }
    }
}

/// The status line and the token, shared by the event loop and the requests.
pub struct Shared {
    pub status: String,
    pub token: Option<String>,
}

/// The model of the shared cells.
pub struct SharedModel {
    pub status: Seq<char>,
    pub token: Option<Seq<char>>,
}

impl View for Shared {
    type V = SharedModel;

    open spec fn view(&self) -> SharedModel {
        SharedModel { status: self.status@, token: opt_text(self.token) }
    }
}

/// The shared cells after a request finished.
pub open spec fn completed(s: SharedModel, c: CompletionModel) -> SharedModel {
    SharedModel {
        status: c.status,
        token: match c.token {
            Some(t) => Some(t),
            None => s.token,
        },
    }
}

impl Shared {
    /// The cells at start: status `Ready`, and the token kept from an earlier run.
    pub fn new(token: Option<String>) -> (r: Shared)
        ensures
            r@.status == "Ready"@,
            r@.token == opt_text(token),
    {
        Shared { status: String::from_str("Ready"), token }
    }

    /// Shows a status line.
    pub fn set_status(&mut self, status: String)
        ensures
            final(self)@ == (SharedModel { status: status@, ..old(self)@ }),
    {
        self.status = status;
    }

    /// Records a finished request.
    pub fn complete(&mut self, c: Completion)
        ensures
            final(self)@ == completed(old(self)@, c@),
    {
        self.status = c.status;
        match c.token {
            Some(t) => {
                self.token = Some(t);
            },
            None => {},
        }
    }

    /// The token that a request sent now carries.
    pub fn request_token(&self) -> (r: Option<String>)
        ensures
            opt_text(r) == self@.token,
    {
        match &self.token {
            Some(t) => Some(t.clone()),
            None => None,
        }
    }
}

/// The reply to a login or registration, as far as the client reads it.
pub enum AuthReply {
    /// The reply holds a token.
    Token(String),
    /// The reply is JSON without a token; it is shown as given here.
    Unexpected(String),
    /// The request failed, for the reason given.
    Failed(String),
}

/// The model of an authentication reply.
pub enum AuthReplyModel {
    Token(Seq<char>),
    Unexpected(Seq<char>),
    Failed(Seq<char>),
}

impl View for AuthReply {
    type V = AuthReplyModel;

    open spec fn view(&self) -> AuthReplyModel {
        match self {
            AuthReply::Token(t) => AuthReplyModel::Token(t@),
            AuthReply::Unexpected(v) => AuthReplyModel::Unexpected(v@),
            AuthReply::Failed(e) => AuthReplyModel::Failed(e@),
        }
    }
}

/// What a login or registration writes when it finishes.
pub open spec fn auth_completed(kind: AuthKind, reply: AuthReplyModel) -> CompletionModel {
    match reply {
        AuthReplyModel::Token(t) => CompletionModel {
            status: auth_label(kind) + " successful"@,
            token: Some(t),
        },
        AuthReplyModel::Unexpected(v) => CompletionModel {
            status: auth_label(kind) + ": unexpected response: "@ + v,
            token: None,
        },
        AuthReplyModel::Failed(e) => CompletionModel {
            status: auth_label(kind) + " failed: "@ + e,
            token: None,
        },
    }
}

/// What a login or registration writes, given how its reply was read.
pub fn auth_completion(kind: AuthKind, reply: AuthReply) -> (r: Completion)
    ensures
        r@ == auth_completed(kind, reply@),
{
    let label = match kind {
        AuthKind::Login => "Login",
        AuthKind::Register => "Register",
    };
    match reply {
        AuthReply::Token(t) => Completion { status: joined(label, " successful"), token: Some(t) },
        AuthReply::Unexpected(v) => {
            let mut s = joined(label, ": unexpected response: ");
            s.append(v.as_str());
            Completion { status: s, token: None }
        },
        AuthReply::Failed(e) => {
            let mut s = joined(label, " failed: ");
            s.append(e.as_str());
            Completion { status: s, token: None }
        },
    }
}

/// How the reply of a login or registration is read: its token when it
/// holds one, else the whole reply as unexpected.
pub open spec fn auth_read(reply: Result<ReplyModel, Seq<char>>) -> AuthReplyModel {
    match reply {
        Err(e) => AuthReplyModel::Failed(e),
        Ok(rep) => match rep.token {
            Some(t) => AuthReplyModel::Token(t),
            None => AuthReplyModel::Unexpected(rep.shown),
        },
    }
}

/// The model of a read reply, or of the reason a request failed.
pub open spec fn reply_view(reply: &Result<Reply, String>) -> Result<ReplyModel, Seq<char>> {
    match reply {
        Ok(rep) => Ok(rep@),
        Err(e) => Err(e@),
    }
}

/// Reads the reply of a login or registration.
pub fn auth_reply(reply: &Result<Reply, String>) -> (r: AuthReply)
    ensures
        r@ == auth_read(reply_view(reply)),
{
    match reply {
        Err(e) => AuthReply::Failed(e.clone()),
        Ok(rep) => match &rep.token {
            Some(t) => AuthReply::Token(t.clone()),
            None => AuthReply::Unexpected(rep.shown.clone()),
        },
    }
}

/// What a search writes when it finishes: the reply as shown, or the reason
/// it failed. A search never changes the token.
pub open spec fn search_completed(reply: Result<Seq<char>, Seq<char>>) -> CompletionModel {
    match reply {
        Ok(shown) => CompletionModel { status: "Search OK: "@ + shown, token: None },
        Err(e) => CompletionModel { status: "Search failed: "@ + e, token: None },
    }
}

/// What a search writes, given its reply as shown or the reason it failed.
pub fn search_completion(reply: Result<String, String>) -> (r: Completion)
    ensures
        r@ == search_completed(match reply {
            Ok(shown) => Ok(shown@),
            Err(e) => Err(e@),
        }),
{
    match reply {
        Ok(shown) => Completion { status: joined("Search OK: ", shown.as_str()), token: None },
        Err(e) => Completion { status: joined("Search failed: ", e.as_str()), token: None },
    }
}

/// What a search writes for its reply: the reply in compact form, or the
/// reason it failed.
pub fn search_outcome(reply: &Result<Reply, String>) -> (r: Completion)
    ensures
        r@ == search_completed(match reply_view(reply) {
            Ok(rep) => Ok(rep.shown),
            Err(e) => Err(e),
        }),
{
    match reply {
        Ok(rep) => search_completion(Ok(rep.shown.clone())),
        Err(e) => search_completion(Err(e.clone())),
    }
}

/// What a login or registration writes for its reply.
pub fn auth_outcome(kind: AuthKind, reply: &Result<Reply, String>) -> (r: Completion)
    ensures
        r@ == auth_completed(kind, auth_read(reply_view(reply))),
{
    let read = auth_reply(reply);
    auth_completion(kind, read)
}

/// Whichever of two requests finishes last sets the status line: after a
/// login and a search finish, in either order, the status is the later one's,
/// and the token is the login's when it got one, else the one held before.
pub proof fn lemma_last_completion_wins(s: SharedModel, login: CompletionModel, search: CompletionModel)
    requires
        search.token is None,
    ensures
        completed(completed(s, login), search).status == search.status,
        completed(completed(s, search), login).status == login.status,
        completed(completed(s, login), search).token == completed(completed(s, search), login).token,
        completed(completed(s, login), search).token == (match login.token {
            Some(t) => Some(t),
            None => s.token,
        }),
{
}

/// A search that finishes sets its own status line and leaves the token as
/// it was.
pub proof fn lemma_search_leaves_token(s: SharedModel, reply: Result<Seq<char>, Seq<char>>)
    ensures
        completed(s, search_completed(reply)).token == s.token,
        completed(s, search_completed(reply)).status == search_completed(reply).status,
{
}

} // verus!
