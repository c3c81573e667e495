//! The HTTP-01 responder: which request gets the key authorization, and
//! which gets nothing.

use crate::text::same_text;
use vstd::prelude::*;

verus! {

/// The address that the responder listens on.
pub const RESPONDER_ADDRESS: &'static str = "0.0.0.0:80";

/// The path under which the server looks for the key authorization of a
/// token.
pub open spec fn challenge_path(token: Seq<char>) -> Seq<char> {
    "/.well-known/acme-challenge/"@ + token
}

pub struct ReplyView {
    pub status: u16,
    pub content_type: Option<Seq<char>>,
    pub body: Seq<char>,
}

/// What the responder answers: the status code, the media type of the body
/// if there is one, and the body.
#[derive(Debug)]
pub struct Reply {
    pub status: u16,
    pub content_type: Option<String>,
    pub body: String,
}

impl View for Reply {
    type V = ReplyView;

    open spec fn view(&self) -> ReplyView {
        ReplyView {
            status: self.status,
            content_type: self.content_type.deep_view(),
            body: self.body@,
        }
    }
}

/// The answer to one request: the key authorization as plain text for a
/// `GET` of the challenge path, and 404 for every other request.
pub open spec fn reply_to(
    token: Seq<char>,
    key_authorization: Seq<char>,
    method: Seq<char>,
    raw_url: Seq<char>,
) -> ReplyView {
    if method == "GET"@ && raw_url == challenge_path(token) {
        ReplyView {
            status: 200,
            content_type: Some("text/plain; charset=utf-8"@),
            body: key_authorization,
        }
    } else {
        ReplyView { status: 404, content_type: None, body: Seq::empty() }
    }
}

/// Every request but a `GET` of the exact challenge path is answered with
/// 404 and an empty body.
pub proof fn lemma_other_requests_get_404(
    token: Seq<char>,
    key_authorization: Seq<char>,
    method: Seq<char>,
    raw_url: Seq<char>,
)
    requires
        method != "GET"@ || raw_url != challenge_path(token),
    ensures
        reply_to(token, key_authorization, method, raw_url).status == 404,
        reply_to(token, key_authorization, method, raw_url).body.len() == 0,
        reply_to(token, key_authorization, method, raw_url).content_type is None,
{
}

/// The responder's snapshot of one challenge: the token and the key
/// authorization that belongs to it.
pub struct ChallengeResponder {
    token: String,
    key_authorization: String,
}

impl ChallengeResponder {
    /// The token that the responder serves.
    pub closed spec fn token(self) -> Seq<char> {
        self.token@
    }

    /// The key authorization that the responder serves.
    pub closed spec fn key_authorization(self) -> Seq<char> {
        self.key_authorization@
    }

    pub fn new(token: String, key_authorization: String) -> (responder: ChallengeResponder)
        ensures
            responder.token() == token@,
            responder.key_authorization() == key_authorization@,
    {
        ChallengeResponder { token, key_authorization }
    }

    /// The path that the responder serves.
    pub fn path(&self) -> (path: String)
        ensures
            path@ == challenge_path(self.token()),
    {
        String::from_str("/.well-known/acme-challenge/").concat(self.token.as_str())
    }

    /// Answers one request, given its method and its URL as it was sent.
    pub fn respond(&self, method: &str, raw_url: &str) -> (reply: Reply)
        ensures
            reply@ == reply_to(self.token(), self.key_authorization(), method@, raw_url@),
    {
        if same_text(method, "GET") && same_text(raw_url, self.path().as_str()) {
            Reply {
                status: 200,
                content_type: Some(String::from_str("text/plain; charset=utf-8")),
                body: self.key_authorization.clone(),
            }
        } else {
            Reply { status: 404, content_type: None, body: String::new() }
        }
    }
}

} // verus!
