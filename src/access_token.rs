//! A cache for the access token that authorises requests to the payment API.
//!
//! The server honours a token for an hour. The cache hands out the token it holds for 55
//! minutes after fetching it, and asks for a fresh one after that.
//!
//! The cache decides and the caller acts: `token` says whether the held token can be used or
//! a fresh one must be fetched (and with which `Authorization` header); the caller performs
//! the request and hands the reply to `accept_reply`, which stores the new token or reports
//! why there is none. Time is a reading of a monotonic clock in milliseconds, supplied by the
//! caller.

use vstd::prelude::*;

verus! {

/// Age, in milliseconds, from which a cached token is no longer handed out: 55 minutes, a margin
/// under the hour for which the server honours it.
pub const TOKEN_LIFETIME_MS: u64 = 3300000;

/// What `base64::encode` makes of the UTF-8 bytes of a string.
pub uninterp spec fn base64_of(s: Seq<char>) -> Seq<char>;

/// What a response body says of the token: `Err` with the parser's message where the body is
/// not JSON, `Ok(None)` where it holds no `access_token` string, `Ok(Some(t))` where that
/// string is `t`.
pub uninterp spec fn json_access_token(body: Seq<char>) -> Result<Option<Seq<char>>, Seq<char>>;

/// Relies on `base64::encode`: the standard alphabet with padding, a function of the bytes
/// alone. It panics only where the encoded length overflows `usize`, which the bound excludes.
#[verifier::external_body]
fn encode_base64(s: &str) -> (r: String)
    requires
        s@.len() <= usize::MAX / 8,
    ensures
        r@ == base64_of(s@),
{
    base64::encode(s)
}

/// Relies on `serde_json::from_str` into a `serde_json::Value` and on `Value::get` of the
/// `access_token` key: the body either fails to parse, with an error whose message is kept, or
/// parses to a value that holds a string under that key or not.
#[verifier::external_body]
fn parse_access_token(body: &str) -> (r: Result<Option<String>, String>)
    ensures
        json_access_token(body@) == parsed_view(&r),
{
    match serde_json::from_str::<serde_json::Value>(body) {
        Ok(v) => match v.get("access_token") {
            Some(serde_json::Value::String(t)) => Ok(Some(t.clone())),
            _ => Ok(None),
        },
        Err(e) => Err(e.to_string()),
    }
}

/// The view of what the body parser returned.
pub open spec fn parsed_view(r: &Result<Option<String>, String>) -> Result<Option<Seq<char>>, Seq<char>> {
    match r {
        Ok(Some(t)) => Ok(Some(t@)),
        Ok(None) => Ok(None),
        Err(d) => Err(d@),
    }
}

/// The `Authorization` header value that goes with a request for a token.
pub open spec fn basic_authorization(credentials: Seq<char>) -> Seq<char> {
    "Basic "@ + credentials
}

/// The description of a body that parses but holds no token.
pub open spec fn missing_token_description() -> Seq<char> {
    "the response body holds no access_token string"@
}

/// Whether an HTTP status is a success (2xx).
pub open spec fn is_success(status: u16) -> bool {
    200 <= status <= 299
}

/// Why no token could be had.
///
/// A deadline on the whole request, and refusing an empty token, are natural extensions;
/// neither is made here, so neither has a variant.
#[derive(Debug, Clone)]
pub enum MpesaAccessTokenError {
    /// The request did not complete; carries the transport's description of the cause.
    RetrievalConnectionError(String),
    /// The server answered with a status other than success; carries the status.
    RetrievalInvalidResponseError(u16),
    /// The server answered with success but the body holds no token; carries a description.
    InvalidAccessToken(String),
}

/// The model of an `MpesaAccessTokenError`.
pub ghost enum TokenErrorView {
    Connection(Seq<char>),
    InvalidResponse(u16),
    InvalidToken(Seq<char>),
}

impl View for MpesaAccessTokenError {
    type V = TokenErrorView;

    open spec fn view(&self) -> TokenErrorView {
        match self {
            MpesaAccessTokenError::RetrievalConnectionError(c) => TokenErrorView::Connection(c@),
            MpesaAccessTokenError::RetrievalInvalidResponseError(s) => TokenErrorView::InvalidResponse(*s),
            MpesaAccessTokenError::InvalidAccessToken(d) => TokenErrorView::InvalidToken(d@),
        }
    }
}

/// The model of the result of a refresh.
pub open spec fn outcome_view(r: &Result<String, MpesaAccessTokenError>) -> Result<Seq<char>, TokenErrorView> {
    match r {
        Ok(t) => Ok(t@),
        Err(e) => Err(e@),
    }
}

/// What came back from a request for a token.
#[derive(Debug, Clone)]
pub enum TokenReply {
    /// The server answered with this status and body.
    Received { status: u16, body: String },
    /// The request did not complete; carries the transport's description of the cause.
    Failed(String),
}

/// The model of a `TokenReply`.
pub ghost enum TokenReplyView {
    Received { status: u16, body: Seq<char> },
    Failed(Seq<char>),
}

impl View for TokenReply {
    type V = TokenReplyView;

    open spec fn view(&self) -> TokenReplyView {
        match self {
            TokenReply::Received { status, body } => TokenReplyView::Received { status: *status, body: body@ },
            TokenReply::Failed(c) => TokenReplyView::Failed(c@),
        }
    }
}

/// The result of a refresh, given what the body parser made of the body.
pub open spec fn parsed_outcome(parsed: Result<Option<Seq<char>>, Seq<char>>) -> Result<Seq<char>, TokenErrorView> {
    match parsed {
        Ok(Some(t)) => Ok(t),
        Ok(None) => Err(TokenErrorView::InvalidToken(missing_token_description())),
        Err(d) => Err(TokenErrorView::InvalidToken(d)),
    }
}

/// The result of a refresh, given the reply to the request.
pub open spec fn reply_outcome(reply: TokenReplyView) -> Result<Seq<char>, TokenErrorView> {
    match reply {
        TokenReplyView::Failed(c) => Err(TokenErrorView::Connection(c)),
        TokenReplyView::Received { status, body } => {
            if is_success(status) {
                parsed_outcome(json_access_token(body))
            } else {
                Err(TokenErrorView::InvalidResponse(status))
            }
        },
    }
}

/// What to do for a token: use the one held, or fetch one with the given `Authorization`
/// header value.
#[derive(Debug, Clone)]
pub enum TokenStep {
    Cached(String),
    Fetch(String),
}

/// The model of a `TokenStep`.
pub ghost enum TokenStepView {
    Cached(Seq<char>),
    Fetch(Seq<char>),
}

impl View for TokenStep {
    type V = TokenStepView;

    open spec fn view(&self) -> TokenStepView {
        match self {
            TokenStep::Cached(t) => TokenStepView::Cached(t@),
            TokenStep::Fetch(h) => TokenStepView::Fetch(h@),
        }
    }
}

/// The model of the cache: the encoded credentials, and the token held with the time it was
/// fetched, if any.
pub ghost struct AccessTokenView {
    pub cached: Option<(Seq<char>, u64)>,
    pub credentials: Seq<char>,
}

impl AccessTokenView {
    /// Whether the held token may still be handed out at `now`.
    pub open spec fn valid_at(self, now: u64) -> bool {
        match self.cached {
            Some((_, fetched_at)) => (now as int) < fetched_at as int + TOKEN_LIFETIME_MS as int,
            None => false,
        }
    }

    /// What to do for a token at `now`.
    pub open spec fn step(self, now: u64) -> TokenStepView {
        if self.valid_at(now) {
            TokenStepView::Cached(self.cached.unwrap().0)
        } else {
            TokenStepView::Fetch(basic_authorization(self.credentials))
        }
    }

    /// The cache after a refresh at `now` that gave the token `t`.
    pub open spec fn refreshed(self, now: u64, t: Seq<char>) -> AccessTokenView {
        AccessTokenView { cached: Some((t, now)), credentials: self.credentials }
    }

    /// The cache after a refresh at `now` with the given result: a failure leaves it as it was.
    pub open spec fn after(self, now: u64, outcome: Result<Seq<char>, TokenErrorView>) -> AccessTokenView {
        match outcome {
            Ok(t) => self.refreshed(now, t),
            Err(_) => self,
        }
    }
}

/// The access-token cache.
///
/// Create it once, with the consumer key and secret, and keep it for as long as tokens are
/// needed, so that one token serves many requests.
#[derive(Debug)]
pub struct AccessToken {
    cached: Option<(String, u64)>,
    credentials: String,
}

impl View for AccessToken {
    type V = AccessTokenView;

    closed spec fn view(&self) -> AccessTokenView {
        AccessTokenView {
            cached: match self.cached {
                Some((t, at)) => Some((t@, at)),
                None => None,
            },
            credentials: self.credentials@,
        }
    }
}

impl AccessToken {
    /// An empty cache for the given consumer key and secret, which it keeps as the base64
    /// encoding of `key:secret`.
    pub fn new(consumer_key: String, consumer_secret: String) -> (r: AccessToken)
        requires
            consumer_key@.len() + consumer_secret@.len() < usize::MAX / 8,
        ensures
            r@ == (AccessTokenView {
                cached: None,
                credentials: base64_of(consumer_key@ + ":"@ + consumer_secret@),
            }),
    {
        proof {
            reveal_strlit(":");
        }
        let pair = consumer_key.concat(":").concat(consumer_secret.as_str());
        AccessToken { cached: None, credentials: encode_base64(pair.as_str()) }
    }

    /// The encoded credentials.
    pub fn credentials(&self) -> (r: &String)
        ensures
            r@ == self@.credentials,
    {
        &self.credentials
    }

    /// What to do for a token at `now`: hand out the held one while it is younger than
    /// `TOKEN_LIFETIME_MS`, else fetch a fresh one with `Authorization: Basic <credentials>`.
    pub fn token(&self, now: u64) -> (r: TokenStep)
        ensures
            r@ == self@.step(now),
    {
        match &self.cached {
            Some((t, fetched_at)) => {
                if (now as u128) < (*fetched_at as u128) + (TOKEN_LIFETIME_MS as u128) {
                    return TokenStep::Cached(t.clone());
                }
            },
            None => {},
        }
        TokenStep::Fetch(String::from_str("Basic ").concat(self.credentials.as_str()))
    }

    /// Takes in what the body parser made of a successful reply received at `now`: stores the
    /// token and returns it, or reports why there is none and leaves the cache as it was.
    pub fn accept_token(&mut self, now: u64, parsed: Result<Option<String>, String>) -> (r: Result<
        String,
        MpesaAccessTokenError,
    >)
        ensures
            outcome_view(&r) == parsed_outcome(parsed_view(&parsed)),
            final(self)@ == old(self)@.after(now, outcome_view(&r)),
    {
        match parsed {
            Ok(Some(t)) => {
                self.cached = Some((t.clone(), now));
                Ok(t)
            },
            Ok(None) => {
                proof {
                    reveal_strlit("the response body holds no access_token string");
                }
                Err(
                    MpesaAccessTokenError::InvalidAccessToken(
                        String::from_str("the response body holds no access_token string"),
                    ),
                )
            },
            Err(d) => Err(MpesaAccessTokenError::InvalidAccessToken(d)),
        }
    }

    /// Takes in the reply to a request for a token made at `now`: stores the token that a
    /// successful reply carries and returns it, or reports why there is none and leaves the
    /// cache as it was.
    pub fn accept_reply(&mut self, now: u64, reply: TokenReply) -> (r: Result<
        String,
        MpesaAccessTokenError,
    >)
        ensures
            outcome_view(&r) == reply_outcome(reply@),
            final(self)@ == old(self)@.after(now, outcome_view(&r)),
    {
        match reply {
            TokenReply::Failed(c) => Err(MpesaAccessTokenError::RetrievalConnectionError(c)),
            TokenReply::Received { status, body } => {
                if 200 <= status && status <= 299 {
                    let parsed = parse_access_token(body.as_str());
                    self.accept_token(now, parsed)
                } else {
                    Err(MpesaAccessTokenError::RetrievalInvalidResponseError(status))
                }
            },
        }
    }
}

/// After a successful refresh at `fetched_at`, any two requests for a token made before the
/// lifetime runs out are both answered from the cache, with the token that the refresh
/// stored; answering leaves the cache as it is, so neither fetches.
pub proof fn lemma_fresh_token_reused(
    s: AccessTokenView,
    fetched_at: u64,
    reply: TokenReplyView,
    now1: u64,
    now2: u64,
)
    requires
        reply_outcome(reply) is Ok,
        fetched_at <= now1,
        fetched_at <= now2,
        now1 < fetched_at + TOKEN_LIFETIME_MS,
        now2 < fetched_at + TOKEN_LIFETIME_MS,
    ensures
        ({
            let t = reply_outcome(reply)->Ok_0;
            let c = s.after(fetched_at, reply_outcome(reply));
            &&& c.step(now1) == TokenStepView::Cached(t)
            &&& c.step(now2) == TokenStepView::Cached(t)
        }),
{
}

/// A request for a token made once the lifetime of the held one has run out fetches, and a
/// successful reply whose body holds the `access_token` string `t` yields exactly `t`; from
/// then on `t` is handed out without fetching again.
pub proof fn lemma_stale_token_refetched(
    s: AccessTokenView,
    now: u64,
    status: u16,
    body: Seq<char>,
    t: Seq<char>,
)
    requires
        s.cached is Some,
        now >= s.cached.unwrap().1 + TOKEN_LIFETIME_MS,
        is_success(status),
        json_access_token(body) == Ok::<Option<Seq<char>>, Seq<char>>(Some(t)),
    ensures
        s.step(now) == TokenStepView::Fetch(basic_authorization(s.credentials)),
        reply_outcome(TokenReplyView::Received { status, body }) == Ok::<Seq<char>, TokenErrorView>(t),
        s.after(now, Ok(t)) == s.refreshed(now, t),
        s.refreshed(now, t).step(now) == TokenStepView::Cached(t),
{
}

} // verus!
