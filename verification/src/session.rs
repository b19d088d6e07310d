use vstd::prelude::*;
use crate::ApiError;

verus! {

/// The registered kind of the client application, as the token endpoint
/// distinguishes them.
#[derive(Clone, Copy, Debug, PartialEq, Eq, Structural)]
pub enum AppKind {
    Script,
    InstalledApp,
    WebApp,
}

/// The credentials a session authenticates with. Immutable once supplied.
#[derive(Debug, Clone, PartialEq)]
pub struct Credentials {
    pub username: String,
    pub password: String,
    pub app_kind: AppKind,
}

/// The outcome of one OAuth2 password-grant exchange, as the transport
/// reports it: a bearer token with its declared lifetime in seconds, or a
/// rejection of the credentials.
#[derive(Debug, Clone, PartialEq)]
pub enum GrantOutcome {
    Granted { token: String, lifetime: u64 },
    Denied,
}

/// The authentication states a session moves through.
#[derive(Debug, Clone, PartialEq)]
pub enum SessionState {
    /// No identity; requests that need one are refused.
    Anonymous,
    /// A live bearer token, valid strictly before `expires_at`.
    Authenticated { token: String, expires_at: u64 },
    /// The token expired and one grant exchange is under way.
    Reauthenticating,
    /// The credentials were rejected; no further exchange is attempted.
    Failed,
}

/// What a caller asking for a token is told.
#[derive(Debug, Clone, PartialEq)]
pub enum TokenDecision {
    /// A live token, ready to sign the request.
    Ready(String),
    /// The token expired: run one grant exchange and hand the outcome to
    /// `Session::complete_reauth`.
    NeedReauth,
    /// No token can be produced; the request must not be sent.
    Denied(ApiError),
}

/// Credential state and the current bearer token of one connection.
#[derive(Debug, Clone, PartialEq)]
pub struct Session {
    pub creds: Option<Credentials>,
    pub state: SessionState,
}

/// `a + b`, stopping at the largest representable instant.
pub open spec fn spec_sat_add(a: u64, b: u64) -> u64 {
    if a + b > u64::MAX {
        u64::MAX
    } else {
        (a + b) as u64
    }
}

/// `a + b`, stopping at the largest representable instant.
pub fn sat_add(a: u64, b: u64) -> (r: u64)
    ensures
        r == spec_sat_add(a, b),
{
    if b > u64::MAX - a {
        u64::MAX
    } else {
        a + b
    }
}

impl Session {
    /// Authorization may begin only before any identity is held or after a
    /// rejection.
    pub open spec fn can_authorize(self) -> bool {
        self.state is Anonymous || self.state is Failed
    }

    /// The session holds a token that is live at instant `now`.
    pub open spec fn has_live_token(self, now: u64) -> bool {
        match self.state {
            SessionState::Authenticated { token, expires_at } => expires_at > now,
            _ => false,
        }
    }

    /// The session after an authorization exchange at instant `now`, with
    /// what the caller is told.
    pub open spec fn spec_authorize(self, creds: Credentials, outcome: GrantOutcome, now: u64) -> (
        Session,
        Result<(), ApiError>,
    ) {
        match outcome {
            GrantOutcome::Granted { token, lifetime } => (
                Session {
                    creds: Some(creds),
                    state: SessionState::Authenticated {
                        token,
                        expires_at: spec_sat_add(now, lifetime),
                    },
                },
                Ok(()),
            ),
            GrantOutcome::Denied => (
                Session { creds: Some(creds), state: SessionState::Failed },
                Err(ApiError::Forbidden),
            ),
        }
    }

    /// The session after a token request at instant `now`, with the decision.
    pub open spec fn spec_token_for_request(self, now: u64) -> (Session, TokenDecision) {
        match self.state {
            SessionState::Anonymous => (self, TokenDecision::Denied(ApiError::Forbidden)),
            SessionState::Failed => (self, TokenDecision::Denied(ApiError::Forbidden)),
            SessionState::Reauthenticating => (self, TokenDecision::NeedReauth),
            SessionState::Authenticated { token, expires_at } => if expires_at > now {
                (self, TokenDecision::Ready(token))
            } else {
                (
                    Session { creds: self.creds, state: SessionState::Reauthenticating },
                    TokenDecision::NeedReauth,
                )
            },
        }
    }

    /// The session after the one automatic re-authentication exchange, with
    /// what the caller is told.
    pub open spec fn spec_complete_reauth(self, outcome: GrantOutcome, now: u64) -> (
        Session,
        Result<String, ApiError>,
    ) {
        match outcome {
            GrantOutcome::Granted { token, lifetime } => (
                Session {
                    creds: self.creds,
                    state: SessionState::Authenticated {
                        token,
                        expires_at: spec_sat_add(now, lifetime),
                    },
                },
                Ok(token),
            ),
            GrantOutcome::Denied => (
                Session { creds: self.creds, state: SessionState::Failed },
                Err(ApiError::Forbidden),
            ),
        }
    }

    /// A fresh, anonymous session.
    pub fn new() -> (s: Session)
        ensures
            s == (Session { creds: None::<Credentials>, state: SessionState::Anonymous }),
    {
        Session { creds: None, state: SessionState::Anonymous }
    }

    /// Records the outcome of the grant exchange run for `creds` at instant
    /// `now`. On a grant the session becomes authenticated until the
    /// declared lifetime has passed; on a rejection it fails, and the
    /// rejection is reported as `Forbidden`.
    pub fn authorize(&mut self, creds: Credentials, outcome: GrantOutcome, now: u64) -> (r: Result<
        (),
        ApiError,
    >)
        requires
            old(self).can_authorize(),
        ensures
            *final(self) == old(self).spec_authorize(creds, outcome, now).0,
            r == old(self).spec_authorize(creds, outcome, now).1,
    {
        match outcome {
            GrantOutcome::Granted { token, lifetime } => {
                self.creds = Some(creds);
                self.state = SessionState::Authenticated {
                    token,
                    expires_at: sat_add(now, lifetime),
                };
                Ok(())
            },
            GrantOutcome::Denied => {
                self.creds = Some(creds);
                self.state = SessionState::Failed;
                Err(ApiError::Forbidden)
            },
        }
    }

    /// The token to sign a request with at instant `now`. A live token is
    /// returned as it stands; an expired one moves the session to
    /// re-authentication; without an identity the request is refused as
    /// `Forbidden`.
    pub fn token_for_request(&mut self, now: u64) -> (d: TokenDecision)
        ensures
            *final(self) == old(self).spec_token_for_request(now).0,
            d == old(self).spec_token_for_request(now).1,
    {
        let expired = match &self.state {
            SessionState::Authenticated { token, expires_at } => *expires_at <= now,
            _ => false,
        };
        if expired {
            self.state = SessionState::Reauthenticating;
            return TokenDecision::NeedReauth;
        }
        match &self.state {
            SessionState::Anonymous => TokenDecision::Denied(ApiError::Forbidden),
            SessionState::Failed => TokenDecision::Denied(ApiError::Forbidden),
            SessionState::Reauthenticating => TokenDecision::NeedReauth,
            SessionState::Authenticated { token, expires_at } => TokenDecision::Ready(
                token.clone(),
            ),
        }
    }

    /// Records the outcome of the single re-authentication exchange at
    /// instant `now`: a new live token, or a failed session whose rejection
    /// is reported as `Forbidden`.
    pub fn complete_reauth(&mut self, outcome: GrantOutcome, now: u64) -> (r: Result<
        String,
        ApiError,
    >)
        requires
            old(self).state is Reauthenticating,
        ensures
            *final(self) == old(self).spec_complete_reauth(outcome, now).0,
            r == old(self).spec_complete_reauth(outcome, now).1,
    {
        match outcome {
            GrantOutcome::Granted { token, lifetime } => {
                let expires_at = sat_add(now, lifetime);
                self.state = SessionState::Authenticated { token: token.clone(), expires_at };
                Ok(token)
            },
            GrantOutcome::Denied => {
                self.state = SessionState::Failed;
                Err(ApiError::Forbidden)
            },
        }
    }
}

/// Authorizing with a granted token of positive lifetime, then immediately
/// asking for a token at the same instant, yields that token, still live.
pub proof fn lemma_fresh_token_is_live(
    s: Session,
    creds: Credentials,
    token: String,
    lifetime: u64,
    now: u64,
)
    requires
        s.can_authorize(),
        lifetime >= 1,
        now < u64::MAX,
    ensures
        ({
            let (s1, r1) = s.spec_authorize(
                creds,
                GrantOutcome::Granted { token, lifetime },
                now,
            );
            let (s2, d) = s1.spec_token_for_request(now);
            &&& r1 == Ok::<(), ApiError>(())
            &&& s1.has_live_token(now)
            &&& d == TokenDecision::Ready(token)
            &&& s2 == s1
        }),
{
}

/// An expired token triggers exactly one re-authentication attempt: the
/// token request asks for one exchange; if the credentials are rejected the
/// session fails, and later token requests are refused as `Forbidden`
/// without asking for another exchange.
pub proof fn lemma_expired_token_reauth_once(s: Session, now: u64, now2: u64, now3: u64)
    requires
        s.state matches SessionState::Authenticated { token, expires_at } && expires_at <= now,
    ensures
        ({
            let (s1, d1) = s.spec_token_for_request(now);
            let (s2, r2) = s1.spec_complete_reauth(GrantOutcome::Denied, now2);
            let (s3, d3) = s2.spec_token_for_request(now3);
            &&& d1 == TokenDecision::NeedReauth
            &&& s1.state is Reauthenticating
            &&& r2 == Err::<String, ApiError>(ApiError::Forbidden)
            &&& s2.state is Failed
            &&& d3 == TokenDecision::Denied(ApiError::Forbidden)
            &&& s3 == s2
        }),
{
}

/// Re-authentication never touches the stored credentials: every session
/// transition keeps them, once supplied, exactly as `authorize` recorded
/// them.
pub proof fn lemma_reauth_keeps_credentials(s: Session, outcome: GrantOutcome, now: u64, now2: u64)
    ensures
        s.spec_token_for_request(now).0.creds == s.creds,
        s.spec_complete_reauth(outcome, now2).0.creds == s.creds,
{
}

} // verus!
