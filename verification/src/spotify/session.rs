//! The token session behind every Spotify call: when the access token gets
//! refreshed, and when a rejected call is retried.
//!
//! The network work (refreshing, calling the API, saving tokens) is done by the
//! caller; `TokenCall::step` decides, from each outcome, what to do next. A
//! caller that shares the tokens between concurrent calls keeps them locked
//! from the step that asks for a refresh to the step that takes its result,
//! so that the `Start` step of another call, which checks the expiry, sees the
//! refreshed token rather than refreshing again.
use vstd::prelude::*;
use vstd::string::*;

use crate::spotify::auth::AuthTokens;
use crate::text::chars_of;

verus! {

/// Tokens are refreshed this many seconds *before* they expire.
pub const REFRESH_BUFFER_SECS: u64 = 60;

/// The text in an API error that says the access token was rejected.
pub const TOKEN_REJECTED_MARKER: &'static str = "access token expired or invalid";

/// The error when a refresh is due but there is no refresh token.
pub const NO_REFRESH_TOKEN_MESSAGE: &'static str = "no refresh token available — full re-login required";

/// Whether a token expiring at `expires_at` is expired or about to expire at
/// `now` (both in seconds since the Unix epoch).
pub open spec fn expiring_soon(expires_at: u64, now: u64) -> bool {
    now + REFRESH_BUFFER_SECS >= expires_at
}

/// Whether `s` contains `p`.
pub open spec fn contains_seq(s: Seq<char>, p: Seq<char>) -> bool {
    exists|i: int| 0 <= i && i + p.len() <= s.len() && #[trigger] s.subrange(i, i + p.len()) == p
}

/// `s.contains(p)`.
pub fn str_contains(s: &str, p: &str) -> (r: bool)
    ensures
        r == contains_seq(s@, p@),
{
    let cs = chars_of(s);
    let ps = chars_of(p);
    if ps.len() > cs.len() {
        return false;
    }
    let mut i: usize = 0;
    while i <= cs.len() - ps.len()
        invariant
            cs@ == s@,
            ps@ == p@,
            ps.len() <= cs.len(),
            i <= cs.len() - ps.len() + 1,
            forall|k: int| 0 <= k < i ==> #[trigger] s@.subrange(k, k + p@.len()) != p@,
        decreases cs.len() - ps.len() + 1 - i,
    {
        let mut j: usize = 0;
        let mut same = true;
        while j < ps.len()
            invariant
                cs@ == s@,
                ps@ == p@,
                i + ps.len() <= cs.len(),
                j <= ps.len(),
                same == (forall|t: int| 0 <= t < j ==> cs@[i + t] == ps@[t]),
            decreases ps.len() - j,
        {
            if cs[i + j] != ps[j] {
                same = false;
            }
            j = j + 1;
        }
        if same {
            assert(s@.subrange(i as int, i + p@.len()) =~= p@);
            return true;
        }
        assert(s@.subrange(i as int, i + p@.len()) != p@) by {
            let t = choose|t: int| 0 <= t < ps.len() && cs@[i + t] != ps@[t];
            assert(s@.subrange(i as int, i + p@.len())[t] != p@[t]);
        }
        i = i + 1;
    }
    assert forall|k: int| 0 <= k && k + p@.len() <= s@.len() implies #[trigger] s@.subrange(
        k,
        k + p@.len(),
    ) != p@ by {
        assert(k < i);
    }
    false
}

/// Whether the API error `e` says the access token was rejected.
pub fn is_token_rejection(e: &str) -> (r: bool)
    ensures
        r == contains_seq(e@, TOKEN_REJECTED_MARKER@),
{
    str_contains(e, TOKEN_REJECTED_MARKER)
}

/// The current tokens.
pub struct TokenState {
    pub access_token: String,
    pub refresh_token: Option<String>,
    pub expires_at: u64,
}

impl TokenState {
    /// The state holding `tokens`.
    pub fn from_tokens(tokens: AuthTokens) -> (s: TokenState)
        ensures
            s.access_token == tokens.access_token,
            s.refresh_token == tokens.refresh_token,
            s.expires_at == tokens.expires_at,
    {
        TokenState {
            access_token: tokens.access_token,
            refresh_token: tokens.refresh_token,
            expires_at: tokens.expires_at,
        }
    }

    /// Whether the access token is expired or about to expire at `now`.
    pub fn expiring_soon(&self, now: u64) -> (r: bool)
        ensures
            r == expiring_soon(self.expires_at, now),
    {
        now >= self.expires_at || self.expires_at - now <= REFRESH_BUFFER_SECS
    }
}

/// Where a call with a valid token stands.
#[derive(Clone, Copy, Debug, PartialEq, Eq, Structural)]
pub enum CallPhase {
    /// Nothing done yet.
    Ready,
    /// Waiting for a token refresh; `retry` once the API rejected a token.
    Refreshing { retry: bool },
    /// Waiting for the API call; `retry` on the second attempt.
    Calling { retry: bool },
    /// The call's outcome has been decided.
    Finished,
}

/// What happened since the last step.
pub enum CallEvent {
    /// The caller wants to make the call; `now` in seconds since the Unix epoch.
    Start { now: u64 },
    /// The token refresh finished.
    Refreshed(Result<AuthTokens, String>),
    /// The API call finished: `error` is its error, if it failed.
    Called { error: Option<String> },
}

/// What the caller does next.
pub enum CallAction {
    /// Make the API call with `token`, after saving the tokens when `save_tokens`.
    Call { token: String, save_tokens: bool },
    /// Refresh the access token with `refresh_token`.
    Refresh { refresh_token: String },
    /// Return the result of the last API call.
    ReturnCallResult,
    /// Return this error.
    Fail(String),
}

/// Whether an API call's error says the access token was rejected.
pub open spec fn rejects_token(error: Option<String>) -> bool {
    match error {
        Some(e) => contains_seq(e@, TOKEN_REJECTED_MARKER@),
        None => false,
    }
}

/// Whether `event` is one that can arrive in `phase`.
pub open spec fn expected_event(phase: CallPhase, event: CallEvent) -> bool {
    match phase {
        CallPhase::Ready => event is Start,
        CallPhase::Refreshing { .. } => event is Refreshed,
        CallPhase::Calling { .. } => event is Called,
        CallPhase::Finished => false,
    }
}

/// The API call the caller makes for `token_call`, runs through refreshes
/// and at most one retry.
pub struct TokenCall {
    pub phase: CallPhase,
    /// How many times the API was called so far.
    pub calls: u8,
}

impl TokenCall {
    /// The number of API calls made so far matches the phase.
    pub open spec fn wf(&self) -> bool {
        match self.phase {
            CallPhase::Ready => self.calls == 0,
            CallPhase::Refreshing { retry } => self.calls == if retry { 1u8 } else { 0u8 },
            CallPhase::Calling { retry } => self.calls == if retry { 2u8 } else { 1u8 },
            CallPhase::Finished => self.calls <= 2,
        }
    }

    /// However the refreshes and calls turn out, a flow calls the API at most
    /// twice: the first attempt, and one retry after a rejected token.
    pub proof fn lemma_at_most_two_calls(&self)
        requires
            self.wf(),
        ensures
            self.calls <= 2,
    {
    }

    /// A call not yet started.
    pub fn new() -> (c: TokenCall)
        ensures
            c.phase == CallPhase::Ready,
            c.calls == 0,
            c.wf(),
    {
        TokenCall { phase: CallPhase::Ready, calls: 0 }
    }

    /// The first step: use the current token when it is not expiring at
    /// `now`, fail without a refresh token, else ask for a refresh.
    fn refresh_or_call(&mut self, tokens: &TokenState, now: u64) -> (a: CallAction)
        requires
            old(self).calls == 0,
        ensures
            final(self).wf(),
            !expiring_soon(tokens.expires_at, now) ==> {
                &&& final(self).phase == CallPhase::Calling { retry: false }
                &&& a matches CallAction::Call { token, save_tokens } && token == tokens.access_token
                    && !save_tokens
            },
            expiring_soon(tokens.expires_at, now) && tokens.refresh_token is None ==> {
                &&& final(self).phase == CallPhase::Finished
                &&& a matches CallAction::Fail(m) && m@ == NO_REFRESH_TOKEN_MESSAGE@
            },
            expiring_soon(tokens.expires_at, now) && tokens.refresh_token is Some ==> {
                &&& final(self).phase == CallPhase::Refreshing { retry: false }
                &&& a matches CallAction::Refresh { refresh_token } && Some(refresh_token)
                    == tokens.refresh_token
            },
    {
        if !tokens.expiring_soon(now) {
            self.phase = CallPhase::Calling { retry: false };
            self.calls = self.calls + 1;
            return CallAction::Call { token: tokens.access_token.clone(), save_tokens: false };
        }
        self.refresh(tokens, false)
    }

    /// Asks for a refresh with the refresh token, or fails without one.
    fn refresh(&mut self, tokens: &TokenState, retry: bool) -> (a: CallAction)
        requires
            retry ==> old(self).calls == 1,
            !retry ==> old(self).calls == 0,
        ensures
            final(self).wf(),
            tokens.refresh_token is None ==> {
                &&& final(self).phase == CallPhase::Finished
                &&& a matches CallAction::Fail(m) && m@ == NO_REFRESH_TOKEN_MESSAGE@
            },
            tokens.refresh_token is Some ==> {
                &&& final(self).phase == CallPhase::Refreshing { retry }
                &&& a matches CallAction::Refresh { refresh_token } && Some(refresh_token)
                    == tokens.refresh_token
            },
    {
        match &tokens.refresh_token {
            Some(rt) => {
                self.phase = CallPhase::Refreshing { retry };
                CallAction::Refresh { refresh_token: rt.clone() }
            },
            None => {
                self.phase = CallPhase::Finished;
                CallAction::Fail(String::from_str(NO_REFRESH_TOKEN_MESSAGE))
            },
        }
    }

    /// Decides the next action from `event`, updating `tokens` after a
    /// successful refresh. A token about to expire is refreshed before the
    /// call; a call whose token the API rejects anyway is retried once, after
    /// an unconditional refresh (clock skew, a revoked token).
    pub fn step(&mut self, tokens: &mut TokenState, event: CallEvent) -> (a: CallAction)
        requires
            old(self).wf(),
            expected_event(old(self).phase, event),
        ensures
            final(self).wf(),
            match (old(self).phase, event) {
                (CallPhase::Ready, CallEvent::Start { now }) => {
                    &&& *final(tokens) == *old(tokens)
                    &&& !expiring_soon(old(tokens).expires_at, now) ==> {
                        &&& final(self).phase == CallPhase::Calling { retry: false }
                        &&& a matches CallAction::Call { token, save_tokens } && token
                            == old(tokens).access_token && !save_tokens
                    }
                    &&& expiring_soon(old(tokens).expires_at, now) && old(tokens).refresh_token is None
                        ==> {
                        &&& final(self).phase == CallPhase::Finished
                        &&& a matches CallAction::Fail(m) && m@ == NO_REFRESH_TOKEN_MESSAGE@
                    }
                    &&& expiring_soon(old(tokens).expires_at, now) && old(tokens).refresh_token is Some
                        ==> {
                        &&& final(self).phase == CallPhase::Refreshing { retry: false }
                        &&& a matches CallAction::Refresh { refresh_token } && Some(refresh_token)
                            == old(tokens).refresh_token
                    }
                },
                (CallPhase::Refreshing { retry }, CallEvent::Refreshed(Ok(t))) => {
                    &&& final(tokens).access_token == t.access_token
                    &&& final(tokens).refresh_token == t.refresh_token
                    &&& final(tokens).expires_at == t.expires_at
                    &&& final(self).phase == CallPhase::Calling { retry }
                    &&& a matches CallAction::Call { token, save_tokens } && token == t.access_token
                        && save_tokens
                },
                (CallPhase::Refreshing { .. }, CallEvent::Refreshed(Err(e))) => {
                    &&& *final(tokens) == *old(tokens)
                    &&& final(self).phase == CallPhase::Finished
                    &&& a matches CallAction::Fail(m) && m == e
                },
                (CallPhase::Calling { retry }, CallEvent::Called { error }) => {
                    &&& *final(tokens) == *old(tokens)
                    &&& (retry || !rejects_token(error))
                        ==> {
                        &&& final(self).phase == CallPhase::Finished
                        &&& a is ReturnCallResult
                    }
                    &&& (!retry && rejects_token(error))
                        ==> {
                        &&& old(tokens).refresh_token is None ==> {
                            &&& final(self).phase == CallPhase::Finished
                            &&& a matches CallAction::Fail(m) && m@ == NO_REFRESH_TOKEN_MESSAGE@
                        }
                        &&& old(tokens).refresh_token is Some ==> {
                            &&& final(self).phase == CallPhase::Refreshing { retry: true }
                            &&& a matches CallAction::Refresh { refresh_token } && Some(
                                refresh_token,
                            ) == old(tokens).refresh_token
                        }
                    }
                },
                _ => false,
            },
    {
        match event {
            CallEvent::Start { now } => self.refresh_or_call(tokens, now),
            CallEvent::Refreshed(Ok(t)) => {
                let retry = match self.phase {
                    CallPhase::Refreshing { retry } => retry,
                    _ => false,
                };
                tokens.access_token = t.access_token;
                tokens.refresh_token = t.refresh_token;
                tokens.expires_at = t.expires_at;
                self.phase = CallPhase::Calling { retry };
                self.calls = self.calls + 1;
                CallAction::Call { token: tokens.access_token.clone(), save_tokens: true }
            },
            CallEvent::Refreshed(Err(e)) => {
                self.phase = CallPhase::Finished;
                CallAction::Fail(e)
            },
            CallEvent::Called { error } => {
                let retry = match self.phase {
                    CallPhase::Calling { retry } => retry,
                    _ => true,
                };
                let rejected = match &error {
                    Some(e) => is_token_rejection(e.as_str()),
                    None => false,
                };
                if retry || !rejected {
                    self.phase = CallPhase::Finished;
                    CallAction::ReturnCallResult
                } else {
                    self.refresh(tokens, true)
                }
            },
        }
    }
}

/// What connecting to Spotify does next.
pub enum ConnectAction {
    /// Refresh the stored session with this refresh token.
    Refresh(String),
    /// Log in through the browser.
    Authorize,
    /// Save these tokens and start the session with them.
    Connected(TokenState),
    /// Give up with this error.
    Fail(String),
}

/// The first step of connecting, given the stored session (if any): reuse a
/// stored refresh token, else log in through the browser.
pub fn connect_start(stored: Option<AuthTokens>) -> (a: ConnectAction)
    ensures
        match stored {
            Some(t) => match t.refresh_token {
                Some(rt) => a matches ConnectAction::Refresh(r) && r == rt,
                None => a is Authorize,
            },
            None => a is Authorize,
        },
{
    match stored {
        Some(t) => match t.refresh_token {
            Some(rt) => ConnectAction::Refresh(rt),
            None => ConnectAction::Authorize,
        },
        None => ConnectAction::Authorize,
    }
}

/// After refreshing the stored session: use the new tokens, or fall back to
/// the browser login when the stored session is no longer valid.
pub fn connect_after_refresh(result: Result<AuthTokens, String>) -> (a: ConnectAction)
    ensures
        match result {
            Ok(t) => a matches ConnectAction::Connected(s) && s.access_token == t.access_token
                && s.refresh_token == t.refresh_token && s.expires_at == t.expires_at,
            Err(_) => a is Authorize,
        },
{
    match result {
        Ok(t) => ConnectAction::Connected(TokenState::from_tokens(t)),
        Err(_) => ConnectAction::Authorize,
    }
}

/// After the browser login: use its tokens, or fail with its error.
pub fn connect_after_authorize(result: Result<AuthTokens, String>) -> (a: ConnectAction)
    ensures
        match result {
            Ok(t) => a matches ConnectAction::Connected(s) && s.access_token == t.access_token
                && s.refresh_token == t.refresh_token && s.expires_at == t.expires_at,
            Err(e) => a matches ConnectAction::Fail(m) && m == e,
        },
{
    match result {
        Ok(t) => ConnectAction::Connected(TokenState::from_tokens(t)),
        Err(e) => ConnectAction::Fail(e),
    }
}

} // verus!
