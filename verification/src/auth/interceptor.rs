//! The interceptor that stands before every handler.
//!
//! For each call it reads the `Authorization` header value, takes the token
//! out of it, parses the token, resolves its key, validates it and projects
//! its claims onto a principal. A call without the header goes on without a
//! principal; a call whose header fails at any step is turned away, with no
//! word on which step it was.

use vstd::prelude::*;

use alcoholic_jwt::{JWK, JWKS};

use crate::auth::bearer::bearer_credentials;
use crate::auth::claims::{extract, principal_of, Principal, PrincipalView};
use crate::auth::clock::now_seconds;
use crate::auth::keys::{first_with_kid, jwks_keys, KeySet};
use crate::auth::machine::{final_state, header_view, run, Setting, State, StateView};
use crate::auth::token::{lemma_parts_join, parse, parsed};
use crate::auth::validate::{validate, validated, Expected};

verus! {

/// Why a token does not authenticate its bearer.
#[derive(Debug, Clone, Copy, PartialEq, Eq, Structural)]
pub enum AuthError {
    /// The token could not be taken apart, or its header names no key.
    Malformed,
    /// The key that the token names is not in the key set.
    UnknownKey,
    /// The signature or one of the claims did not pass.
    Invalid,
}

/// What becomes of a call.
pub ghost enum OutcomeView {
    /// The call goes on to its handler, with the principal where there is one.
    Forward(Option<PrincipalView>),
    /// The call ends as unauthenticated.
    Reject,
}

/// What becomes of a call.
#[derive(Debug, Clone, PartialEq, Eq)]
pub enum Outcome {
    /// The call goes on to its handler. The principal, where there is one, is
    /// to be attached to the request's context.
    Forward(Option<Principal>),
    /// The call ends with the status "unauthenticated" and the message of
    /// [`rejection_message`].
    Reject,
}

impl View for Outcome {
    type V = OutcomeView;

    open spec fn view(&self) -> OutcomeView {
        match self {
            Outcome::Forward(Some(p)) => OutcomeView::Forward(Some(p@)),
            Outcome::Forward(None) => OutcomeView::Forward(None),
            Outcome::Reject => OutcomeView::Reject,
        }
    }
}

/// The one message that a rejected call carries.
pub fn rejection_message() -> (message: &'static str)
    ensures
        message@ == "unauthorized"@,
{
    "unauthorized"
}

impl OutcomeView {
    /// The state in which a call of this outcome ends.
    pub open spec fn as_state(self) -> StateView {
        match self {
            OutcomeView::Forward(caller) => StateView::Forward { caller },
            OutcomeView::Reject => StateView::Reject,
        }
    }
}

/// The interceptor's state: what tokens are expected to claim, the keys they
/// are verified with and the clock skew that is tolerated. It is built once
/// and never changes; every call reads it.
pub struct Interceptor {
    expected: Expected,
    keys: KeySet,
    clock_skew_tolerance: u64,
}

/// Builds the interceptor for tokens of the issuer `authority` that are meant
/// for `audience`, verified with the keys of `jwks`. No clock skew is
/// tolerated.
pub fn intercept(authority: String, audience: String, jwks: JWKS) -> (interceptor: Interceptor)
    ensures
        interceptor.issuer() == authority@,
        interceptor.audience() == audience@,
        interceptor.keys() == jwks_keys(jwks),
        interceptor.tolerance() == 0,
{
    Interceptor {
        expected: Expected { issuer: authority, audience },
        keys: KeySet::new(jwks),
        clock_skew_tolerance: 0,
    }
}

impl Clone for Interceptor {
    fn clone(&self) -> (copy: Self)
        ensures
            copy.issuer() == self.issuer(),
            copy.audience() == self.audience(),
            copy.keys() == self.keys(),
            copy.tolerance() == self.tolerance(),
    {
        Interceptor {
            expected: Expected {
                issuer: self.expected.issuer.clone(),
                audience: self.expected.audience.clone(),
            },
            keys: self.keys.clone(),
            clock_skew_tolerance: self.clock_skew_tolerance,
        }
    }
}

impl Interceptor {
    /// The issuer that tokens must name.
    pub closed spec fn issuer(&self) -> Seq<char> {
        self.expected.issuer@
    }

    /// The audience that tokens must be meant for.
    pub closed spec fn audience(&self) -> Seq<char> {
        self.expected.audience@
    }

    /// The verification keys, in the order of the published document.
    pub closed spec fn keys(&self) -> Seq<JWK> {
        self.keys.keys()
    }

    /// The clock skew that is tolerated, in seconds.
    pub closed spec fn tolerance(&self) -> u64 {
        self.clock_skew_tolerance
    }

    /// The principal that `token` authenticates at `now`, or the step at
    /// which it fails: parsing, key resolution or validation.
    pub open spec fn authenticated(&self, token: Seq<char>, now: u64) -> Result<
        PrincipalView,
        AuthError,
    > {
        match parsed(token) {
            None => Err(AuthError::Malformed),
            Some(parts) => match first_with_kid(self.keys(), parts.kid) {
                None => Err(AuthError::UnknownKey),
                Some(key) => match validated(
                    token,
                    key,
                    self.issuer(),
                    self.audience(),
                    now,
                    self.tolerance(),
                ) {
                    None => Err(AuthError::Invalid),
                    Some(claims) => Ok(principal_of(claims)),
                },
            },
        }
    }

    /// What becomes of a call with the given `Authorization` header value at
    /// `now`. Without the header the call goes on with no principal. With it,
    /// the call goes on with the principal that its token authenticates, and
    /// is rejected where the value carries no bearer token or the token
    /// fails.
    pub open spec fn decision(&self, header: Option<Seq<char>>, now: u64) -> OutcomeView {
        match header {
            None => OutcomeView::Forward(None),
            Some(value) => match bearer_credentials(value) {
                None => OutcomeView::Reject,
                Some(token) => match self.authenticated(token, now) {
                    Ok(principal) => OutcomeView::Forward(Some(principal)),
                    Err(_) => OutcomeView::Reject,
                },
            },
        }
    }

    /// What the steps of a call at `now` are taken with.
    pub open spec fn setting(&self, now: u64) -> Setting {
        Setting {
            issuer: self.issuer(),
            audience: self.audience(),
            keys: self.keys(),
            tolerance: self.tolerance(),
            now,
        }
    }

    /// The states of a call lead to the decision: a call that starts with
    /// `header` ends in the state of its outcome.
    pub proof fn lemma_states_lead_to_decision(&self, header: Option<Seq<char>>, now: u64)
        ensures
            final_state(self.setting(now), StateView::Start { header }) == self.decision(
                header,
                now,
            ).as_state(),
    {
        let setting = self.setting(now);
        reveal_with_fuel(final_state, 10);
        match header {
            None => {},
            Some(value) => {
                match bearer_credentials(value) {
                    None => {},
                    Some(token) => {
                        if parsed(token) is Some {
                            lemma_parts_join(token);
                        }
                    },
                }
            },
        }
    }

    /// The same interceptor with a clock skew tolerance of `seconds`.
    pub fn with_clock_skew_tolerance(self, seconds: u64) -> (interceptor: Interceptor)
        ensures
            interceptor.issuer() == self.issuer(),
            interceptor.audience() == self.audience(),
            interceptor.keys() == self.keys(),
            interceptor.tolerance() == seconds,
    {
        Interceptor { expected: self.expected, keys: self.keys, clock_skew_tolerance: seconds }
    }

    /// The clock skew that is tolerated, in seconds.
    pub fn clock_skew_tolerance(&self) -> (seconds: u64)
        ensures
            seconds == self.tolerance(),
    {
        self.clock_skew_tolerance
    }

    /// Authenticates the bearer of `token` at `now`: parses the token,
    /// resolves the key that it names, validates it and projects its claims.
    pub fn authenticate(&self, token: &str, now: u64) -> (principal: Result<Principal, AuthError>)
        ensures
            match principal {
                Ok(p) => self.authenticated(token@, now) == Ok::<PrincipalView, AuthError>(p@),
                Err(e) => self.authenticated(token@, now) == Err::<PrincipalView, AuthError>(e),
            },
    {
        let parts = match parse(token) {
            Ok(parts) => parts,
            Err(_) => {
                return Err(AuthError::Malformed);
            },
        };
        proof {
            lemma_parts_join(token@);
        }
        let key = match self.keys.resolve(parts.kid.as_str()) {
            Ok(key) => key,
            Err(_) => {
                return Err(AuthError::UnknownKey);
            },
        };
        match validate(&parts, key, &self.expected, now, self.clock_skew_tolerance) {
            Ok(claims) => Ok(extract(claims)),
            Err(_) => Err(AuthError::Invalid),
        }
    }

    /// Decides a call with the given `Authorization` header value at `now`.
    pub fn decide_at(&self, header: Option<&str>, now: u64) -> (outcome: Outcome)
        ensures
            outcome@ == self.decision(header_view(header), now),
    {
        proof {
            self.lemma_states_lead_to_decision(header_view(header), now);
        }
        let start = State::Start { header };
        match run(&self.expected, &self.keys, self.clock_skew_tolerance, now, start) {
            State::Forward { caller } => Outcome::Forward(caller),
            _ => Outcome::Reject,
        }
    }

    /// Decides a call with the given `Authorization` header value at the
    /// reading of the process clock. Where the clock cannot be read, a call
    /// with the header is rejected.
    pub fn call(&self, header: Option<&str>) -> (outcome: Outcome)
        ensures
            header is None ==> outcome@ == OutcomeView::Forward(None),
            header is Some ==> outcome@ is Reject || exists|now: u64|
                outcome@ == #[trigger] self.decision(header_view(header), now),
    {
        match now_seconds() {
            Some(now) => self.decide_at(header, now),
            None => match header {
                Some(_) => Outcome::Reject,
                None => Outcome::Forward(None),
            },
        }
    }
}

} // verus!
