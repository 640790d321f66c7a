//! The states that a call passes through in the interceptor.
//!
//! A call starts with the header value that came with it, or none. Each step
//! takes it one state further: the header is read, the token taken out,
//! parsed, its key resolved, the token validated, the principal made and
//! attached. The call ends forwarded or rejected. Every state but the last
//! two has one way forward and, where something can fail, one way out: to
//! the rejection, which keeps no trace of where it came from.

use vstd::prelude::*;

use alcoholic_jwt::JWK;

use crate::auth::bearer::{bearer_credentials, bearer_token};
use crate::auth::claims::{extract, principal_of, ClaimSet, ClaimSetView, Principal, PrincipalView};
use crate::auth::keys::{first_with_kid, KeySet};
use crate::auth::token::{parse, parsed, ParsedToken, TokenParts};
use crate::auth::validate::{validate, validated, Expected};

verus! {

/// Where a call stands.
pub enum State<'a> {
    /// The call has come in, with the value of its `Authorization` header
    /// where it has one.
    Start { header: Option<&'a str> },
    /// The header has been looked up.
    HeaderRead { header: Option<&'a str> },
    /// The call has no header.
    NoHeader,
    /// The call has a header of this value.
    HeaderPresent { value: &'a str },
    /// The header named the scheme and carried this token.
    TokenExtracted { raw: &'a str },
    /// The token has been taken apart.
    Parsed { token: ParsedToken },
    /// The key that the token names has been found.
    KeyResolved { token: ParsedToken, key: &'a JWK },
    /// Signature and claims have passed.
    Validated { claims: ClaimSet },
    /// The principal has been made of the claims, to be attached to the
    /// request's context.
    ContextAttached { principal: Principal },
    /// The call goes on to its handler.
    Forward { caller: Option<Principal> },
    /// The call ends as unauthenticated.
    Reject,
}

/// Where a call stands.
pub ghost enum StateView {
    Start { header: Option<Seq<char>> },
    HeaderRead { header: Option<Seq<char>> },
    NoHeader,
    HeaderPresent { value: Seq<char> },
    TokenExtracted { raw: Seq<char> },
    Parsed { token: TokenParts },
    KeyResolved { token: TokenParts, key: JWK },
    Validated { claims: ClaimSetView },
    ContextAttached { principal: PrincipalView },
    Forward { caller: Option<PrincipalView> },
    Reject,
}

/// The view of a header value that may be absent.
pub open spec fn header_view(header: Option<&str>) -> Option<Seq<char>> {
    match header {
        Some(h) => Some(h@),
        None => None,
    }
}

/// The view of a principal that may be absent.
pub open spec fn principal_view(principal: Option<Principal>) -> Option<PrincipalView> {
    match principal {
        Some(p) => Some(p@),
        None => None,
    }
}

impl<'a> View for State<'a> {
    type V = StateView;

    open spec fn view(&self) -> StateView {
        match *self {
            State::Start { header } => StateView::Start { header: header_view(header) },
            State::HeaderRead { header } => StateView::HeaderRead { header: header_view(header) },
            State::NoHeader => StateView::NoHeader,
            State::HeaderPresent { value } => StateView::HeaderPresent { value: value@ },
            State::TokenExtracted { raw } => StateView::TokenExtracted { raw: raw@ },
            State::Parsed { token } => StateView::Parsed { token: token@ },
            State::KeyResolved { token, key } => StateView::KeyResolved { token: token@, key: *key },
            State::Validated { claims } => StateView::Validated { claims: claims@ },
            State::ContextAttached { principal } => StateView::ContextAttached {
                principal: principal@,
            },
            State::Forward { caller } => StateView::Forward { caller: principal_view(caller) },
            State::Reject => StateView::Reject,
        }
    }
}

impl StateView {
    /// Whether the call has ended.
    pub open spec fn is_final(self) -> bool {
        self is Forward || self is Reject
    }

    /// The number of steps that the call has left at most.
    pub open spec fn steps_left(self) -> nat {
        match self {
            StateView::Start { .. } => 9,
            StateView::HeaderRead { .. } => 8,
            StateView::HeaderPresent { .. } => 7,
            StateView::TokenExtracted { .. } => 6,
            StateView::Parsed { .. } => 5,
            StateView::KeyResolved { .. } => 4,
            StateView::Validated { .. } => 3,
            StateView::ContextAttached { .. } => 2,
            StateView::NoHeader => 1,
            StateView::Forward { .. } => 0,
            StateView::Reject => 0,
        }
    }
}

/// What the steps are taken with: the expected claims, the keys, the clock
/// skew that is tolerated and the validation instant.
pub ghost struct Setting {
    pub issuer: Seq<char>,
    pub audience: Seq<char>,
    pub keys: Seq<JWK>,
    pub tolerance: u64,
    pub now: u64,
}

/// The state that follows `state`. A call that has ended stays where it is.
pub open spec fn next_state(setting: Setting, state: StateView) -> StateView {
    match state {
        StateView::Start { header } => StateView::HeaderRead { header },
        StateView::HeaderRead { header: None } => StateView::NoHeader,
        StateView::HeaderRead { header: Some(value) } => StateView::HeaderPresent { value },
        StateView::NoHeader => StateView::Forward { caller: None },
        StateView::HeaderPresent { value } => match bearer_credentials(value) {
            Some(raw) => StateView::TokenExtracted { raw },
            None => StateView::Reject,
        },
        StateView::TokenExtracted { raw } => match parsed(raw) {
            Some(parts) => StateView::Parsed { token: parts },
            None => StateView::Reject,
        },
        StateView::Parsed { token } => match first_with_kid(setting.keys, token.kid) {
            Some(key) => StateView::KeyResolved { token, key },
            None => StateView::Reject,
        },
        StateView::KeyResolved { token, key } => match validated(
            token.compact(),
            key,
            setting.issuer,
            setting.audience,
            setting.now,
            setting.tolerance,
        ) {
            Some(claims) => StateView::Validated { claims },
            None => StateView::Reject,
        },
        StateView::Validated { claims } => StateView::ContextAttached {
            principal: principal_of(claims),
        },
        StateView::ContextAttached { principal } => StateView::Forward { caller: Some(principal) },
        StateView::Forward { caller } => StateView::Forward { caller },
        StateView::Reject => StateView::Reject,
    }
}

/// The state in which a call that stands at `state` ends.
pub open spec fn final_state(setting: Setting, state: StateView) -> StateView
    decreases state.steps_left(),
{
    if state.is_final() {
        state
    } else {
        final_state(setting, next_state(setting, state))
    }
}

/// Every step of a call that has not ended brings its end nearer, so a call
/// ends after nine steps at most.
pub proof fn steps_run_out(setting: Setting, state: StateView)
    ensures
        !state.is_final() ==> next_state(setting, state).steps_left() < state.steps_left(),
        state.is_final() ==> next_state(setting, state) == state,
        state.steps_left() <= 9,
        final_state(setting, state).is_final(),
    decreases state.steps_left(),
{
    if !state.is_final() {
        steps_run_out(setting, next_state(setting, state));
    }
}

impl<'a> State<'a> {
    /// Whether the call has ended.
    pub fn is_final(&self) -> (ended: bool)
        ensures
            ended == self@.is_final(),
    {
        match self {
            State::Forward { .. } => true,
            State::Reject => true,
            _ => false,
        }
    }
}

/// Takes a call one step further.
pub fn step<'a>(
    expected: &Expected,
    keys: &'a KeySet,
    tolerance: u64,
    now: u64,
    state: State<'a>,
) -> (next: State<'a>)
    ensures
        next@ == next_state(
            Setting {
                issuer: expected.issuer@,
                audience: expected.audience@,
                keys: keys.keys(),
                tolerance,
                now,
            },
            state@,
        ),
{
    match state {
        State::Start { header } => State::HeaderRead { header },
        State::HeaderRead { header: None } => State::NoHeader,
        State::HeaderRead { header: Some(value) } => State::HeaderPresent { value },
        State::NoHeader => State::Forward { caller: None },
        State::HeaderPresent { value } => match bearer_token(value) {
            Some(raw) => State::TokenExtracted { raw },
            None => State::Reject,
        },
        State::TokenExtracted { raw } => match parse(raw) {
            Ok(parts) => State::Parsed { token: parts },
            Err(_) => State::Reject,
        },
        State::Parsed { token } => match keys.resolve(token.kid.as_str()) {
            Ok(key) => State::KeyResolved { token, key },
            Err(_) => State::Reject,
        },
        State::KeyResolved { token, key } => match validate(&token, key, expected, now, tolerance) {
            Ok(claims) => State::Validated { claims },
            Err(_) => State::Reject,
        },
        State::Validated { claims } => State::ContextAttached { principal: extract(claims) },
        State::ContextAttached { principal } => State::Forward { caller: Some(principal) },
        State::Forward { caller } => State::Forward { caller },
        State::Reject => State::Reject,
    }
}

/// Takes a call from `state` to its end.
pub fn run<'a>(
    expected: &Expected,
    keys: &'a KeySet,
    tolerance: u64,
    now: u64,
    state: State<'a>,
) -> (end: State<'a>)
    ensures
        end@ == final_state(
            Setting {
                issuer: expected.issuer@,
                audience: expected.audience@,
                keys: keys.keys(),
                tolerance,
                now,
            },
            state@,
        ),
        end@.is_final(),
{
    let ghost setting = Setting {
        issuer: expected.issuer@,
        audience: expected.audience@,
        keys: keys.keys(),
        tolerance,
        now,
    };
    let ghost start = state@;
    let mut current = state;
    while !current.is_final()
        invariant
            final_state(setting, current@) == final_state(setting, start),
            setting == (Setting {
                issuer: expected.issuer@,
                audience: expected.audience@,
                keys: keys.keys(),
                tolerance,
                now,
            }),
        decreases current@.steps_left(),
    {
        proof {
            steps_run_out(setting, current@);
        }
        current = step(expected, keys, tolerance, now, current);
    }
    current
}

} // verus!
