//! The shared session: one credential pair that never changes, one token
//! that every caller sees, and the rule that decides, before each outbound
//! call, whether the caller may proceed.
//!
//! The rule looks in three places, in a fixed order: the caller's own token,
//! the shared token, and only then the remote authenticator. The last is the
//! one step that costs a round trip against a service that allows very few of
//! them, so the laws at the end of this file are all about how seldom it is
//! taken.

use vstd::prelude::*;

verus! {

/// A token as the contracts see it: the characters of an opaque string.
pub type Token = Seq<char>;

/// A username and a password.
#[derive(Debug, Clone, PartialEq, Eq)]
pub struct Credential {
    pub username: String,
    pub password: String,
}

/// A credential pair as the contracts see it.
pub struct CredentialView {
    pub username: Seq<char>,
    pub password: Seq<char>,
}

impl View for Credential {
    type V = CredentialView;

    open spec fn view(&self) -> CredentialView {
        CredentialView { username: self.username@, password: self.password@ }
    }
}

/// Holds the credential pair, or nothing where a token was supplied instead.
/// Once a pair is in, it stays.
#[derive(Debug, Clone, PartialEq, Eq)]
pub struct CredentialStore {
    pair: Option<Credential>,
}

impl View for CredentialStore {
    type V = Option<CredentialView>;

    closed spec fn view(&self) -> Option<CredentialView> {
        match self.pair {
            Some(pair) => Some(pair@),
            None => None,
        }
    }
}

impl CredentialStore {
    /// A store without credentials.
    pub fn empty() -> (r: Self)
        ensures
            r@ is None,
    {
        CredentialStore { pair: None }
    }

    /// A store that holds the given pair.
    pub fn with_credentials(username: String, password: String) -> (r: Self)
        ensures
            r@ == Some(CredentialView { username: username@, password: password@ }),
    {
        CredentialStore { pair: Some(Credential { username, password }) }
    }

    /// Puts the pair in if the store is empty; a store that holds a pair
    /// keeps the one it has.
    pub fn initialize(&mut self, username: String, password: String)
        ensures
            old(self)@ is Some ==> final(self)@ == old(self)@,
            old(self)@ is None ==> final(self)@ == Some(
                CredentialView { username: username@, password: password@ },
            ),
    {
        if self.pair.is_none() {
            self.pair = Some(Credential { username, password });
        }
    }

    /// The current pair, if any.
    pub fn get(&self) -> (r: Option<&Credential>)
        ensures
            r is Some <==> self@ is Some,
            r is Some ==> r->0@ == self@->0,
    {
        self.pair.as_ref()
    }

    /// Whether a pair is held.
    pub fn is_present(&self) -> (r: bool)
        ensures
            r == (self@ is Some),
    {
        self.pair.is_some()
    }
}

/// The one slot that holds the current token, or nothing. A token that is
/// replaced is gone; nothing ever empties the slot again.
#[derive(Debug, Clone, PartialEq, Eq)]
pub struct TokenCache {
    slot: Option<String>,
}

impl View for TokenCache {
    type V = Option<Token>;

    closed spec fn view(&self) -> Option<Token> {
        match self.slot {
            Some(token) => Some(token@),
            None => None,
        }
    }
}

impl TokenCache {
    /// An empty cache.
    pub fn new() -> (r: Self)
        ensures
            r@ is None,
    {
        TokenCache { slot: None }
    }

    /// The current token, if any.
    pub fn get(&self) -> (r: Option<String>)
        ensures
            r is Some <==> self@ is Some,
            r is Some ==> r->0@ == self@->0,
    {
        match &self.slot {
            Some(token) => Some(token.clone()),
            None => None,
        }
    }

    /// Replaces whatever the cache holds by `token`.
    pub fn set(&mut self, token: String)
        ensures
            final(self)@ == Some(token@),
    {
        self.slot = Some(token);
    }
}

/// A token that a client may go ahead with: one that is there and is not
/// the empty text.
pub open spec fn usable(local: Option<Token>) -> bool {
    local is Some && local->0.len() > 0
}

/// What the guard tells a caller to do.
#[derive(Clone, Copy, Debug, PartialEq, Eq, Structural)]
pub enum Decision {
    /// The caller holds a token of its own that is not empty: go ahead.
    UseLocal,
    /// The shared cache holds a token: take it, then go ahead.
    AdoptShared,
    /// No token anywhere, but credentials: exchange them for a token.
    Authenticate,
    /// No token and no credentials: the call must not be made.
    Unavailable,
}

/// The guard's rule, in its fixed order of precedence. The caller's own
/// token counts only where it is not empty; the cache counts as soon as it
/// holds a value.
pub open spec fn decide(
    local: Option<Token>,
    cache: Option<Token>,
    credentials: Option<CredentialView>,
) -> Decision {
    if usable(local) {
        Decision::UseLocal
    } else if cache is Some {
        Decision::AdoptShared
    } else if credentials is Some {
        Decision::Authenticate
    } else {
        Decision::Unavailable
    }
}

/// The view of a token that a client may hold.
pub open spec fn local_view(local: Option<&str>) -> Option<Token> {
    match local {
        Some(token) => Some(token@),
        None => None,
    }
}

/// Applies the guard's rule to a client that holds `local`, against the
/// shared cache and the shared store.
pub fn resolve(local: Option<&str>, cache: &TokenCache, store: &CredentialStore) -> (r: Decision)
    ensures
        r == decide(local_view(local), cache@, store@),
{
    let own = match local {
        Some(token) => !token.is_empty(),
        None => false,
    };
    if own {
        Decision::UseLocal
    } else if cache.get().is_some() {
        Decision::AdoptShared
    } else if store.is_present() {
        Decision::Authenticate
    } else {
        Decision::Unavailable
    }
}

/// One guard evaluation as the laws see it: the token that the calling client
/// holds when it asks, and what the remote authenticator would answer if this
/// evaluation were to reach it (`None` for a refusal or a failure).
pub struct Invocation {
    pub local: Option<Token>,
    pub answer: Option<Token>,
}

/// What one guard evaluation leaves behind.
pub struct Outcome {
    /// The shared cache afterwards.
    pub cache: Option<Token>,
    /// The token that the calling client holds afterwards.
    pub local: Option<Token>,
    /// Whether the evaluation reached the remote authenticator.
    pub round_trip: bool,
    /// Whether the caller may make its call.
    pub ready: bool,
}

/// What one round trip to the remote authenticator leaves behind: a token
/// that was granted goes to the caller and to the cache alike; a failure
/// changes neither.
pub open spec fn settle(cache: Option<Token>, local: Option<Token>, answer: Option<Token>) -> Outcome {
    match answer {
        Some(token) => Outcome {
            cache: Some(token),
            local: Some(token),
            round_trip: true,
            ready: true,
        },
        None => Outcome { cache, local, round_trip: true, ready: false },
    }
}

/// One guard evaluation, from the shared state before it to the state after.
pub open spec fn evaluate(
    cache: Option<Token>,
    credentials: Option<CredentialView>,
    invocation: Invocation,
) -> Outcome {
    match decide(invocation.local, cache, credentials) {
        Decision::UseLocal => Outcome {
            cache,
            local: invocation.local,
            round_trip: false,
            ready: true,
        },
        Decision::AdoptShared => Outcome { cache, local: cache, round_trip: false, ready: true },
        Decision::Authenticate => settle(cache, invocation.local, invocation.answer),
        Decision::Unavailable => Outcome {
            cache,
            local: invocation.local,
            round_trip: false,
            ready: false,
        },
    }
}

/// The shared cache after the evaluations of `invocations`, one after the
/// other. Each holds the session to itself while it runs, so any number of
/// concurrent callers amounts to some such sequence.
pub open spec fn cache_after(
    cache: Option<Token>,
    credentials: Option<CredentialView>,
    invocations: Seq<Invocation>,
) -> Option<Token>
    decreases invocations.len(),
{
    if invocations.len() == 0 {
        cache
    } else {
        evaluate(
            cache_after(cache, credentials, invocations.drop_last()),
            credentials,
            invocations.last(),
        ).cache
    }
}

/// The outcome of the evaluation at position `i` of `invocations`.
pub open spec fn outcome_at(
    cache: Option<Token>,
    credentials: Option<CredentialView>,
    invocations: Seq<Invocation>,
    i: int,
) -> Outcome
    recommends
        0 <= i < invocations.len(),
{
    evaluate(cache_after(cache, credentials, invocations.take(i)), credentials, invocations[i])
}

/// How many of the evaluations of `invocations` reach the remote
/// authenticator.
pub open spec fn round_trips(
    cache: Option<Token>,
    credentials: Option<CredentialView>,
    invocations: Seq<Invocation>,
) -> nat
    decreases invocations.len(),
{
    if invocations.len() == 0 {
        0
    } else {
        let earlier = invocations.drop_last();
        let last = evaluate(
            cache_after(cache, credentials, earlier),
            credentials,
            invocations.last(),
        );
        round_trips(cache, credentials, earlier) + if last.round_trip {
            1nat
        } else {
            0nat
        }
    }
}

/// Every client is cold: when it asks, it holds no token of its own, or an
/// empty one.
pub open spec fn all_cold(invocations: Seq<Invocation>) -> bool {
    forall|i: int| 0 <= i < invocations.len() ==> !usable((#[trigger] invocations[i]).local)
}

/// The credentials are good: the remote authenticator would answer every
/// evaluation that reached it with a token.
pub open spec fn all_answered(invocations: Seq<Invocation>) -> bool {
    forall|i: int| 0 <= i < invocations.len() ==> (#[trigger] invocations[i]).answer is Some
}

/// A token in the cache stays there, and no evaluation reaches the remote
/// authenticator while it does, whichever client asks and whatever it holds.
pub proof fn law_token_reuse(
    token: Token,
    credentials: Option<CredentialView>,
    invocations: Seq<Invocation>,
)
    ensures
        cache_after(Some(token), credentials, invocations) == Some(token),
        round_trips(Some(token), credentials, invocations) == 0,
        forall|i: int|
            0 <= i < invocations.len() ==> {
                let outcome = #[trigger] outcome_at(Some(token), credentials, invocations, i);
                &&& !outcome.round_trip
                &&& outcome.ready
                &&& !usable(invocations[i].local) ==> outcome.local == Some(token)
            },
    decreases invocations.len(),
{
    if invocations.len() > 0 {
        law_token_reuse(token, credentials, invocations.drop_last());
        assert forall|i: int| 0 <= i < invocations.len() implies {
            let outcome = #[trigger] outcome_at(Some(token), credentials, invocations, i);
            &&& !outcome.round_trip
            &&& outcome.ready
            &&& !usable(invocations[i].local) ==> outcome.local == Some(token)
        } by {
            law_token_reuse(token, credentials, invocations.take(i));
        }
    }
}

/// Against a cold session with good credentials, any number of evaluations by
/// cold clients reaches the remote authenticator once, by the first of them;
/// every one of them ends ready, holding the token that the first was given.
pub proof fn law_single_flight(credentials: CredentialView, invocations: Seq<Invocation>)
    requires
        all_cold(invocations),
        all_answered(invocations),
    ensures
        round_trips(None, Some(credentials), invocations) == if invocations.len() == 0 {
            0nat
        } else {
            1nat
        },
        round_trips(None, Some(credentials), invocations) <= 1,
        invocations.len() > 0 ==> cache_after(None, Some(credentials), invocations)
            == invocations[0].answer,
        forall|i: int|
            0 <= i < invocations.len() ==> {
                let outcome = #[trigger] outcome_at(None, Some(credentials), invocations, i);
                &&& outcome.ready
                &&& outcome.local == invocations[0].answer
                &&& outcome.round_trip == (i == 0)
            },
    decreases invocations.len(),
{
    let creds = Some(credentials);
    if invocations.len() > 0 {
        let earlier = invocations.drop_last();
        assert(all_cold(earlier));
        assert(all_answered(earlier));
        law_single_flight(credentials, earlier);
        if earlier.len() > 0 {
            assert(earlier[0] == invocations[0]);
        }
        assert forall|i: int| 0 <= i < invocations.len() implies {
            let outcome = #[trigger] outcome_at(None, creds, invocations, i);
            &&& outcome.ready
            &&& outcome.local == invocations[0].answer
            &&& outcome.round_trip == (i == 0)
        } by {
            let before = invocations.take(i);
            assert(all_cold(before));
            assert(all_answered(before));
            law_single_flight(credentials, before);
            if i > 0 {
                assert(before[0] == invocations[0]);
            }
        }
    }
}

/// With a token supplied directly and no credentials, no evaluation ever
/// reaches the remote authenticator; every one ends ready, and every cold
/// client proceeds with the supplied token.
pub proof fn law_injected_token(token: Token, invocations: Seq<Invocation>)
    ensures
        round_trips(Some(token), None, invocations) == 0,
        cache_after(Some(token), None, invocations) == Some(token),
        forall|i: int|
            0 <= i < invocations.len() ==> {
                let outcome = #[trigger] outcome_at(Some(token), None, invocations, i);
                &&& !outcome.round_trip
                &&& outcome.ready
                &&& !usable(invocations[i].local) ==> outcome.local == Some(token)
            },
{
    law_token_reuse(token, None, invocations);
}

/// With no credentials and no token, every evaluation by a cold client fails
/// without reaching the remote authenticator, and the cache stays empty.
pub proof fn law_fail_fast(invocations: Seq<Invocation>)
    requires
        all_cold(invocations),
    ensures
        round_trips(None, None, invocations) == 0,
        cache_after(None, None, invocations) is None,
        forall|i: int|
            0 <= i < invocations.len() ==> {
                let outcome = #[trigger] outcome_at(None, None, invocations, i);
                &&& !outcome.round_trip
                &&& !outcome.ready
                &&& decide(invocations[i].local, None, None) == Decision::Unavailable
            },
    decreases invocations.len(),
{
    if invocations.len() > 0 {
        let earlier = invocations.drop_last();
        assert(all_cold(earlier));
        law_fail_fast(earlier);
        assert forall|i: int| 0 <= i < invocations.len() implies {
            let outcome = #[trigger] outcome_at(None, None, invocations, i);
            &&& !outcome.round_trip
            &&& !outcome.ready
            &&& decide(invocations[i].local, None, None) == Decision::Unavailable
        } by {
            let before = invocations.take(i);
            assert(all_cold(before));
            law_fail_fast(before);
        }
    }
}

/// A failed authentication is not remembered: the cache stays as it was, and
/// the next cold client that asks is sent to the remote authenticator again.
pub proof fn law_failure_not_cached(credentials: CredentialView, first: Invocation, next: Invocation)
    requires
        !usable(first.local),
        first.answer is None,
        !usable(next.local),
    ensures
        evaluate(None, Some(credentials), first).cache is None,
        evaluate(None, Some(credentials), first).round_trip,
        !evaluate(None, Some(credentials), first).ready,
        decide(next.local, evaluate(None, Some(credentials), first).cache, Some(credentials))
            == Decision::Authenticate,
{
}

} // verus!
