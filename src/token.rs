//! The csrf token: its store, how it is renewed, and the single replay of a
//! request that the provider refused because the token had expired.
use vstd::prelude::*;
use crate::errors::GmailnatorError;
use crate::markup::{first_groups, opt_view, regex_first_groups};

verus! {

/// Finds the token in the `Set-Cookie` header of the landing page.
pub const CSRF_PATTERN: &'static str = "csrf_gmailnator_cookie=(.*?);";

/// The status with which the provider refuses a request whose token expired.
pub const TOKEN_EXPIRED_STATUS: u16 = 403;

/// The token that a `Set-Cookie` header carries, if any.
pub open spec fn token_in_header(header: Seq<char>) -> Option<Seq<char>> {
    let groups = first_groups(CSRF_PATTERN@, header);
    if groups.len() > 0 {
        groups[0]
    } else {
        None
    }
}

/// Holds the current csrf token, if one was obtained. Owned by its user, who
/// guards it with a lock where several threads share it.
pub struct TokenStore {
    token: Option<String>,
}

impl TokenStore {
    /// The token held.
    pub closed spec fn token(&self) -> Option<Seq<char>> {
        opt_view(self.token)
    }

    /// A store that holds no token yet.
    pub fn new() -> (r: Self)
        ensures
            r.token() is None,
    {
        Self { token: None }
    }
}

/// A copy of the token held.
pub fn get_token_sync(store: &TokenStore) -> (r: Option<String>)
    ensures
        opt_view(r) == store.token(),
{
    match &store.token {
        Some(t) => Some(t.clone()),
        None => None,
    }
}

/// Replaces the token held.
pub fn set_token_sync(store: &mut TokenStore, token: String)
    ensures
        final(store).token() == Some(token@),
{
    store.token = Some(token);
}

/// Whether a renewal has to fetch a new token: when none is held, or when
/// `overwrite` asks for a fresh one.
pub fn token_needs_renewal(store: &TokenStore, overwrite: bool) -> (r: bool)
    ensures
        r == (store.token() is None || overwrite),
{
    store.token.is_none() || overwrite
}

/// Finishes a renewal. `fetched` is the `Set-Cookie` header of the landing
/// page, or none when it could not be fetched; it is read only when
/// `token_needs_renewal` holds. A token found in it replaces the one held.
pub fn renew_token(store: &mut TokenStore, overwrite: bool, fetched: Option<String>) -> (r: Result<
    (),
    GmailnatorError,
>)
    ensures
        !(old(store).token() is None || overwrite) ==> r is Ok && final(store).token() == old(
            store,
        ).token(),
        (old(store).token() is None || overwrite) ==> match fetched {
            None => r matches Err(GmailnatorError::TokenFetchError) && final(store).token() == old(
                store,
            ).token(),
            Some(header) => match token_in_header(header@) {
                Some(t) => r is Ok && final(store).token() == Some(t),
                None => r matches Err(GmailnatorError::TokenFetchError) && final(store).token()
                    == old(store).token(),
            },
        },
{
    if !token_needs_renewal(store, overwrite) {
        return Ok(());
    }
    match fetched {
        None => Err(GmailnatorError::TokenFetchError),
        Some(header) => {
            let groups = regex_first_groups(CSRF_PATTERN, header.as_str());
            if groups.len() == 0 {
                return Err(GmailnatorError::TokenFetchError);
            }
            let first = &groups[0];
            match first {
                Some(t) => {
                    set_token_sync(store, t.clone());
                    Ok(())
                },
                None => Err(GmailnatorError::TokenFetchError),
            }
        },
    }
}

/// What to do with the outcome of an authenticated request.
pub enum ReplayStep {
    /// Renew the token (with `overwrite`) and send the same request once more.
    RenewAndReplay,
    /// The request is over, with this result.
    Finished(Result<String, GmailnatorError>),
}

/// The decision on `result`, when a replay was already made or not.
pub open spec fn replay_step(replayed: bool, result: Result<String, GmailnatorError>) -> ReplayStep {
    if !replayed && (result matches Err(GmailnatorError::ServerError(status)) && status
        == TOKEN_EXPIRED_STATUS) {
        ReplayStep::RenewAndReplay
    } else {
        ReplayStep::Finished(result)
    }
}

/// Tracks whether an authenticated request was already replayed.
pub struct TokenReplay {
    replayed: bool,
}

impl TokenReplay {
    /// Whether the request was replayed.
    pub closed spec fn replayed(&self) -> bool {
        self.replayed
    }

    /// Before the first send.
    pub fn new() -> (r: Self)
        ensures
            !r.replayed(),
    {
        Self { replayed: false }
    }

    /// Decides what follows `result`.
    pub fn on_result(&mut self, result: Result<String, GmailnatorError>) -> (step: ReplayStep)
        ensures
            step == replay_step(old(self).replayed(), result),
            final(self).replayed() == (old(self).replayed() || step is RenewAndReplay),
    {
        let expired = match &result {
            Err(GmailnatorError::ServerError(status)) => *status == TOKEN_EXPIRED_STATUS,
            _ => false,
        };
        if !self.replayed && expired {
            self.replayed = true;
            ReplayStep::RenewAndReplay
        } else {
            ReplayStep::Finished(result)
        }
    }
}

/// After one replay every outcome is final, so an authenticated request is
/// sent at most twice.
pub proof fn lemma_single_replay(result: Result<String, GmailnatorError>)
    ensures
        replay_step(true, result) == ReplayStep::Finished(result),
{
}

} // verus!
