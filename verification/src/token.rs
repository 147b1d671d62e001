//! The tokens of the two remote services, as the client holds them in memory.
//!
//! A token is also kept in the client's database. What is in memory is a copy
//! that spares the look there; it changes only after the database has.

use vstd::prelude::*;

verus! {

/// The tokens that the client holds in memory.
#[derive(Debug)]
pub struct TokenCache {
    /// The token of the translation service.
    pub moetran: Option<String>,
    /// The token of the workflow service.
    pub poprako: Option<String>,
}

/// The token that a look into memory and, where memory holds none, into the
/// database finds.
pub open spec fn found_token(held: Option<String>, loaded: Result<String, String>) -> Option<
    String,
> {
    match held {
        Some(token) => Some(token),
        None => match loaded {
            Ok(token) => Some(token),
            Err(_) => None,
        },
    }
}

/// What a change of the database leaves in memory: `value` if the change
/// went through, and what was held before if it did not.
pub open spec fn after_change(
    held: Option<String>,
    changed: Result<(), String>,
    value: Option<String>,
) -> Option<String> {
    match changed {
        Ok(_) => value,
        Err(_) => held,
    }
}

impl TokenCache {
    /// A cache that holds no token.
    pub fn new() -> (cache: TokenCache)
        ensures
            cache.moetran is None,
            cache.poprako is None,
    {
        TokenCache { moetran: None, poprako: None }
    }
}

/// The token of the translation service that is held in memory.
pub fn cached_moetran_token(cache: &TokenCache) -> (token: Option<String>)
    ensures
        token == cache.moetran,
{
    match &cache.moetran {
        Some(token) => Some(token.clone()),
        None => None,
    }
}

/// The token of the workflow service that is held in memory.
pub fn cached_poprako_token(cache: &TokenCache) -> (token: Option<String>)
    ensures
        token == cache.poprako,
{
    match &cache.poprako {
        Some(token) => Some(token.clone()),
        None => None,
    }
}

/// The token of the translation service. `loaded` is what the database
/// holds, or why it gave nothing; it counts only where memory holds no
/// token, and a token that it gives is held in memory from then on. A
/// database that gives nothing means that there is no token, not an error.
pub fn get_moetran_token(cache: &mut TokenCache, loaded: Result<String, String>) -> (r: Result<
    Option<String>,
    String,
>)
    ensures
        r == Ok::<Option<String>, String>(found_token(old(cache).moetran, loaded)),
        final(cache).moetran == found_token(old(cache).moetran, loaded),
        final(cache).poprako == old(cache).poprako,
{
    let held = cached_moetran_token(cache);
    match held {
        Some(token) => Ok(Some(token)),
        None => match loaded {
            Ok(token) => {
                cache.moetran = Some(token.clone());
                Ok(Some(token))
            },
            Err(_) => Ok(None),
        },
    }
}

/// Holds a new token of the translation service in memory, once the
/// database has it: `saved` says whether it does.
pub fn save_moetran_token(cache: &mut TokenCache, token: String, saved: Result<(), String>) -> (r:
    Result<(), String>)
    ensures
        r == saved,
        final(cache).moetran == after_change(old(cache).moetran, saved, Some(token)),
        final(cache).poprako == old(cache).poprako,
{
    if saved.is_ok() {
        cache.moetran = Some(token);
    }
    saved
}

/// Forgets the token of the translation service, once the database has:
/// `removed` says whether it has.
pub fn remove_moetran_token(cache: &mut TokenCache, removed: Result<(), String>) -> (r: Result<
    (),
    String,
>)
    ensures
        r == removed,
        final(cache).moetran == after_change(old(cache).moetran, removed, None),
        final(cache).poprako == old(cache).poprako,
{
    if removed.is_ok() {
        cache.moetran = None;
    }
    removed
}

/// The token of the workflow service; as `get_moetran_token`.
pub fn get_poprako_token(cache: &mut TokenCache, loaded: Result<String, String>) -> (r: Result<
    Option<String>,
    String,
>)
    ensures
        r == Ok::<Option<String>, String>(found_token(old(cache).poprako, loaded)),
        final(cache).poprako == found_token(old(cache).poprako, loaded),
        final(cache).moetran == old(cache).moetran,
{
    let held = cached_poprako_token(cache);
    match held {
        Some(token) => Ok(Some(token)),
        None => match loaded {
            Ok(token) => {
                cache.poprako = Some(token.clone());
                Ok(Some(token))
            },
            Err(_) => Ok(None),
        },
    }
}

/// Holds a new token of the workflow service in memory, once the database
/// has it.
pub fn save_poprako_token(cache: &mut TokenCache, token: String, saved: Result<(), String>) -> (r:
    Result<(), String>)
    ensures
        r == saved,
        final(cache).poprako == after_change(old(cache).poprako, saved, Some(token)),
        final(cache).moetran == old(cache).moetran,
{
    if saved.is_ok() {
        cache.poprako = Some(token);
    }
    saved
}

/// Forgets the token of the workflow service, once the database has.
pub fn remove_poprako_token(cache: &mut TokenCache, removed: Result<(), String>) -> (r: Result<
    (),
    String,
>)
    ensures
        r == removed,
        final(cache).poprako == after_change(old(cache).poprako, removed, None),
        final(cache).moetran == old(cache).moetran,
{
    if removed.is_ok() {
        cache.poprako = None;
    }
    removed
}

} // verus!
