//! Platform-client decision rules: the closed error taxonomy, plain models of
//! the catalog data, and the mapping from token-validation and fetch outcomes
//! to typed results. The network round trips themselves are asynchronous I/O
//! and live outside the library; they hand their outcomes in as plain values.

use vstd::prelude::*;

verus! {

/// Closed error taxonomy for platform operations: a remote call failed, the
/// token exchange failed, or the authenticated identity could not be resolved.
#[derive(Clone, Copy, Debug, PartialEq, Eq, Structural)]
pub enum TwitchError {
    ClientError,
    TokenError,
    UserIdError,
}

/// The banner text for each error.
pub open spec fn error_text(e: TwitchError) -> Seq<char> {
    match e {
        TwitchError::ClientError => "client request failed"@,
        TwitchError::TokenError => "token validation failed"@,
        TwitchError::UserIdError => "no user id for token"@,
    }
}

impl TwitchError {
    /// Short human-readable description, shown in the error banner.
    pub fn describe(&self) -> (r: &'static str)
        ensures
            r@ == error_text(*self),
    {
        match self {
            TwitchError::ClientError => "client request failed",
            TwitchError::TokenError => "token validation failed",
            TwitchError::UserIdError => "no user id for token",
        }
    }
}

/// A catalog category, reduced to what the client logic reads of it.
#[derive(Clone, Debug, PartialEq, Eq)]
pub struct TwitchCategory {
    pub id: String,
    pub name: String,
}

/// A live stream, reduced to what the client logic reads of it.
#[derive(Clone, Debug, PartialEq, Eq)]
pub struct Stream {
    pub user_name: String,
    pub title: String,
}

/// What a successful token exchange yields: the authenticated user's
/// identifier, when the platform resolved one from the token.
#[derive(Clone, Debug, PartialEq, Eq)]
pub struct UserAuth {
    pub user_id: Option<String>,
}

/// Outcome of validating a bearer token against the platform.
#[derive(Clone, Debug, PartialEq, Eq)]
pub enum TokenValidation {
    Valid(UserAuth),
    Invalid,
}

/// Outcome of one paged catalog fetch: the first page of items, or a failed
/// round trip (network, HTTP status, or decode).
#[derive(Debug, PartialEq, Eq)]
pub enum FetchOutcome<T> {
    Fetched(T),
    Failed,
}

/// Maps a token-validation outcome to the session's user authorization, or
/// `TokenError` when the exchange failed.
pub fn get_token(validation: TokenValidation) -> (r: Result<UserAuth, TwitchError>)
    ensures
        validation matches TokenValidation::Valid(auth) ==> r == Ok::<UserAuth, TwitchError>(auth),
        validation is Invalid ==> r == Err::<UserAuth, TwitchError>(TwitchError::TokenError),
{
    match validation {
        TokenValidation::Valid(auth) => Ok(auth),
        TokenValidation::Invalid => Err(TwitchError::TokenError),
    }
}

/// Collapses a login attempt to a boolean: true exactly when the token is
/// non-empty and the platform validated it. Any failure is false; the
/// underlying error is never surfaced to the caller.
pub fn check_login(token: &str, validation: &TokenValidation) -> (r: bool)
    ensures
        r == (token@.len() != 0 && validation is Valid),
{
    !token.is_empty() && matches!(validation, TokenValidation::Valid(_))
}

/// Result of a top-categories request: the fetched first page on success,
/// `TokenError` when the token exchange failed, `ClientError` when the
/// round trip failed.
pub fn get_top_categories(
    validation: &TokenValidation,
    fetch: FetchOutcome<Vec<TwitchCategory>>,
) -> (r: Result<Vec<TwitchCategory>, TwitchError>)
    ensures
        validation is Invalid ==> r == Err::<Vec<TwitchCategory>, TwitchError>(
            TwitchError::TokenError,
        ),
        fetch matches FetchOutcome::Fetched(items) ==> (validation is Valid ==> r == Ok::<
            Vec<TwitchCategory>,
            TwitchError,
        >(items)),
        validation is Valid && fetch is Failed ==> r == Err::<Vec<TwitchCategory>, TwitchError>(
            TwitchError::ClientError,
        ),
{
    match validation {
        TokenValidation::Invalid => Err(TwitchError::TokenError),
        TokenValidation::Valid(_) => match fetch {
            FetchOutcome::Fetched(items) => Ok(items),
            FetchOutcome::Failed => Err(TwitchError::ClientError),
        },
    }
}

/// Result of a streams request (optionally filtered by category): the fetched
/// first page on success, `TokenError` when the token exchange failed,
/// `ClientError` when the round trip failed.
pub fn get_streams(
    validation: &TokenValidation,
    fetch: FetchOutcome<Vec<Stream>>,
) -> (r: Result<Vec<Stream>, TwitchError>)
    ensures
        validation is Invalid ==> r == Err::<Vec<Stream>, TwitchError>(TwitchError::TokenError),
        fetch matches FetchOutcome::Fetched(items) ==> (validation is Valid ==> r == Ok::<
            Vec<Stream>,
            TwitchError,
        >(items)),
        validation is Valid && fetch is Failed ==> r == Err::<Vec<Stream>, TwitchError>(
            TwitchError::ClientError,
        ),
{
    match validation {
        TokenValidation::Invalid => Err(TwitchError::TokenError),
        TokenValidation::Valid(_) => match fetch {
            FetchOutcome::Fetched(items) => Ok(items),
            FetchOutcome::Failed => Err(TwitchError::ClientError),
        },
    }
}

/// Result of a followed-streams request. It needs the authenticated user's
/// identity: a valid token without a resolvable user id yields `UserIdError`
/// and no fetch is consulted.
pub fn get_followed_streams(
    validation: &TokenValidation,
    fetch: FetchOutcome<Vec<Stream>>,
) -> (r: Result<Vec<Stream>, TwitchError>)
    ensures
        validation is Invalid ==> r == Err::<Vec<Stream>, TwitchError>(TwitchError::TokenError),
        validation matches TokenValidation::Valid(auth) ==> (if auth.user_id is None {
            r == Err::<Vec<Stream>, TwitchError>(TwitchError::UserIdError)
        } else {
            (fetch matches FetchOutcome::Fetched(items) ==> r == Ok::<Vec<Stream>, TwitchError>(
                items,
            )) && (fetch is Failed ==> r == Err::<Vec<Stream>, TwitchError>(
                TwitchError::ClientError,
            ))
        }),
{
    match validation {
        TokenValidation::Invalid => Err(TwitchError::TokenError),
        TokenValidation::Valid(auth) => match &auth.user_id {
            None => Err(TwitchError::UserIdError),
            Some(_) => match fetch {
                FetchOutcome::Fetched(items) => Ok(items),
                FetchOutcome::Failed => Err(TwitchError::ClientError),
            },
        },
    }
}

} // verus!
