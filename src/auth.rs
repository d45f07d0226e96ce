use vstd::prelude::*;

use crate::errors::AppError;

verus! {

/// What a verified access token says: the user's identifier as text, the
/// expiry as a Unix timestamp, and the user's access level.
#[derive(Debug, Clone, PartialEq, Eq)]
pub struct Claims {
    pub sub: String,
    pub exp: usize,
    pub access_level: String,
}

#[derive(Debug, Clone, PartialEq, Eq)]
pub struct LoginRequest {
    pub email: String,
    pub password: String,
}

#[derive(Debug, Clone, PartialEq, Eq)]
pub struct ForgotPasswordRequest {
    pub email: String,
}

#[derive(Debug, Clone, PartialEq, Eq)]
pub struct ChangePasswordRequest {
    pub code: String,
    pub password: String,
}

/// The identifier that the text `s` denotes as a UUID, if it is one.
pub uninterp spec fn parsed_uuid(s: Seq<char>) -> Option<u128>;

/// Relies on uuid::Uuid::parse_str (and Uuid::as_u128): the identifier that
/// the text denotes, or none when it is not a UUID; the outcome depends on
/// the text alone.
#[verifier::external_body]
fn parse_uuid(s: &str) -> (r: Option<u128>)
    ensures
        r == parsed_uuid(s@),
{
    match uuid::Uuid::parse_str(s) {
        Ok(u) => Some(u.as_u128()),
        Err(_) => None,
    }
}

/// The user that verified claims name: the subject parsed as a UUID. Any
/// failure is `Unauthorized` without a message.
pub fn user_id(claims: Option<&Claims>) -> (r: Result<u128, AppError>)
    ensures
        match claims {
            None => r == Err::<u128, AppError>(AppError::Unauthorized(None)),
            Some(c) => r == user_id_from_subject(parsed_uuid(c.sub@)),
        },
{
    match claims {
        None => Err(AppError::Unauthorized(None)),
        Some(c) => identity_from_subject(parse_uuid(c.sub.as_str())),
    }
}

pub open spec fn user_id_from_subject(parsed: Option<u128>) -> Result<u128, AppError> {
    match parsed {
        Some(u) => Ok(u),
        None => Err(AppError::Unauthorized(None)),
    }
}

/// Turns a parsed token subject into the caller's identity.
pub fn identity_from_subject(parsed: Option<u128>) -> (r: Result<u128, AppError>)
    ensures
        r == user_id_from_subject(parsed),
{
    match parsed {
        Some(u) => Ok(u),
        None => Err(AppError::Unauthorized(None)),
    }
}

/// The access level in verified claims; without claims the request is
/// unauthorized.
pub fn access_level(claims: Option<&Claims>) -> (r: Result<String, AppError>)
    ensures
        match claims {
            None => r matches Err(AppError::Unauthorized(Some(m))) && m@ == "Token inválido"@,
            Some(c) => r == Ok::<String, AppError>(c.access_level),
        },
{
    match claims {
        None => Err(AppError::Unauthorized(Some("Token inválido".to_owned()))),
        Some(c) => Ok(c.access_level.clone()),
    }
}

/// What became of the token of an upgrade request before any session exists.
#[derive(Debug, Clone, PartialEq, Eq)]
pub enum TokenCheck {
    /// The query string carried no `token`.
    Missing,
    /// The token did not decode or verify.
    Invalid,
    /// The token verified and carried these claims.
    Valid(Claims),
}

/// The outcome of an upgrade request once its subject has been parsed:
/// the user to bind the session to, or the reason to refuse it.
pub open spec fn upgrade_outcome(parsed: Option<u128>) -> Result<u128, Seq<char>> {
    match parsed {
        Some(u) => Ok(u),
        None => Err("ID inválido no token"@),
    }
}

/// Decides whether a WebSocket upgrade may go ahead, and for which user. A
/// missing or invalid token, or a subject that is not a UUID, is refused as
/// `Unauthorized` with a message saying which.
pub fn websocket_entry(token: TokenCheck) -> (r: Result<u128, AppError>)
    ensures
        match token {
            TokenCheck::Missing => r matches Err(AppError::Unauthorized(Some(m))) && m@
                == "Token ausente"@,
            TokenCheck::Invalid => r matches Err(AppError::Unauthorized(Some(m))) && m@
                == "Token inválido"@,
            TokenCheck::Valid(c) => match upgrade_outcome(parsed_uuid(c.sub@)) {
                Ok(u) => r == Ok::<u128, AppError>(u),
                Err(text) => r matches Err(AppError::Unauthorized(Some(m))) && m@ == text,
            },
        },
{
    match token {
        TokenCheck::Missing => Err(AppError::Unauthorized(Some("Token ausente".to_owned()))),
        TokenCheck::Invalid => Err(AppError::Unauthorized(Some("Token inválido".to_owned()))),
        TokenCheck::Valid(c) => upgrade_identity(parse_uuid(c.sub.as_str())),
    }
}

/// Binds an upgrade to the user its parsed subject names, or refuses it.
pub fn upgrade_identity(parsed: Option<u128>) -> (r: Result<u128, AppError>)
    ensures
        match upgrade_outcome(parsed) {
            Ok(u) => r == Ok::<u128, AppError>(u),
            Err(text) => r matches Err(AppError::Unauthorized(Some(m))) && m@ == text,
        },
{
    match parsed {
        Some(u) => Ok(u),
        None => Err(AppError::Unauthorized(Some("ID inválido no token".to_owned()))),
    }
}

} // verus!
