use vstd::prelude::*;

verus! {

/// Errors surfaced to request handlers. Each variant may carry a message that
/// replaces the variant's default text.
#[derive(Debug, Clone, PartialEq, Eq)]
pub enum AppError {
    NotFound(Option<String>),
    Unauthorized(Option<String>),
    BadRequest(Option<String>),
    InternalError(Option<String>),
    DatabaseError(Option<String>),
}


/// The HTTP status that answers `e`.
pub open spec fn status_of(e: AppError) -> u16 {
    match e {
        AppError::NotFound(_) => 404,
        AppError::Unauthorized(_) => 401,
        AppError::BadRequest(_) => 400,
        AppError::InternalError(_) => 500,
        AppError::DatabaseError(_) => 500,
    }
}

/// The text of the response body for `e`: its own message, or the variant's
/// default text when it carries none.
pub open spec fn body_of(e: AppError) -> Seq<char> {
    match e {
        AppError::NotFound(m) => text_or(m, "Recurso não encontrado"@),
        AppError::Unauthorized(m) => text_or(m, "Não autorizado"@),
        AppError::BadRequest(m) => text_or(m, "Requisição inválida"@),
        AppError::InternalError(m) => text_or(m, "Erro interno do servidor"@),
        AppError::DatabaseError(m) => text_or(m, "Erro interno do servidor"@),
    }
}

pub open spec fn text_or(m: Option<String>, default: Seq<char>) -> Seq<char> {
    match m {
        Some(s) => s@,
        None => default,
    }
}

fn message_or(m: &Option<String>, default: &str) -> (r: String)
    ensures
        r@ == text_or(*m, default@),
{
    match m {
        Some(s) => s.clone(),
        None => default.to_owned(),
    }
}

impl AppError {
    pub fn not_found(msg: &str) -> (r: AppError)
        ensures
            r matches AppError::NotFound(Some(s)) && s@ == msg@,
    {
        AppError::NotFound(Some(msg.to_owned()))
    }

    pub fn unauthorized(msg: &str) -> (r: AppError)
        ensures
            r matches AppError::Unauthorized(Some(s)) && s@ == msg@,
    {
        AppError::Unauthorized(Some(msg.to_owned()))
    }

    pub fn bad_request(msg: &str) -> (r: AppError)
        ensures
            r matches AppError::BadRequest(Some(s)) && s@ == msg@,
    {
        AppError::BadRequest(Some(msg.to_owned()))
    }

    pub fn internal(msg: &str) -> (r: AppError)
        ensures
            r matches AppError::InternalError(Some(s)) && s@ == msg@,
    {
        AppError::InternalError(Some(msg.to_owned()))
    }

    /// The HTTP status of the response that reports this error.
    pub fn status_code(&self) -> (r: u16)
        ensures
            r == status_of(*self),
    {
        match self {
            AppError::NotFound(_) => 404,
            AppError::Unauthorized(_) => 401,
            AppError::BadRequest(_) => 400,
            AppError::InternalError(_) => 500,
            AppError::DatabaseError(_) => 500,
        }
    }

    /// The body of the response that reports this error.
    pub fn message(&self) -> (r: String)
        ensures
            r@ == body_of(*self),
    {
        match self {
            AppError::NotFound(m) => message_or(m, "Recurso não encontrado"),
            AppError::Unauthorized(m) => message_or(m, "Não autorizado"),
            AppError::BadRequest(m) => message_or(m, "Requisição inválida"),
            AppError::InternalError(m) => message_or(m, "Erro interno do servidor"),
            AppError::DatabaseError(m) => message_or(m, "Erro interno do servidor"),
        }
    }
}

} // verus!
