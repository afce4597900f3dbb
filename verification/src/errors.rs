use vstd::prelude::*;

verus! {

/// The application's error kinds; each carries a human-readable detail.
#[derive(Debug, Clone)]
pub enum AppError {
    NotFound(String),
    Unauthorized(String),
    Forbidden(String),
    BadRequest(String),
    Conflict(String),
    Validation(String),
    Internal(String),
}

pub type AppResult<T> = Result<T, AppError>;

impl AppError {
    /// The detail text carried by every variant.
    pub open spec fn detail(self) -> Seq<char> {
        match self {
            AppError::NotFound(m) => m@,
            AppError::Unauthorized(m) => m@,
            AppError::Forbidden(m) => m@,
            AppError::BadRequest(m) => m@,
            AppError::Conflict(m) => m@,
            AppError::Validation(m) => m@,
            AppError::Internal(m) => m@,
        }
    }

    pub fn not_found(msg: &str) -> (r: Self)
        ensures
            r is NotFound,
            r.detail() == msg@,
    {
        AppError::NotFound(String::from_str(msg))
    }

    pub fn unauthorized(msg: &str) -> (r: Self)
        ensures
            r is Unauthorized,
            r.detail() == msg@,
    {
        AppError::Unauthorized(String::from_str(msg))
    }

    pub fn forbidden(msg: &str) -> (r: Self)
        ensures
            r is Forbidden,
            r.detail() == msg@,
    {
        AppError::Forbidden(String::from_str(msg))
    }

    pub fn bad_request(msg: &str) -> (r: Self)
        ensures
            r is BadRequest,
            r.detail() == msg@,
    {
        AppError::BadRequest(String::from_str(msg))
    }

    pub fn conflict(msg: &str) -> (r: Self)
        ensures
            r is Conflict,
            r.detail() == msg@,
    {
        AppError::Conflict(String::from_str(msg))
    }

    pub fn validation(msg: &str) -> (r: Self)
        ensures
            r is Validation,
            r.detail() == msg@,
    {
        AppError::Validation(String::from_str(msg))
    }

    pub fn internal(msg: &str) -> (r: Self)
        ensures
            r is Internal,
            r.detail() == msg@,
    {
        AppError::Internal(String::from_str(msg))
    }

    /// The words that open this error's one-line description.
    pub open spec fn label(self) -> Seq<char> {
        match self {
            AppError::NotFound(_) => "not found"@,
            AppError::Unauthorized(_) => "unauthorized"@,
            AppError::Forbidden(_) => "forbidden"@,
            AppError::BadRequest(_) => "bad request"@,
            AppError::Conflict(_) => "conflict"@,
            AppError::Validation(_) => "validation error"@,
            AppError::Internal(_) => "internal error"@,
        }
    }

    /// The one-line description of the error: its label, a colon and the
    /// detail between backquotes, such as ``not found: `user` ``.
    pub fn display_message(&self) -> (r: String)
        ensures
            r@ == self.label() + ": `"@ + self.detail() + "`"@,
    {
        let (label, detail) = match self {
            AppError::NotFound(m) => ("not found", m),
            AppError::Unauthorized(m) => ("unauthorized", m),
            AppError::Forbidden(m) => ("forbidden", m),
            AppError::BadRequest(m) => ("bad request", m),
            AppError::Conflict(m) => ("conflict", m),
            AppError::Validation(m) => ("validation error", m),
            AppError::Internal(m) => ("internal error", m),
        };
        proof {
            reveal_strlit("not found");
            reveal_strlit("unauthorized");
            reveal_strlit("forbidden");
            reveal_strlit("bad request");
            reveal_strlit("conflict");
            reveal_strlit("validation error");
            reveal_strlit("internal error");
        }
        let r = String::from_str(label).concat(": `").concat(detail.as_str()).concat("`");
        r
    }
}

} // verus!
