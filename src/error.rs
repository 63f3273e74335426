use vstd::prelude::*;

verus! {

/// Failure of a store operation, as classified by the store driver.
#[derive(Clone, Copy, Debug, PartialEq, Eq, Structural)]
pub enum DbFailure {
    /// The query matched no row.
    RowNotFound,
    /// An insert broke a unique constraint.
    UniqueViolation,
    /// Any other store or transport failure.
    Other,
}

/// The error categories that callers of the engine observe.
#[derive(Clone, Debug)]
pub enum AppError {
    BadRequest(String),
    Unauthorized(String),
    NotFound(String),
    Conflict(String),
    Internal(String),
}

impl AppError {
    /// The human-readable message carried by any category.
    pub open spec fn msg(&self) -> Seq<char> {
        match self {
            AppError::BadRequest(m) => m@,
            AppError::Unauthorized(m) => m@,
            AppError::NotFound(m) => m@,
            AppError::Conflict(m) => m@,
            AppError::Internal(m) => m@,
        }
    }

    /// The response status that each category maps to.
    pub open spec fn status_spec(&self) -> u16 {
        match self {
            AppError::BadRequest(_) => 400,
            AppError::Unauthorized(_) => 401,
            AppError::NotFound(_) => 404,
            AppError::Conflict(_) => 409,
            AppError::Internal(_) => 500,
        }
    }

    pub fn bad_request(msg: &str) -> (r: Self)
        ensures
            r is BadRequest,
            r.msg() == msg@,
    {
        AppError::BadRequest(msg.to_owned())
    }

    pub fn unauthorized(msg: &str) -> (r: Self)
        ensures
            r is Unauthorized,
            r.msg() == msg@,
    {
        AppError::Unauthorized(msg.to_owned())
    }

    pub fn not_found(msg: &str) -> (r: Self)
        ensures
            r is NotFound,
            r.msg() == msg@,
    {
        AppError::NotFound(msg.to_owned())
    }

    pub fn conflict(msg: &str) -> (r: Self)
        ensures
            r is Conflict,
            r.msg() == msg@,
    {
        AppError::Conflict(msg.to_owned())
    }

    pub fn internal(msg: &str) -> (r: Self)
        ensures
            r is Internal,
            r.msg() == msg@,
    {
        AppError::Internal(msg.to_owned())
    }

    /// Maps a store failure to its category: a missing row is `NotFound`, a
    /// unique violation is `Conflict`, anything else is `Internal`. The
    /// message never carries store detail.
    pub fn from_sqlx(e: DbFailure) -> (r: Self)
        ensures
            e == DbFailure::RowNotFound ==> r is NotFound && r.msg() == "not found"@,
            e == DbFailure::UniqueViolation ==> r is Conflict && r.msg() == "already exists"@,
            e == DbFailure::Other ==> r is Internal && r.msg() == "database error"@,
    {
        match e {
            DbFailure::RowNotFound => AppError::not_found("not found"),
            DbFailure::UniqueViolation => AppError::conflict("already exists"),
            DbFailure::Other => AppError::internal("database error"),
        }
    }

    pub fn status_code(&self) -> (r: u16)
        ensures
            r == self.status_spec(),
    {
        match self {
            AppError::BadRequest(_) => 400,
            AppError::Unauthorized(_) => 401,
            AppError::NotFound(_) => 404,
            AppError::Conflict(_) => 409,
            AppError::Internal(_) => 500,
        }
    }

    /// The message shown to the caller.
    pub fn message(&self) -> (r: String)
        ensures
            r@ == self.msg(),
    {
        match self {
            AppError::BadRequest(m) => m.clone(),
            AppError::Unauthorized(m) => m.clone(),
            AppError::NotFound(m) => m.clone(),
            AppError::Conflict(m) => m.clone(),
            AppError::Internal(m) => m.clone(),
        }
    }
}

} // verus!
