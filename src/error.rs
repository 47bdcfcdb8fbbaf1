//! The service's error taxonomy and how each error is shown to a client.
use vstd::prelude::*;

verus! {

/// Every way a request can fail.
///
/// `Internal` and `Database` carry a detail meant for the server log only; a
/// client sees a fixed message for them.
#[derive(Debug)]
pub enum AppError {
    NotFound,
    Unauthorized,
    Forbidden,
    BadRequest(String),
    Conflict(String),
    Internal(String),
    Database(String),
}

pub type AppResult<T> = Result<T, AppError>;

/// The HTTP status that answers each error.
pub open spec fn status_of(e: AppError) -> u16 {
    match e {
        AppError::NotFound => 404,
        AppError::Unauthorized => 401,
        AppError::Forbidden => 403,
        AppError::BadRequest(_) => 400,
        AppError::Conflict(_) => 409,
        AppError::Internal(_) => 500,
        AppError::Database(_) => 500,
    }
}

/// The text a client is shown for each error: the message of a bad request or
/// a conflict, a fixed word for the others, never an internal detail.
pub open spec fn public_message_of(e: AppError) -> Seq<char> {
    match e {
        AppError::NotFound => "Not found"@,
        AppError::Unauthorized => "Unauthorized"@,
        AppError::Forbidden => "Forbidden"@,
        AppError::BadRequest(m) => m@,
        AppError::Conflict(m) => m@,
        AppError::Internal(_) => "Internal server error"@,
        AppError::Database(_) => "Database error"@,
    }
}

/// The store's error code for a violated uniqueness constraint.
pub const DUPLICATE_KEY_CODE: i32 = 11000;

/// The message of the conflict raised when an email or username is taken.
pub open spec fn taken_message() -> Seq<char> {
    "Email or username already taken"@
}

impl AppError {
    pub fn status_code(&self) -> (r: u16)
        ensures
            r == status_of(*self),
    {
        match self {
            AppError::NotFound => 404,
            AppError::Unauthorized => 401,
            AppError::Forbidden => 403,
            AppError::BadRequest(_) => 400,
            AppError::Conflict(_) => 409,
            AppError::Internal(_) => 500,
            AppError::Database(_) => 500,
        }
    }

    pub fn public_message(&self) -> (r: String)
        ensures
            r@ == public_message_of(*self),
    {
        match self {
            AppError::NotFound => "Not found".to_string(),
            AppError::Unauthorized => "Unauthorized".to_string(),
            AppError::Forbidden => "Forbidden".to_string(),
            AppError::BadRequest(m) => m.clone(),
            AppError::Conflict(m) => m.clone(),
            AppError::Internal(_) => "Internal server error".to_string(),
            AppError::Database(_) => "Database error".to_string(),
        }
    }

    /// Classifies a failed store write: a uniqueness violation becomes a
    /// conflict, anything else a storage failure carrying `detail`.
    pub fn from_store_failure(code: Option<i32>, detail: String) -> (r: AppError)
        ensures
            code == Some(DUPLICATE_KEY_CODE) ==> (r matches AppError::Conflict(m) && m@
                == taken_message()),
            code != Some(DUPLICATE_KEY_CODE) ==> r == AppError::Database(detail),
    {
        match code {
            Some(c) if c == DUPLICATE_KEY_CODE => AppError::Conflict(
                "Email or username already taken".to_string(),
            ),
            _ => AppError::Database(detail),
        }
    }
}

/// The entity a store lookup or atomic update found, or `NotFound`.
pub fn found_or_not_found<T>(found: Option<T>) -> (r: AppResult<T>)
    ensures
        match found {
            Some(x) => r == AppResult::<T>::Ok(x),
            None => r == AppResult::<T>::Err(AppError::NotFound),
        },
{
    match found {
        Some(x) => Ok(x),
        None => Err(AppError::NotFound),
    }
}

/// The outcome of a delete by identifier that removed `deleted` entities:
/// `NotFound` when there was nothing to remove.
pub fn deleted_or_not_found(deleted: u64) -> (r: AppResult<()>)
    ensures
        deleted == 0 ==> r == AppResult::<()>::Err(AppError::NotFound),
        deleted > 0 ==> r == AppResult::<()>::Ok(()),
{
    if deleted == 0 {
        Err(AppError::NotFound)
    } else {
        Ok(())
    }
}

} // verus!
