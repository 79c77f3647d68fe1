use vstd::prelude::*;

verus! {

/// The errors of the service.
pub enum ApiError {
    /// A lookup found no record.
    NotFound,
    /// Field name to message; no operation produces it yet.
    ValidationError(Vec<(String, String)>),
    /// An external source could not be read; carries its name.
    ExternalApiError(String),
    /// The store failed; details are kept from the caller.
    DatabaseError,
    /// Anything else.
    InternalError,
}

/// The HTTP status of each error.
pub open spec fn status_of(e: ApiError) -> u16 {
    match e {
        ApiError::NotFound => 404,
        ApiError::ValidationError(_) => 400,
        ApiError::ExternalApiError(_) => 503,
        ApiError::DatabaseError => 500,
        ApiError::InternalError => 500,
    }
}

impl ApiError {
    /// The HTTP status code answered for this error.
    pub fn status_code(&self) -> (r: u16)
        ensures
            r == status_of(*self),
    {
        match self {
            ApiError::NotFound => 404,
            ApiError::ValidationError(_) => 400,
            ApiError::ExternalApiError(_) => 503,
            ApiError::DatabaseError => 500,
            ApiError::InternalError => 500,
        }
    }

    /// The short message shown to the client.
    pub fn message(&self) -> (r: &'static str)
        ensures
            r@ == (match *self {
                ApiError::NotFound => "Country not found"@,
                ApiError::ValidationError(_) => "Validation failed"@,
                ApiError::ExternalApiError(_) => "External data source unavailable"@,
                ApiError::DatabaseError => "Internal server error"@,
                ApiError::InternalError => "Internal server error"@,
            }),
    {
        match self {
            ApiError::NotFound => "Country not found",
            ApiError::ValidationError(_) => "Validation failed",
            ApiError::ExternalApiError(_) => "External data source unavailable",
            ApiError::DatabaseError => "Internal server error",
            ApiError::InternalError => "Internal server error",
        }
    }

    /// The explanatory text for an unavailable source; the other errors
    /// carry no text of their own.
    pub fn detail_text(&self) -> (r: Option<String>)
        ensures
            match *self {
                ApiError::ExternalApiError(name) => r matches Some(t) && t@
                    == "Could not fetch data from "@ + name@,
                _ => r is None,
            },
    {
        match self {
            ApiError::ExternalApiError(name) => {
                let mut t = String::from_str("Could not fetch data from ");
                t.append(name.as_str());
                Some(t)
            },
            _ => None,
        }
    }
}

} // verus!
