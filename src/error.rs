use sqlx::Error as DriverError;
use vstd::prelude::*;

verus! {

/// HTTP status of a successful request.
pub const STATUS_OK: u16 = 200;

/// HTTP status when a point query matched no row.
pub const STATUS_NOT_FOUND: u16 = 404;

/// HTTP status of any other store failure.
pub const STATUS_INTERNAL_ERROR: u16 = 500;

/// A failure reported by the store, as plain values: either a point query matched
/// no row, or anything else went wrong, described by the driver's text.
pub enum StoreFault {
    RowNotFound,
    Other(String),
}

/// The error taxonomy of the service: a store failure with the status it maps to
/// and the driver's text, or a point query that found nothing.
#[derive(Debug)]
pub enum Error {
    Sqlx(u16, String),
    NotFound,
}

/// A response as handed to the transport: a status and a plain-text or JSON body.
pub struct Response {
    pub status: u16,
    pub body: String,
}

#[verifier::external_type_specification]
#[verifier::external_body]
pub struct ExDriverError(DriverError);

/// What a driver error amounts to: a missing row, or the text that the error displays.
pub uninterp spec fn fault_name(err: DriverError) -> StoreFault;

/// Relies on the variants of `sqlx::Error` and on its `Display` impl: a missing row
/// is `RowNotFound`; every other failure is kept as the text that it displays.
#[verifier::external_body]
fn fault_of(err: DriverError) -> (r: StoreFault)
    ensures
        r == fault_name(err),
{
    match err {
        DriverError::RowNotFound => StoreFault::RowNotFound,
        other => StoreFault::Other(other.to_string()),
    }
}

impl Error {
    /// The error that a store fault maps to.
    pub open spec fn spec_from_fault(f: StoreFault) -> Error {
        match f {
            StoreFault::RowNotFound => Error::NotFound,
            StoreFault::Other(detail) => Error::Sqlx(STATUS_INTERNAL_ERROR, detail),
        }
    }

    /// Maps a store fault: no matching row is `NotFound`, anything else an internal
    /// error carrying the driver's text.
    pub fn from_fault(f: StoreFault) -> (r: Error)
        ensures
            r == Error::spec_from_fault(f),
    {
        match f {
            StoreFault::RowNotFound => Error::NotFound,
            StoreFault::Other(detail) => Error::Sqlx(STATUS_INTERNAL_ERROR, detail),
        }
    }

    /// Maps an error of the SQL driver: a missing row is `NotFound`, any other
    /// failure an internal error carrying the error's text.
    pub fn from_sqlx(err: DriverError) -> (r: Error)
        ensures
            r == Error::spec_from_fault(fault_name(err)),
            r is NotFound || (r is Sqlx && r->Sqlx_0 == STATUS_INTERNAL_ERROR),
    {
        Error::from_fault(fault_of(err))
    }

    pub open spec fn spec_status(&self) -> u16 {
        match *self {
            Error::Sqlx(code, _) => code,
            Error::NotFound => STATUS_NOT_FOUND,
        }
    }

    /// The driver's text for a store failure; nothing for `NotFound`.
    pub open spec fn spec_body(&self) -> Seq<char> {
        match *self {
            Error::Sqlx(_, detail) => detail@,
            Error::NotFound => Seq::empty(),
        }
    }

    /// The status that this error is reported with.
    pub fn status(&self) -> (r: u16)
        ensures
            r == self.spec_status(),
    {
        match self {
            Error::Sqlx(code, _) => *code,
            Error::NotFound => STATUS_NOT_FOUND,
        }
    }

    /// The response for this error: its status, and the driver's text as the body of
    /// a store failure or an empty body for `NotFound`.
    pub fn into_response(self) -> (r: Response)
        ensures
            r.status == self.spec_status(),
            r.body@ == self.spec_body(),
    {
        match self {
            Error::Sqlx(code, detail) => Response { status: code, body: detail },
            Error::NotFound => Response { status: STATUS_NOT_FOUND, body: String::new() },
        }
    }
}

} // verus!
