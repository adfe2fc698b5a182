//! Why an exchange fails.

use crate::headers::{refused_field, refused_value};
use http::header::{InvalidHeaderValue, MaxSizeReached};
use std::sync::Arc;
use vstd::prelude::*;

verus! {

/// `std::io::Error`, carried through unread.
#[verifier::external_type_specification]
#[verifier::external_body]
pub struct ExIoError(std::io::Error);

/// Why an exchange failed.
///
/// The faults of the network are held by shared handles, so that one failure
/// can be reported again and again.
#[derive(Debug, Clone)]
pub enum HttpError {
    /// The URI names a scheme other than `http` and `https`.
    UnexpectedScheme(String),
    /// Neither the URI nor the headers name a host.
    MissingHost,
    /// The connection could not be established.
    ConnectError(Arc<std::io::Error>),
    /// Reading from or writing to the established connection failed.
    IoError(Arc<std::io::Error>),
}

/// What an [`HttpError`] says, with text as a sequence of characters and the
/// fault itself in place of the handle on it.
pub enum Failure {
    UnexpectedScheme(Seq<char>),
    MissingHost,
    ConnectError(std::io::Error),
    IoError(std::io::Error),
}

impl View for HttpError {
    type V = Failure;

    open spec fn view(&self) -> Failure {
        match *self {
            HttpError::UnexpectedScheme(scheme) => Failure::UnexpectedScheme(scheme@),
            HttpError::MissingHost => Failure::MissingHost,
            HttpError::ConnectError(fault) => Failure::ConnectError(*fault),
            HttpError::IoError(fault) => Failure::IoError(*fault),
        }
    }
}

/// Why the fields of a head could not be built: the `http` crate has refused
/// something, and this is its refusal.
#[derive(Debug)]
pub enum HeadError {
    /// A text was refused as the value of a field.
    Value(InvalidHeaderValue),
    /// The map refused to hold one more field.
    Fields(MaxSizeReached),
}

impl HeadError {
    /// The refusal as an I/O fault, which is how an exchange reports it.
    pub(crate) fn into_fault(self) -> std::io::Error {
        match self {
            HeadError::Value(cause) => refused_value(cause),
            HeadError::Fields(cause) => refused_field(cause),
        }
    }
}

/// `Arc::clone` on a shared I/O fault: the new handle points at the same fault.
#[verifier::external_body]
fn share_fault(fault: &Arc<std::io::Error>) -> (shared: Arc<std::io::Error>)
    ensures
        shared == *fault,
{
    fault.clone()
}

impl HttpError {
    /// A second handle on the same error.
    pub fn share(&self) -> (shared: HttpError)
        ensures
            shared == *self,
    {
        match self {
            HttpError::UnexpectedScheme(scheme) => HttpError::UnexpectedScheme(scheme.clone()),
            HttpError::MissingHost => HttpError::MissingHost,
            HttpError::ConnectError(fault) => HttpError::ConnectError(share_fault(fault)),
            HttpError::IoError(fault) => HttpError::IoError(share_fault(fault)),
        }
    }
}

} // verus!
