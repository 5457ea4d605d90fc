//! The kinds of failure, and the failures of the exchange with the hub.

use crate::text::{decimal, decimal_text};
use vstd::prelude::*;
use vstd::string::*;

verus! {

/// The kind of a failure, whatever context it carries.
#[derive(Debug, Clone, Copy, PartialEq, Eq, Structural)]
pub enum ErrorKind {
    /// The client could not be built from the configuration.
    ClientConstruction,
    /// The hub answered with a status outside 200..=299.
    HttpStatus,
    /// No usable answer arrived: the network failed, the request timed out
    /// or the body could not be decoded.
    Transport,
    /// The state itself was to be read and the entity has none.
    MissingState,
    /// An attribute was to be read and the entity has no attributes.
    MissingAttributes,
    /// The named attribute is not among the entity's attributes.
    MissingField,
    /// The named attribute is there and is not a string.
    NonStringField,
    /// The text found is not a number.
    Parse,
}

/// A failure of the exchange with the hub.
#[derive(Debug, Clone, PartialEq, Eq)]
pub enum HaError {
    /// The client could not be built.
    Construction { detail: String },
    /// The hub answered with `status`, outside 200..=299, and this body.
    Status { status: u16, body: String },
    /// No usable answer arrived.
    Transport { detail: String },
}

/// Mathematical value of an [`HaError`].
pub enum HaErrorView {
    Construction { detail: Seq<char> },
    Status { status: u16, body: Seq<char> },
    Transport { detail: Seq<char> },
}

impl HaErrorView {
    pub open spec fn kind(self) -> ErrorKind {
        match self {
            HaErrorView::Construction { .. } => ErrorKind::ClientConstruction,
            HaErrorView::Status { .. } => ErrorKind::HttpStatus,
            HaErrorView::Transport { .. } => ErrorKind::Transport,
        }
    }

    /// The failure in words.
    pub open spec fn message(self) -> Seq<char> {
        match self {
            HaErrorView::Construction { detail } => "invalid client configuration: "@ + detail,
            HaErrorView::Status { status, body } => "hub answered with status "@ + decimal(
                status as nat,
            ) + ": "@ + body,
            HaErrorView::Transport { detail } => "transport failure: "@ + detail,
        }
    }
}

impl View for HaError {
    type V = HaErrorView;

    open spec fn view(&self) -> HaErrorView {
        match self {
            HaError::Construction { detail } => HaErrorView::Construction { detail: detail@ },
            HaError::Status { status, body } => HaErrorView::Status {
                status: *status,
                body: body@,
            },
            HaError::Transport { detail } => HaErrorView::Transport { detail: detail@ },
        }
    }
}

impl HaError {
    /// The kind of this failure.
    pub fn kind(&self) -> (k: ErrorKind)
        ensures
            k == self@.kind(),
    {
        match self {
            HaError::Construction { .. } => ErrorKind::ClientConstruction,
            HaError::Status { .. } => ErrorKind::HttpStatus,
            HaError::Transport { .. } => ErrorKind::Transport,
        }
    }

    /// The failure in words, with everything it carries.
    pub fn message(&self) -> (m: String)
        ensures
            m@ == self@.message(),
    {
        match self {
            HaError::Construction { detail } => {
                String::from_str("invalid client configuration: ").concat(detail.as_str())
            },
            HaError::Status { status, body } => {
                let digits: String = decimal_text(*status);
                String::from_str("hub answered with status ").concat(digits.as_str()).concat(
                    ": ",
                ).concat(body.as_str())
            },
            HaError::Transport { detail } => {
                String::from_str("transport failure: ").concat(detail.as_str())
            },
        }
    }
}

} // verus!
