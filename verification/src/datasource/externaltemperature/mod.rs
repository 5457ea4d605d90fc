//! A temperature read from outside, and the ways in which reading it fails.

pub mod homeassistant;

use crate::datasource::error::{ErrorKind, HaError, HaErrorView};
use vstd::prelude::*;
use vstd::string::*;

verus! {

/// A failed extraction: what failed, and on which entity, attribute or text.
#[derive(Debug, Clone, PartialEq, Eq)]
pub enum ExternalTemperatureErr {
    /// The client could not be created.
    Client { cause: HaError },
    /// The state of `entity_id` could not be fetched.
    Fetch { entity_id: String, cause: HaError },
    /// The state itself was to be read and `entity_id` has none.
    MissingState { entity_id: String },
    /// An attribute was to be read and `entity_id` has no attributes.
    MissingAttributes { entity_id: String },
    /// The attributes hold no member named `field`.
    MissingField { field: String },
    /// The member named `field` is not a string.
    NonStringField { field: String },
    /// `candidate` is not a number; `detail` says why.
    Parse { candidate: String, detail: String },
}

/// Mathematical value of an [`ExternalTemperatureErr`].
pub enum ExternalTemperatureErrView {
    Client { cause: HaErrorView },
    Fetch { entity_id: Seq<char>, cause: HaErrorView },
    MissingState { entity_id: Seq<char> },
    MissingAttributes { entity_id: Seq<char> },
    MissingField { field: Seq<char> },
    NonStringField { field: Seq<char> },
    Parse { candidate: Seq<char>, detail: Seq<char> },
}

impl ExternalTemperatureErrView {
    /// The kind of the failure; a failure of the exchange keeps its own kind.
    pub open spec fn kind(self) -> ErrorKind {
        match self {
            ExternalTemperatureErrView::Client { cause } => cause.kind(),
            ExternalTemperatureErrView::Fetch { cause, .. } => cause.kind(),
            ExternalTemperatureErrView::MissingState { .. } => ErrorKind::MissingState,
            ExternalTemperatureErrView::MissingAttributes { .. } => ErrorKind::MissingAttributes,
            ExternalTemperatureErrView::MissingField { .. } => ErrorKind::MissingField,
            ExternalTemperatureErrView::NonStringField { .. } => ErrorKind::NonStringField,
            ExternalTemperatureErrView::Parse { .. } => ErrorKind::Parse,
        }
    }

    /// The failure in words.
    pub open spec fn message(self) -> Seq<char> {
        match self {
            ExternalTemperatureErrView::Client { cause } => "failed to create client: "@
                + cause.message(),
            ExternalTemperatureErrView::Fetch { entity_id, cause } => "failed to get state for "@
                + entity_id + ": "@ + cause.message(),
            ExternalTemperatureErrView::MissingState { entity_id } => "no state value for "@
                + entity_id,
            ExternalTemperatureErrView::MissingAttributes { entity_id } => "no attributes for "@
                + entity_id,
            ExternalTemperatureErrView::MissingField { field } => "no field "@ + field
                + " in attributes"@,
            ExternalTemperatureErrView::NonStringField { field } => "field "@ + field
                + " is not a string"@,
            ExternalTemperatureErrView::Parse { candidate, detail } => "cannot parse temperature '"@
                + candidate + "': "@ + detail,
        }
    }
}

impl View for ExternalTemperatureErr {
    type V = ExternalTemperatureErrView;

    open spec fn view(&self) -> ExternalTemperatureErrView {
        match self {
            ExternalTemperatureErr::Client { cause } => ExternalTemperatureErrView::Client {
                cause: cause@,
            },
            ExternalTemperatureErr::Fetch { entity_id, cause } => ExternalTemperatureErrView::Fetch {
                entity_id: entity_id@,
                cause: cause@,
            },
            ExternalTemperatureErr::MissingState { entity_id } => {
                ExternalTemperatureErrView::MissingState { entity_id: entity_id@ }
            },
            ExternalTemperatureErr::MissingAttributes { entity_id } => {
                ExternalTemperatureErrView::MissingAttributes { entity_id: entity_id@ }
            },
            ExternalTemperatureErr::MissingField { field } => {
                ExternalTemperatureErrView::MissingField { field: field@ }
            },
            ExternalTemperatureErr::NonStringField { field } => {
                ExternalTemperatureErrView::NonStringField { field: field@ }
            },
            ExternalTemperatureErr::Parse { candidate, detail } => {
                ExternalTemperatureErrView::Parse { candidate: candidate@, detail: detail@ }
            },
        }
    }
}

impl ExternalTemperatureErr {
    /// The kind of this failure.
    pub fn kind(&self) -> (k: ErrorKind)
        ensures
            k == self@.kind(),
    {
        match self {
            ExternalTemperatureErr::Client { cause } => cause.kind(),
            ExternalTemperatureErr::Fetch { cause, .. } => cause.kind(),
            ExternalTemperatureErr::MissingState { .. } => ErrorKind::MissingState,
            ExternalTemperatureErr::MissingAttributes { .. } => ErrorKind::MissingAttributes,
            ExternalTemperatureErr::MissingField { .. } => ErrorKind::MissingField,
            ExternalTemperatureErr::NonStringField { .. } => ErrorKind::NonStringField,
            ExternalTemperatureErr::Parse { .. } => ErrorKind::Parse,
        }
    }

    /// The failure in words, with the entity, attribute or text it is about.
    pub fn message(&self) -> (m: String)
        ensures
            m@ == self@.message(),
    {
        match self {
            ExternalTemperatureErr::Client { cause } => {
                let inner: String = cause.message();
                String::from_str("failed to create client: ").concat(inner.as_str())
            },
            ExternalTemperatureErr::Fetch { entity_id, cause } => {
                let inner: String = cause.message();
                String::from_str("failed to get state for ").concat(entity_id.as_str()).concat(
                    ": ",
                ).concat(inner.as_str())
            },
            ExternalTemperatureErr::MissingState { entity_id } => {
                String::from_str("no state value for ").concat(entity_id.as_str())
            },
            ExternalTemperatureErr::MissingAttributes { entity_id } => {
                String::from_str("no attributes for ").concat(entity_id.as_str())
            },
            ExternalTemperatureErr::MissingField { field } => {
                String::from_str("no field ").concat(field.as_str()).concat(" in attributes")
            },
            ExternalTemperatureErr::NonStringField { field } => {
                String::from_str("field ").concat(field.as_str()).concat(" is not a string")
            },
            ExternalTemperatureErr::Parse { candidate, detail } => {
                String::from_str("cannot parse temperature '").concat(candidate.as_str()).concat(
                    "': ",
                ).concat(detail.as_str())
            },
        }
    }
}

} // verus!
