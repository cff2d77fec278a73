//! Error taxonomy of the pipeline and of the card-vault protocol.
//!
//! Every error carries a stable machine-readable kind; `NotFound` and
//! `InvalidStatusTransition` are surfaced to callers verbatim, unexpected
//! storage outcomes are wrapped as `InternalServerError`.

use vstd::prelude::*;

verus! {

/// Machine-readable kind of an [`ApiErrorResponse`].
#[derive(Clone, Copy, Debug, PartialEq, Eq, Structural)]
pub enum ErrorKind {
    NotFound,
    InvalidStatusTransition,
    ValidationError,
    Conflict,
    InternalServerError,
}

/// View of an [`ApiErrorResponse`], with text fields as character sequences.
pub enum SpecApiError {
    PaymentNotFound,
    CustomerNotFound,
    MandateNotFound,
    PaymentMethodNotFound,
    AddressNotFound,
    ProfileNotFound { id: Seq<char> },
    InvalidStatusTransition { operation: Seq<char>, status: crate::enums::IntentStatus },
    MissingRequiredField { field: Seq<char> },
    CustomerRedacted,
    MandateActive,
    LockAcquisitionFailed,
    InternalServerError,
}

/// Error surfaced by a pipeline operation.
#[derive(Clone, Debug)]
pub enum ApiErrorResponse {
    PaymentNotFound,
    CustomerNotFound,
    MandateNotFound,
    PaymentMethodNotFound,
    AddressNotFound,
    ProfileNotFound { id: String },
    InvalidStatusTransition { operation: String, status: crate::enums::IntentStatus },
    MissingRequiredField { field: String },
    CustomerRedacted,
    MandateActive,
    LockAcquisitionFailed,
    InternalServerError,
}

impl View for ApiErrorResponse {
    type V = SpecApiError;

    open spec fn view(&self) -> SpecApiError {
        match self {
            ApiErrorResponse::PaymentNotFound => SpecApiError::PaymentNotFound,
            ApiErrorResponse::CustomerNotFound => SpecApiError::CustomerNotFound,
            ApiErrorResponse::MandateNotFound => SpecApiError::MandateNotFound,
            ApiErrorResponse::PaymentMethodNotFound => SpecApiError::PaymentMethodNotFound,
            ApiErrorResponse::AddressNotFound => SpecApiError::AddressNotFound,
            ApiErrorResponse::ProfileNotFound { id } => SpecApiError::ProfileNotFound {
                id: id@,
            },
            ApiErrorResponse::InvalidStatusTransition { operation, status } => {
                SpecApiError::InvalidStatusTransition { operation: operation@, status: *status }
            },
            ApiErrorResponse::MissingRequiredField { field } => SpecApiError::MissingRequiredField {
                field: field@,
            },
            ApiErrorResponse::CustomerRedacted => SpecApiError::CustomerRedacted,
            ApiErrorResponse::MandateActive => SpecApiError::MandateActive,
            ApiErrorResponse::LockAcquisitionFailed => SpecApiError::LockAcquisitionFailed,
            ApiErrorResponse::InternalServerError => SpecApiError::InternalServerError,
        }
    }
}

impl SpecApiError {
    /// Kind of the error at the view level.
    pub open spec fn spec_kind(&self) -> ErrorKind {
        match self {
            SpecApiError::PaymentNotFound => ErrorKind::NotFound,
            SpecApiError::CustomerNotFound => ErrorKind::NotFound,
            SpecApiError::MandateNotFound => ErrorKind::NotFound,
            SpecApiError::PaymentMethodNotFound => ErrorKind::NotFound,
            SpecApiError::AddressNotFound => ErrorKind::NotFound,
            SpecApiError::ProfileNotFound { .. } => ErrorKind::NotFound,
            SpecApiError::InvalidStatusTransition { .. } => ErrorKind::InvalidStatusTransition,
            SpecApiError::MissingRequiredField { .. } => ErrorKind::ValidationError,
            SpecApiError::CustomerRedacted => ErrorKind::ValidationError,
            SpecApiError::MandateActive => ErrorKind::ValidationError,
            SpecApiError::LockAcquisitionFailed => ErrorKind::Conflict,
            SpecApiError::InternalServerError => ErrorKind::InternalServerError,
        }
    }
}

impl ApiErrorResponse {
    /// Stable machine-readable kind of this error.
    pub fn kind(&self) -> (r: ErrorKind)
        ensures
            r == self@.spec_kind(),
    {
        match self {
            ApiErrorResponse::PaymentNotFound => ErrorKind::NotFound,
            ApiErrorResponse::CustomerNotFound => ErrorKind::NotFound,
            ApiErrorResponse::MandateNotFound => ErrorKind::NotFound,
            ApiErrorResponse::PaymentMethodNotFound => ErrorKind::NotFound,
            ApiErrorResponse::AddressNotFound => ErrorKind::NotFound,
            ApiErrorResponse::ProfileNotFound { .. } => ErrorKind::NotFound,
            ApiErrorResponse::InvalidStatusTransition { .. } => ErrorKind::InvalidStatusTransition,
            ApiErrorResponse::MissingRequiredField { .. } => ErrorKind::ValidationError,
            ApiErrorResponse::CustomerRedacted => ErrorKind::ValidationError,
            ApiErrorResponse::MandateActive => ErrorKind::ValidationError,
            ApiErrorResponse::LockAcquisitionFailed => ErrorKind::Conflict,
            ApiErrorResponse::InternalServerError => ErrorKind::InternalServerError,
        }
    }

    /// Human-readable message for the caller.
    pub fn message(&self) -> String {
        match self {
            ApiErrorResponse::PaymentNotFound => "payment does not exist in our records".to_owned(),
            ApiErrorResponse::CustomerNotFound => "customer does not exist in our records".to_owned(),
            ApiErrorResponse::MandateNotFound => "mandate does not exist in our records".to_owned(),
            ApiErrorResponse::PaymentMethodNotFound => "payment method does not exist in our records".to_owned(),
            ApiErrorResponse::AddressNotFound => "address does not exist in our records".to_owned(),
            ApiErrorResponse::ProfileNotFound { .. } => "business profile does not exist in our records".to_owned(),
            ApiErrorResponse::InvalidStatusTransition { .. } => "the operation is not permitted in the payment's current status".to_owned(),
            ApiErrorResponse::MissingRequiredField { .. } => "a required field is missing".to_owned(),
            ApiErrorResponse::CustomerRedacted => "customer has already been redacted".to_owned(),
            ApiErrorResponse::MandateActive => "customer has an active mandate".to_owned(),
            ApiErrorResponse::LockAcquisitionFailed => "resource is busy; retry the operation".to_owned(),
            ApiErrorResponse::InternalServerError => "something went wrong".to_owned(),
        }
    }
}

/// Error of the card-vault envelope protocol.
#[derive(Clone, Copy, Debug, PartialEq, Eq, Structural)]
pub enum VaultError {
    SaveCardFailed,
    FetchCardFailed,
    RequestEncodingFailed,
    RequestEncryptionFailed,
    ResponseDeserializationFailed,
}

/// Outcome distinctions the storage model reports to its callers.
#[derive(Clone, Copy, Debug, PartialEq, Eq, Structural)]
pub enum StorageError {
    /// A row with the same natural key already exists.
    UniqueViolation,
    /// No row matches the given key.
    NotFound,
}

} // verus!
