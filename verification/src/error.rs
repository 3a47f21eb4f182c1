//! The ways a request can fail, and what the caller gets to see of each.

use vstd::prelude::*;
use vstd::std_specs::convert::FromSpec;

verus! {

pub const NO_CONTENT: u16 = 204;

pub const UNAUTHORIZED: u16 = 401;

pub const NOT_FOUND: u16 = 404;

pub const CONFLICT: u16 = 409;

pub const UNPROCESSABLE_ENTITY: u16 = 422;

pub const INTERNAL_SERVER_ERROR: u16 = 500;

/// Why one ingestion request ended without a stored product. Each kind ends
/// the request: nothing is tried again.
#[derive(Clone, Copy, Debug, PartialEq, Eq, Structural)]
pub enum IngestError {
    /// The payload is not well-formed base64.
    InvalidEncoding,
    /// The bytes are not an image in any format that can be read.
    UnsupportedImage,
    /// The image was read, and no barcode symbol was recognised in it.
    BarcodeNotFound,
    /// The catalog could not be reached.
    CatalogUnreachable,
    /// The catalog answered, and not with a success status.
    CatalogMiss,
    /// The catalog's answer does not have the shape of a catalog record.
    CatalogSchemaMismatch,
    /// A stored record already has the candidate's identifying key.
    DuplicateProduct,
    /// The store could not be reached, or answered with a fault.
    StorageFailure,
}

/// How a failure shows to the caller.
#[derive(Clone, Copy, Debug, PartialEq, Eq, Structural)]
pub enum Visibility {
    /// The input is at fault, and is rejected.
    ClientError,
    /// Nothing was found: an ordinary outcome, not a fault of the service.
    NoResult,
    /// The request collides with what is stored, and is rejected.
    Conflict,
    /// The service is at fault; the caller learns no detail.
    InternalError,
}

impl IngestError {
    /// How this failure shows to the caller: bad input is the client's
    /// error, a barcode or a product that is not found is no result, a
    /// duplicate is a conflict, and all else is the service's own fault.
    pub open spec fn spec_visibility(self) -> Visibility {
        match self {
            IngestError::InvalidEncoding => Visibility::ClientError,
            IngestError::UnsupportedImage => Visibility::ClientError,
            IngestError::BarcodeNotFound => Visibility::NoResult,
            IngestError::CatalogUnreachable => Visibility::NoResult,
            IngestError::CatalogMiss => Visibility::NoResult,
            IngestError::CatalogSchemaMismatch => Visibility::InternalError,
            IngestError::DuplicateProduct => Visibility::Conflict,
            IngestError::StorageFailure => Visibility::InternalError,
        }
    }

    /// How this failure shows to the caller.
    pub fn visibility(self) -> (shown: Visibility)
        ensures
            shown == self.spec_visibility(),
    {
        match self {
            IngestError::InvalidEncoding | IngestError::UnsupportedImage => Visibility::ClientError,
            IngestError::BarcodeNotFound
            | IngestError::CatalogUnreachable
            | IngestError::CatalogMiss => Visibility::NoResult,
            IngestError::DuplicateProduct => Visibility::Conflict,
            IngestError::CatalogSchemaMismatch | IngestError::StorageFailure => {
                Visibility::InternalError
            },
        }
    }

    /// Whether this failure is an expected outcome, to be reported as an
    /// empty result and logged as such, rather than as an error.
    pub fn is_benign(self) -> (benign: bool)
        ensures
            benign == (self.spec_visibility() == Visibility::NoResult),
            benign == (self == IngestError::BarcodeNotFound || self
                == IngestError::CatalogUnreachable || self == IngestError::CatalogMiss),
    {
        match self.visibility() {
            Visibility::NoResult => true,
            _ => false,
        }
    }
}

/// A failure as the service's boundary knows it.
#[derive(Clone, Copy, Debug, PartialEq, Eq, Structural)]
pub enum AppError {
    AuthenticationError,
    JWTInvalid,
    JWTExpired,
    DatabaseError,
    UnexpectedError,
    DuplicatedRessource,
    NoRessource,
    Base64Error,
    ReqwestError,
    ImageError,
    CodebarError,
    LockError,
}

/// What the caller is sent for a failure: a status code and a message that
/// gives away nothing of the service's inner workings.
#[derive(Clone, Copy, Debug, PartialEq, Eq)]
pub struct ErrorResponse {
    pub status: u16,
    pub message: &'static str,
}

impl AppError {
    /// The status code sent for this failure.
    pub open spec fn spec_status(self) -> u16 {
        match self {
            AppError::UnexpectedError => INTERNAL_SERVER_ERROR,
            AppError::JWTInvalid => UNAUTHORIZED,
            AppError::JWTExpired => UNAUTHORIZED,
            AppError::ImageError => UNPROCESSABLE_ENTITY,
            AppError::CodebarError => NO_CONTENT,
            AppError::DatabaseError => INTERNAL_SERVER_ERROR,
            AppError::ReqwestError => NO_CONTENT,
            AppError::Base64Error => UNPROCESSABLE_ENTITY,
            AppError::DuplicatedRessource => CONFLICT,
            AppError::NoRessource => NOT_FOUND,
            AppError::LockError => INTERNAL_SERVER_ERROR,
            AppError::AuthenticationError => UNAUTHORIZED,
        }
    }

    /// The message sent for this failure.
    pub open spec fn spec_message(self) -> Seq<char> {
        match self {
            AppError::UnexpectedError => "An error occured. Please try later."@,
            AppError::JWTInvalid => "JWT invalid."@,
            AppError::JWTExpired => "JWT expired."@,
            AppError::ImageError => "An error occured with the image sent. Please try later."@,
            AppError::CodebarError => "No codebar found."@,
            AppError::DatabaseError => "An error occured. Please try later."@,
            AppError::ReqwestError => "No product found."@,
            AppError::Base64Error => "An error occured while decoding base64 data. Maybe the base64 payload is wrong."@,
            AppError::DuplicatedRessource => "Can't create a duplicated ressource."@,
            AppError::NoRessource => "No ressource found."@,
            AppError::LockError => "An error occured. Please try later."@,
            AppError::AuthenticationError => "Invalid credentials."@,
        }
    }

    /// Whether this failure is an expected outcome, answered with an empty
    /// result and logged as such, rather than as an error.
    pub fn is_benign(self) -> (benign: bool)
        ensures
            benign == (self.spec_status() == NO_CONTENT),
    {
        match self {
            AppError::CodebarError | AppError::ReqwestError => true,
            _ => false,
        }
    }

    /// The status code and message that answer this failure.
    pub fn into_response(self) -> (response: ErrorResponse)
        ensures
            response.status == self.spec_status(),
            response.message@ == self.spec_message(),
    {
        let (status, error_message) = match self {
            AppError::UnexpectedError => (
                INTERNAL_SERVER_ERROR,
                "An error occured. Please try later.",
            ),
            AppError::JWTInvalid => (UNAUTHORIZED, "JWT invalid."),
            AppError::JWTExpired => (UNAUTHORIZED, "JWT expired."),
            AppError::ImageError => (
                UNPROCESSABLE_ENTITY,
                "An error occured with the image sent. Please try later.",
            ),
            AppError::CodebarError => (NO_CONTENT, "No codebar found."),
            AppError::DatabaseError => (
                INTERNAL_SERVER_ERROR,
                "An error occured. Please try later.",
            ),
            AppError::ReqwestError => (NO_CONTENT, "No product found."),
            AppError::Base64Error => (
                UNPROCESSABLE_ENTITY,
                "An error occured while decoding base64 data. Maybe the base64 payload is wrong.",
            ),
            AppError::DuplicatedRessource => (CONFLICT, "Can't create a duplicated ressource."),
            AppError::NoRessource => (NOT_FOUND, "No ressource found."),
            AppError::LockError => (INTERNAL_SERVER_ERROR, "An error occured. Please try later."),
            AppError::AuthenticationError => (UNAUTHORIZED, "Invalid credentials."),
        };
        ErrorResponse { status, message: error_message }
    }
}

impl From<IngestError> for AppError {
    fn from(kind: IngestError) -> (error: AppError) {
        match kind {
            IngestError::InvalidEncoding => AppError::Base64Error,
            IngestError::UnsupportedImage => AppError::ImageError,
            IngestError::BarcodeNotFound => AppError::CodebarError,
            IngestError::CatalogUnreachable => AppError::ReqwestError,
            IngestError::CatalogMiss => AppError::ReqwestError,
            IngestError::CatalogSchemaMismatch => AppError::UnexpectedError,
            IngestError::DuplicateProduct => AppError::DuplicatedRessource,
            IngestError::StorageFailure => AppError::DatabaseError,
        }
    }
}

impl vstd::std_specs::convert::FromSpecImpl<IngestError> for AppError {
    open spec fn obeys_from_spec() -> bool {
        true
    }

    open spec fn from_spec(kind: IngestError) -> AppError {
        match kind {
            IngestError::InvalidEncoding => AppError::Base64Error,
            IngestError::UnsupportedImage => AppError::ImageError,
            IngestError::BarcodeNotFound => AppError::CodebarError,
            IngestError::CatalogUnreachable => AppError::ReqwestError,
            IngestError::CatalogMiss => AppError::ReqwestError,
            IngestError::CatalogSchemaMismatch => AppError::UnexpectedError,
            IngestError::DuplicateProduct => AppError::DuplicatedRessource,
            IngestError::StorageFailure => AppError::DatabaseError,
        }
    }
}

/// The status code that goes with each way of showing a failure.
pub open spec fn status_for(shown: Visibility) -> u16 {
    match shown {
        Visibility::ClientError => UNPROCESSABLE_ENTITY,
        Visibility::NoResult => NO_CONTENT,
        Visibility::Conflict => CONFLICT,
        Visibility::InternalError => INTERNAL_SERVER_ERROR,
    }
}

/// The boundary answers every failure of the pipeline with the status of its
/// visibility: bad input is unprocessable, a miss is an empty answer, a
/// duplicate is a conflict, and a fault of the service is an internal error.
pub proof fn lemma_status_follows_visibility(kind: IngestError)
    ensures
        AppError::from_spec(kind).spec_status() == status_for(kind.spec_visibility()),
{
}

/// An internal fault is answered with one generic message, whatever its
/// cause.
pub proof fn lemma_internal_faults_share_one_message(first: AppError, second: AppError)
    requires
        first.spec_status() == INTERNAL_SERVER_ERROR,
        second.spec_status() == INTERNAL_SERVER_ERROR,
    ensures
        first.spec_message() == second.spec_message(),
        first.spec_message() == "An error occured. Please try later."@,
{
}

} // verus!
