//! The failures that generation and a seeding run report.

use vstd::prelude::*;
use vstd::string::StringExecFns;

verus! {

/// Why a value could not be generated.
#[derive(Debug, PartialEq, Eq)]
pub enum GenerateDataError {
    /// The token names no generator; it is carried whole.
    InvalidFakeMethod(String),
    /// A reference names a collection that the identifier pool lacks.
    CollectionNotFound(String),
    /// There was nothing to choose from: the named collection has no
    /// identifier, or the list of literals is empty.
    RandomIdSelectionFailed(String),
}

/// A [`GenerateDataError`] with its text by characters.
pub enum Failure {
    InvalidFakeMethod(Seq<char>),
    CollectionNotFound(Seq<char>),
    RandomIdSelectionFailed(Seq<char>),
}

impl View for GenerateDataError {
    type V = Failure;

    open spec fn view(&self) -> Failure {
        match self {
            GenerateDataError::InvalidFakeMethod(token) => Failure::InvalidFakeMethod(token@),
            GenerateDataError::CollectionNotFound(name) => Failure::CollectionNotFound(name@),
            GenerateDataError::RandomIdSelectionFailed(subject) => Failure::RandomIdSelectionFailed(
                subject@,
            ),
        }
    }
}

impl Failure {
    /// The message that reports this failure.
    pub open spec fn message(self) -> Seq<char> {
        match self {
            Failure::InvalidFakeMethod(token) => "Invalid fake method: "@ + token,
            Failure::CollectionNotFound(name) => "Collection not found: "@ + name,
            Failure::RandomIdSelectionFailed(subject) =>
                "Failed to choose a random ID from the collection: "@ + subject,
        }
    }
}

impl GenerateDataError {
    /// The message that reports this failure.
    pub fn message(&self) -> (text: String)
        ensures
            text@ == self@.message(),
    {
        match self {
            GenerateDataError::InvalidFakeMethod(token) => String::from_str(
                "Invalid fake method: ",
            ).concat(token.as_str()),
            GenerateDataError::CollectionNotFound(name) => String::from_str(
                "Collection not found: ",
            ).concat(name.as_str()),
            GenerateDataError::RandomIdSelectionFailed(subject) => String::from_str(
                "Failed to choose a random ID from the collection: ",
            ).concat(subject.as_str()),
        }
    }
}

/// Why a seeding run stopped.
#[derive(Debug, PartialEq, Eq)]
pub enum AppError {
    /// The configuration cannot be used; the text says why.
    ConfigError(String),
    /// The database refused an operation; the text is its report.
    DatabaseError(String),
    /// A document could not be generated.
    DataGenerationError(GenerateDataError),
}

/// An [`AppError`] with its text by characters.
pub enum AppFailure {
    ConfigError(Seq<char>),
    DatabaseError(Seq<char>),
    DataGenerationError(Failure),
}

impl AppFailure {
    /// The message that reports this failure.
    pub open spec fn message(self) -> Seq<char> {
        match self {
            AppFailure::ConfigError(reason) => "Configuration error: "@ + reason,
            AppFailure::DatabaseError(report) => "Database error: "@ + report,
            AppFailure::DataGenerationError(failure) => "Data generation error: "@
                + failure.message(),
        }
    }
}

impl View for AppError {
    type V = AppFailure;

    open spec fn view(&self) -> AppFailure {
        match self {
            AppError::ConfigError(reason) => AppFailure::ConfigError(reason@),
            AppError::DatabaseError(report) => AppFailure::DatabaseError(report@),
            AppError::DataGenerationError(error) => AppFailure::DataGenerationError(error@),
        }
    }
}

impl AppError {
    /// The message that reports this failure.
    pub fn message(&self) -> (text: String)
        ensures
            text@ == self@.message(),
    {
        match self {
            AppError::ConfigError(reason) => String::from_str("Configuration error: ").concat(
                reason.as_str(),
            ),
            AppError::DatabaseError(report) => String::from_str("Database error: ").concat(
                report.as_str(),
            ),
            AppError::DataGenerationError(error) => {
                let inner = error.message();
                String::from_str("Data generation error: ").concat(inner.as_str())
            },
        }
    }
}

impl From<GenerateDataError> for AppError {
    fn from(error: GenerateDataError) -> (wrapped: AppError) {
        AppError::DataGenerationError(error)
    }
}

impl vstd::std_specs::convert::FromSpecImpl<GenerateDataError> for AppError {
    open spec fn obeys_from_spec() -> bool {
        true
    }

    open spec fn from_spec(error: GenerateDataError) -> AppError {
        AppError::DataGenerationError(error)
    }
}

} // verus!
