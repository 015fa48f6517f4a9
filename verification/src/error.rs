//! The error type of the build actor.

use vstd::prelude::*;
use vstd::std_specs::convert::FromSpecImpl;

verus! {

/// Errors of the build actor, each with its message.
#[derive(Debug)]
pub enum BuildActorError {
    /// Errors related to content store operations.
    StoreError(String),
    /// Errors related to filesystem operations.
    FilesystemError(String),
    /// Errors related to the build process.
    BuildError(String),
    /// Errors related to serialization and deserialization.
    SerializationError(String),
    /// Errors related to configuration and parameters.
    ConfigurationError(String),
    /// Other errors.
    OtherError(String),
}

/// The text that describes an error: its kind, then its message.
pub open spec fn error_text(e: BuildActorError) -> Seq<char> {
    match e {
        BuildActorError::StoreError(m) => "Store error: "@ + m@,
        BuildActorError::FilesystemError(m) => "Filesystem error: "@ + m@,
        BuildActorError::BuildError(m) => "Build error: "@ + m@,
        BuildActorError::SerializationError(m) => "Serialization error: "@ + m@,
        BuildActorError::ConfigurationError(m) => "Configuration error: "@ + m@,
        BuildActorError::OtherError(m) => "Error: "@ + m@,
    }
}

#[verifier::external_type_specification]
#[verifier::external_body]
pub struct ExJsonError(serde_json::Error);

#[verifier::external_type_specification]
#[verifier::external_body]
pub struct ExFromUtf8Error(std::string::FromUtf8Error);

impl BuildActorError {
    /// The text that describes this error: its kind, then its message.
    pub fn describe(&self) -> (s: String)
        ensures
            s@ == error_text(*self),
    {
        match self {
            BuildActorError::StoreError(m) => String::from_str("Store error: ").concat(m.as_str()),
            BuildActorError::FilesystemError(m) => String::from_str("Filesystem error: ").concat(
                m.as_str(),
            ),
            BuildActorError::BuildError(m) => String::from_str("Build error: ").concat(m.as_str()),
            BuildActorError::SerializationError(m) => String::from_str(
                "Serialization error: ",
            ).concat(m.as_str()),
            BuildActorError::ConfigurationError(m) => String::from_str(
                "Configuration error: ",
            ).concat(m.as_str()),
            BuildActorError::OtherError(m) => String::from_str("Error: ").concat(m.as_str()),
        }
    }
}

impl From<String> for BuildActorError {
    fn from(error: String) -> (r: Self) {
        BuildActorError::OtherError(error)
    }
}

impl FromSpecImpl<String> for BuildActorError {
    open spec fn obeys_from_spec() -> bool {
        true
    }

    open spec fn from_spec(v: String) -> Self {
        BuildActorError::OtherError(v)
    }
}

/// A JSON error becomes a serialization error that carries its text (its
/// `Display`).
impl From<serde_json::Error> for BuildActorError {
    fn from(error: serde_json::Error) -> (r: Self)
        ensures
            r matches BuildActorError::SerializationError(m)
                && vstd::string::to_string_from_display_ensures::<serde_json::Error>(&error, m),
    {
        BuildActorError::SerializationError(error.to_string())
    }
}

/// The conversion of a JSON error has no value in specifications (its text
/// is not one); what it gives is stated on `from` itself.
impl FromSpecImpl<serde_json::Error> for BuildActorError {
    open spec fn obeys_from_spec() -> bool {
        false
    }

    open spec fn from_spec(v: serde_json::Error) -> Self {
        BuildActorError::SerializationError(arbitrary())
    }
}

/// A UTF-8 decoding error becomes a general error that carries its text
/// (its `Display`).
impl From<std::string::FromUtf8Error> for BuildActorError {
    fn from(error: std::string::FromUtf8Error) -> (r: Self)
        ensures
            r matches BuildActorError::OtherError(m)
                && vstd::string::to_string_from_display_ensures::<std::string::FromUtf8Error>(
                &error,
                m,
            ),
    {
        BuildActorError::OtherError(error.to_string())
    }
}

/// The conversion of a UTF-8 decoding error has no value in specifications
/// (its text is not one); what it gives is stated on `from` itself.
impl FromSpecImpl<std::string::FromUtf8Error> for BuildActorError {
    open spec fn obeys_from_spec() -> bool {
        false
    }

    open spec fn from_spec(v: std::string::FromUtf8Error) -> Self {
        BuildActorError::OtherError(arbitrary())
    }
}

} // verus!
