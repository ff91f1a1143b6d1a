use vstd::prelude::*;

verus! {

#[verifier::external_type_specification]
#[verifier::external_body]
pub struct ExIoError(std::io::Error);

#[verifier::external_type_specification]
#[verifier::external_body]
pub struct ExJsonError(serde_json::Error);

/// Everything that can go wrong while loading, saving or resetting settings.
#[derive(Debug)]
pub enum AppError {
    /// Reading, writing, creating or removing a file failed.
    Io(std::io::Error),
    /// The settings file is not a well-formed settings document.
    Json(serde_json::Error),
    /// A settings value breaks one of the validation rules; the text names it.
    Settings(String),
    /// The platform could not resolve a path, or a lock was poisoned.
    System(String),
}

} // verus!
