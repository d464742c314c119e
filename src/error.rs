//! The errors of the library.

use vstd::prelude::*;

verus! {

#[verifier::external_type_specification]
#[verifier::external_body]
pub struct ExRedisError(redis::RedisError);

#[verifier::external_type_specification]
#[verifier::external_body]
pub struct ExJsonError(serde_json::Error);

/// What can go wrong between this library and the cache module.
#[derive(Debug)]
pub enum CaptchaError {
    /// The module listing does not name the cache module.
    ExtensionNotLoaded,
    /// The module is loaded but does not provide the named command.
    ExtensionCommandMissing(String),
    /// The module answered with a value outside the command's protocol.
    ExtensionProtocolError,
    /// A structured reply could not be parsed.
    DeserializationError(serde_json::Error),
    /// The transport failed; the error is handed on unchanged.
    StoreError(redis::RedisError),
}

} // verus!
