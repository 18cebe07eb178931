//! The error taxonomy of the resolution pipeline.
//!
//! Every stage surfaces its error immediately to its caller; the pipeline
//! performs no internal retries, because a license challenge is single-use.

use vstd::prelude::*;

verus! {

/// Failure while locating or decoding the DRM metadata of a manifest.
#[derive(Clone, Copy, Debug, PartialEq, Eq, Structural)]
pub enum ExtractionError {
    /// No metadata block carries the requested identifier.
    BlockNotFound,
    /// The block was found but carries only a reference URI, not an inline value.
    NotInline,
    /// The variant identifier is not a key of the session-key index.
    VariantUnknown,
    /// No eligible key identifier yields a descriptor for the target scheme.
    KeyNotFound,
}

/// Failure during the challenge/response license exchange.
#[derive(Clone, Debug)]
pub enum LicenseError {
    /// The session capability rejected the protection header.
    ChallengeBuildFailed,
    /// The license endpoint answered with a non-success status, or with a
    /// success status whose body lacks a usable `license` field.
    ServerRejected { status: u16, body: Vec<u8> },
    /// The session capability could not parse the license bytes.
    ResponseParseFailed,
    /// No returned key has the content type and the expected byte length.
    KeyNotFound,
}

/// Any failure of the manifest-to-license pipeline.
#[derive(Clone, Debug)]
pub enum Error {
    /// The byte stream does not conform to the expected grammar.
    Parse,
    /// The manifest metadata does not resolve to a key identifier.
    Extraction(ExtractionError),
    /// Malformed base64 or binary data.
    Encoding,
    /// The license exchange failed.
    License(LicenseError),
    /// Transport-level failure reported by the injected HTTP capability.
    Network,
}

impl Error {
    /// A short stable tag for each failure class, for callers that log.
    pub fn describe(&self) -> (r: &'static str)
        ensures
            r@.len() > 0,
    {
        let r = match self {
            Error::Parse => "manifest does not conform to the expected grammar",
            Error::Extraction(ExtractionError::BlockNotFound) => "metadata block not found",
            Error::Extraction(ExtractionError::NotInline) => "metadata block is not inline",
            Error::Extraction(ExtractionError::VariantUnknown) => "variant identifier unknown",
            Error::Extraction(ExtractionError::KeyNotFound) => "no eligible key identifier",
            Error::Encoding => "malformed base64 or binary data",
            Error::License(LicenseError::ChallengeBuildFailed) => "challenge build failed",
            Error::License(LicenseError::ServerRejected { .. }) => "license server rejected the challenge",
            Error::License(LicenseError::ResponseParseFailed) => "license response unreadable",
            Error::License(LicenseError::KeyNotFound) => "no content key in the license",
            Error::Network => "transport failure",
        };
        proof {
            reveal_strlit("manifest does not conform to the expected grammar");
            reveal_strlit("metadata block not found");
            reveal_strlit("metadata block is not inline");
            reveal_strlit("variant identifier unknown");
            reveal_strlit("no eligible key identifier");
            reveal_strlit("malformed base64 or binary data");
            reveal_strlit("challenge build failed");
            reveal_strlit("license server rejected the challenge");
            reveal_strlit("license response unreadable");
            reveal_strlit("no content key in the license");
            reveal_strlit("transport failure");
        }
        r
    }
}

} // verus!
