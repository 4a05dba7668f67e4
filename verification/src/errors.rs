use vstd::prelude::*;

verus! {

/// Uniform error value surfaced by every operation of the library.
///
/// The variants fall into four groups: credential acquisition
/// (`MalformedKeyPath`, `KeyUnreadable`, `MalformedKeyFile`, `SigningFailed`,
/// `ExchangeFailed`), vendor responses (`Api`, `MalformedResponse`),
/// transport (`Transport`), and release resolution
/// (`AmbiguousOrMissingVersion`, `AmbiguousOrMissingLocalization`,
/// `ReleaseNotEditable`, `VersionAlreadyExists`).
#[derive(Debug, PartialEq, Eq)]
pub enum StoreError {
    /// The iOS key file's name does not match the `AuthKey_{ID}.p8` pattern.
    MalformedKeyPath,
    /// The key file could not be read.
    KeyUnreadable(String),
    /// The Android service-account key file is not a JSON document holding
    /// `client_email` and `private_key` string fields.
    MalformedKeyFile(String),
    /// The signing library rejected the key material or failed to sign.
    SigningFailed(String),
    /// The token-exchange endpoint returned a failure or an unusable body.
    ExchangeFailed(String),
    /// The vendor answered a data call with a non-success status; carries the
    /// raw response body for diagnostics.
    Api { status: u16, body: String },
    /// The HTTP exchange itself failed before any status was received.
    Transport(String),
    /// A success response body did not have the expected shape.
    MalformedResponse(String),
    /// Version resolution found zero, or more than one, matching version.
    AmbiguousOrMissingVersion,
    /// Localization resolution found no usable candidate, or the empty-locale
    /// wildcard found more than one.
    AmbiguousOrMissingLocalization,
    /// No release in a draft state carries the requested version name.
    ReleaseNotEditable,
    /// A release with the requested version name already sits on the track.
    VersionAlreadyExists,
    /// A data call was attempted without a credential.
    NotLoggedIn,
}

impl StoreError {
    /// The human-readable description of the error, as a sequence of
    /// characters.
    pub open spec fn spec_message(self) -> Seq<char> {
        match self {
            StoreError::MalformedKeyPath => "Invalid key path name. It should be AuthKey_{ID}.p8"@,
            StoreError::KeyUnreadable(m) => "Could not read the key file: "@ + m@,
            StoreError::MalformedKeyFile(m) => "Malformed service-account key file: "@ + m@,
            StoreError::SigningFailed(m) => "Could not sign the credential: "@ + m@,
            StoreError::ExchangeFailed(m) => "Failed to get signed token: "@ + m@,
            StoreError::Api { status: _, body } => "ERROR: "@ + body@,
            StoreError::Transport(m) => "Transport failure: "@ + m@,
            StoreError::MalformedResponse(m) => "Failed to deserialize response: "@ + m@,
            StoreError::AmbiguousOrMissingVersion => "More than one version found matching the version name"@,
            StoreError::AmbiguousOrMissingLocalization => "Localization not found"@,
            StoreError::ReleaseNotEditable => "Release not found or in an uneditable state."@,
            StoreError::VersionAlreadyExists => "Version already exists"@,
            StoreError::NotLoggedIn => "Not logged in"@,
        }
    }

    /// The human-readable description of the error, for callers that print.
    pub fn message(&self) -> (r: String)
        ensures
            r@ == self.spec_message(),
    {
        match self {
            StoreError::MalformedKeyPath => String::from_str(
                "Invalid key path name. It should be AuthKey_{ID}.p8",
            ),
            StoreError::KeyUnreadable(m) => String::from_str("Could not read the key file: ")
                .concat(m.as_str()),
            StoreError::MalformedKeyFile(m) => String::from_str(
                "Malformed service-account key file: ",
            ).concat(m.as_str()),
            StoreError::SigningFailed(m) => String::from_str("Could not sign the credential: ")
                .concat(m.as_str()),
            StoreError::ExchangeFailed(m) => String::from_str("Failed to get signed token: ")
                .concat(m.as_str()),
            StoreError::Api { status: _, body } => String::from_str("ERROR: ").concat(
                body.as_str(),
            ),
            StoreError::Transport(m) => String::from_str("Transport failure: ").concat(m.as_str()),
            StoreError::MalformedResponse(m) => String::from_str(
                "Failed to deserialize response: ",
            ).concat(m.as_str()),
            StoreError::AmbiguousOrMissingVersion => String::from_str(
                "More than one version found matching the version name",
            ),
            StoreError::AmbiguousOrMissingLocalization => String::from_str("Localization not found"),
            StoreError::ReleaseNotEditable => String::from_str(
                "Release not found or in an uneditable state.",
            ),
            StoreError::VersionAlreadyExists => String::from_str("Version already exists"),
            StoreError::NotLoggedIn => String::from_str("Not logged in"),
        }
    }
}

} // verus!
