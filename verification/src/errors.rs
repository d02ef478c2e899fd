use vstd::prelude::*;

verus! {

/// The ways an installation run can fail. Every error is terminal for the
/// run: there is no retry and no fallback.
#[derive(Clone, Copy, Debug, PartialEq, Eq, Structural)]
pub enum InstallError {
    /// The operating system reported by the environment is not one the
    /// release naming scheme knows.
    UnsupportedPlatform,
    /// The processor architecture reported by the environment is not one the
    /// release naming scheme knows.
    UnsupportedArchitecture,
    /// The release metadata request did not come back.
    MetadataFetchFailed,
    /// The release metadata came back but could not be decoded, or its tag is
    /// not a well-formed semantic version where one is needed.
    MetadataDecodeFailed,
    /// The archive request came back with the carried non-success status.
    DownloadFailed(u16),
    /// The downloaded archive could not be opened.
    ArchiveOpenFailed,
    /// The downloaded archive could not be unpacked.
    ArchiveExtractFailed,
    /// The version marker file exists but does not hold a semantic version.
    LedgerParseFailed,
    /// A filesystem or environment operation failed.
    FilesystemFailed,
}

impl InstallError {
    /// A short fixed description of the error, for the caller's log.
    pub fn message(&self) -> (r: String)
        ensures
            *self == InstallError::UnsupportedPlatform ==> r@ == "unsupported platform"@,
            *self == InstallError::UnsupportedArchitecture ==> r@ == "unsupported architecture"@,
            *self == InstallError::MetadataFetchFailed ==> r@ == "fetching release metadata failed"@,
            *self == InstallError::MetadataDecodeFailed ==> r@ == "decoding release metadata failed"@,
            (*self matches InstallError::DownloadFailed(_)) ==> r@ == "fetching the archive failed"@,
            *self == InstallError::ArchiveOpenFailed ==> r@ == "opening the archive failed"@,
            *self == InstallError::ArchiveExtractFailed ==> r@ == "unpacking the archive failed"@,
            *self == InstallError::LedgerParseFailed ==> r@ == "the version marker is not a semantic version"@,
            *self == InstallError::FilesystemFailed ==> r@ == "a filesystem operation failed"@,
    {
        match self {
            InstallError::UnsupportedPlatform => "unsupported platform".to_owned(),
            InstallError::UnsupportedArchitecture => "unsupported architecture".to_owned(),
            InstallError::MetadataFetchFailed => "fetching release metadata failed".to_owned(),
            InstallError::MetadataDecodeFailed => "decoding release metadata failed".to_owned(),
            InstallError::DownloadFailed(_) => "fetching the archive failed".to_owned(),
            InstallError::ArchiveOpenFailed => "opening the archive failed".to_owned(),
            InstallError::ArchiveExtractFailed => "unpacking the archive failed".to_owned(),
            InstallError::LedgerParseFailed => "the version marker is not a semantic version".to_owned(),
            InstallError::FilesystemFailed => "a filesystem operation failed".to_owned(),
        }
    }
}

} // verus!
