//! The library's single error type.

use vstd::prelude::*;

verus! {

/// Why a thumbnail could not be served. Every fault of a lower layer is
/// mapped to exactly one of these kinds.
#[derive(Clone, Copy, Debug, PartialEq, Eq, Structural, Hash)]
pub enum ThumbnailError {
    /// A filesystem or operating-system fault, or a path that has no file
    /// URI.
    Io,
    /// The source file does not exist or its metadata cannot be read.
    MissingSource,
    /// The source could not be decoded, or has a zero dimension.
    BadImage,
    /// The PNG layer rejected an image or one of its text chunks.
    Provenance,
    /// A helper descriptor is malformed or lacks its `Exec` key.
    BadConfig,
    /// Neither a helper nor the in-process codec handles the MIME type.
    NoHelper,
    /// The helper's `TryExec` program is not on the search path.
    HelperMissing,
    /// The helper exited with a failure or left no usable PNG.
    HelperFailed,
    /// A fresh fail marker answered the request.
    NegativeCached,
    /// The final rename failed.
    Commit,
}

impl ThumbnailError {
    /// The text of the diagnostic for this kind.
    pub open spec fn message_text(self) -> Seq<char> {
        match self {
            ThumbnailError::Io => "I/O error"@,
            ThumbnailError::MissingSource => "source file is missing"@,
            ThumbnailError::BadImage => "source image cannot be decoded"@,
            ThumbnailError::Provenance => "PNG metadata error"@,
            ThumbnailError::BadConfig => "malformed thumbnailer descriptor"@,
            ThumbnailError::NoHelper => "no thumbnailer found for this MIME type"@,
            ThumbnailError::HelperMissing => "thumbnailer executable not found"@,
            ThumbnailError::HelperFailed => "thumbnailer process failed"@,
            ThumbnailError::NegativeCached => "a fresh fail marker exists for this source"@,
            ThumbnailError::Commit => "file persistence error"@,
        }
    }

    /// Whether a failure of this kind is recorded by a fail marker, so that
    /// it is not retried while the source stays unchanged.
    pub open spec fn is_cached(self) -> bool {
        self == ThumbnailError::BadImage || self == ThumbnailError::HelperFailed
    }

    /// Returns the diagnostic for this kind.
    pub fn message(&self) -> (s: String)
        ensures
            s@ == self.message_text(),
    {
        match self {
            ThumbnailError::Io => "I/O error".to_owned(),
            ThumbnailError::MissingSource => "source file is missing".to_owned(),
            ThumbnailError::BadImage => "source image cannot be decoded".to_owned(),
            ThumbnailError::Provenance => "PNG metadata error".to_owned(),
            ThumbnailError::BadConfig => "malformed thumbnailer descriptor".to_owned(),
            ThumbnailError::NoHelper => "no thumbnailer found for this MIME type".to_owned(),
            ThumbnailError::HelperMissing => "thumbnailer executable not found".to_owned(),
            ThumbnailError::HelperFailed => "thumbnailer process failed".to_owned(),
            ThumbnailError::NegativeCached => "a fresh fail marker exists for this source".to_owned(),
            ThumbnailError::Commit => "file persistence error".to_owned(),
        }
    }
}

} // verus!
