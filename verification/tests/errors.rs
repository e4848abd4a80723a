use thumbnailify::ThumbnailError;

#[test]
fn each_kind_has_its_message() {
    assert_eq!(ThumbnailError::Io.message(), "I/O error");
    assert_eq!(ThumbnailError::MissingSource.message(), "source file is missing");
    assert_eq!(ThumbnailError::BadImage.message(), "source image cannot be decoded");
    assert_eq!(ThumbnailError::Provenance.message(), "PNG metadata error");
    assert_eq!(ThumbnailError::BadConfig.message(), "malformed thumbnailer descriptor");
    assert_eq!(ThumbnailError::NoHelper.message(), "no thumbnailer found for this MIME type");
    assert_eq!(ThumbnailError::HelperMissing.message(), "thumbnailer executable not found");
    assert_eq!(ThumbnailError::HelperFailed.message(), "thumbnailer process failed");
    assert_eq!(
        ThumbnailError::NegativeCached.message(),
        "a fresh fail marker exists for this source"
    );
    assert_eq!(ThumbnailError::Commit.message(), "file persistence error");
}
