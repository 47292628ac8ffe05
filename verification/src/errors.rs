use vstd::prelude::*;

verus! {

/// Every way a structural read of a ZIP archive can fail. Each parsing
/// function reports the first failure it detects; nothing is skipped or
/// defaulted.
#[derive(Clone, Copy, Debug, PartialEq, Eq, Structural)]
pub enum ZipError {
    /// An underlying read, seek or open failed (reported by callers that do
    /// I/O; the parsers themselves work on in-memory bytes).
    IoFailure,
    /// No offset in the source carries a length-consistent EOCD signature.
    EocdNotFound,
    /// The EOCD comment runs past the end of the source.
    TruncatedComment,
    /// A central directory entry does not start with `0x02014b50`.
    BadCentralDirectoryMagic,
    /// The central directory's encoded length differs from the EOCD's
    /// `size_of_cdr` field.
    CentralDirectorySizeMismatch,
    /// The central directory runs past the end of the source.
    TruncatedCentralDirectory,
    /// A local file header does not start with `0x04034b50`.
    BadLocalHeaderMagic,
    /// A local header's declared offset or sizes would read past the end of
    /// the source.
    OffsetOutOfRange,
    /// The entry's compression method is neither stored (0) nor DEFLATE (8).
    UnsupportedCompressionMethod,
    /// A fixed-size record was decoded from a buffer shorter than the record.
    MalformedRecord,
}

} // verus!
