use vstd::prelude::*;
use vstd::string::StringExecFns;

verus! {

/// Errors reported while reading a SICD product.
///
/// Every failure in version resolution, metadata dispatch, image decoding or
/// assembly is surfaced through one of these variants; no error is defaulted
/// or swallowed.
#[derive(Debug)]
pub enum SicdError {
    /// The metadata declares a version token outside the known set; carries
    /// the offending token verbatim.
    VersionError(String),
    /// The version is recognized but its metadata schema is deliberately not
    /// implemented; carries the version token.
    Unimpl(String),
    /// The metadata text failed to parse against the targeted schema; carries
    /// the parser's report.
    MetadataParseError(String),
    /// An image segment's byte length does not equal `rows * cols * 8`.
    ShapeMismatch { expected: usize, actual: usize },
    /// The container lacks a required metadata segment, or its declared image
    /// segment count disagrees with the segments it yields.
    MissingSegment,
}

impl SicdError {
    /// A one-line description of the error, suitable for display.
    pub fn message(&self) -> (r: String)
        ensures
            match self {
                SicdError::VersionError(t) => r@ == "unknown sicd version "@ + t@,
                SicdError::Unimpl(t) => r@ == "metadata for version "@ + t@
                    + " is not implemented"@,
                SicdError::MetadataParseError(d) => r@ == "could not parse sicd metadata: "@
                    + d@,
                SicdError::ShapeMismatch { expected, actual } => r@
                    == "image buffer length does not match the declared shape"@,
                SicdError::MissingSegment => r@ == "a required container segment is missing"@,
            },
    {
        match self {
            SicdError::VersionError(t) => String::from_str("unknown sicd version ").concat(
                t.as_str(),
            ),
            SicdError::Unimpl(t) => String::from_str("metadata for version ").concat(
                t.as_str(),
            ).concat(" is not implemented"),
            SicdError::MetadataParseError(d) => String::from_str(
                "could not parse sicd metadata: ",
            ).concat(d.as_str()),
            SicdError::ShapeMismatch { expected: _, actual: _ } => String::from_str(
                "image buffer length does not match the declared shape",
            ),
            SicdError::MissingSegment => String::from_str(
                "a required container segment is missing",
            ),
        }
    }
}

} // verus!
