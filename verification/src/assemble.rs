use vstd::prelude::*;
use vstd::string::StringExecFns;

use crate::error::SicdError;
use crate::image::ImageData;
use crate::image::decode_result;
use crate::image::shape_mismatch_error;
use crate::meta::SicdMeta;
use crate::meta::meta_has;
use crate::meta::tag_matches;
use crate::meta::unimplemented_version;
use crate::meta::wf_xml;
use crate::version::SicdVersion;
use crate::version::resolve_token;
use crate::version::strip_urn_prefix;
use crate::version::token_of;
use crate::xml::extract_xmlns;
use crate::xml::xmlns_token;

verus! {

/// One image segment as the container collaborator yields it: a raw byte
/// buffer and the row and column counts its header declares.
#[derive(Debug)]
pub struct ImageSegment {
    pub data: Vec<u8>,
    pub n_rows: usize,
    pub n_cols: usize,
}

/// Everything this core takes from the container collaborator: the metadata
/// segment texts in stored order, the image segments in stored order, and
/// the declared image segment count used to validate completeness.
#[derive(Debug)]
pub struct ContainerData {
    pub metadata_texts: Vec<String>,
    pub image_segments: Vec<ImageSegment>,
    pub declared_image_count: usize,
}

/// An assembled SICD product: the resolved version, the dispatched metadata,
/// and the decoded image of every segment, in segment order.
#[derive(Debug)]
pub struct Sicd {
    /// Parsed SICD xml metadata.
    pub meta: SicdMeta,
    /// SICD version.
    pub version: SicdVersion,
    /// Decoded image data, one entry per container image segment.
    pub image_data: Vec<ImageData>,
}

/// The note carried by the error for a metadata document that declares no
/// namespace at all.
pub open spec fn missing_xmlns_note() -> Seq<char> {
    "metadata document declares no xmlns namespace"@
}

/// A metadata document parses end to end: it declares a namespace token, the
/// token resolves to an implemented version, and the text parses against
/// that version's schema family.
pub open spec fn parse_succeeds(text: Seq<char>) -> bool {
    match xmlns_token(text) {
        None => false,
        Some(tok) => match resolve_token(strip_urn_prefix(tok)) {
            None => false,
            Some(v) => !unimplemented_version(v) && wf_xml(text),
        },
    }
}

/// What parsing a metadata document yields on success: the version its
/// namespace token resolves to, and metadata of the matching schema family.
pub open spec fn parse_ok(text: Seq<char>, version: SicdVersion, m: SicdMeta) -> bool {
    &&& match xmlns_token(text) {
        Some(tok) => resolve_token(strip_urn_prefix(tok)) == Some(version),
        None => false,
    }
    &&& !unimplemented_version(version)
    &&& wf_xml(text)
    &&& meta_has(m, version, text)
}

/// The error parsing a metadata document reports, decided by the first stage
/// that fails: no namespace declaration; an unknown version token, carried
/// verbatim; an unimplemented version, carrying its token; or text that does
/// not parse against the selected schema family.
pub open spec fn parse_err(text: Seq<char>, e: SicdError) -> bool {
    match xmlns_token(text) {
        None => e matches SicdError::MetadataParseError(d) && d@ == missing_xmlns_note(),
        Some(tok) => match resolve_token(strip_urn_prefix(tok)) {
            None => e matches SicdError::VersionError(t) && t@ == tok,
            Some(v) => if unimplemented_version(v) {
                e matches SicdError::Unimpl(t) && t@ == token_of(v)
            } else {
                !wf_xml(text) && e matches SicdError::MetadataParseError(_)
            },
        },
    }
}

/// A segment's buffer length agrees with its declared dimensions.
pub open spec fn segment_ok(seg: ImageSegment) -> bool {
    seg.data@.len() == seg.n_rows * seg.n_cols * 8
}

/// A decoded image is exactly what its segment's buffer and declared
/// dimensions spell.
pub open spec fn segment_decoded(img: ImageData, seg: ImageSegment) -> bool {
    decode_result(img, seg.data@, seg.n_rows, seg.n_cols) && img.wf()
}

/// Parses a metadata document: extracts the declared namespace token,
/// resolves the version, and dispatches the text to that version's schema
/// family. The first failing stage aborts the parse with its own error.
pub fn parse_sicd(sicd_str: &str) -> (r: Result<(SicdVersion, SicdMeta), SicdError>)
    ensures
        match r {
            Ok((version, m)) => parse_ok(sicd_str@, version, m),
            Err(e) => parse_err(sicd_str@, e),
        },
        r is Ok <==> parse_succeeds(sicd_str@),
{
    let token = match extract_xmlns(sicd_str) {
        Some(t) => t,
        None => {
            return Err(
                SicdError::MetadataParseError(
                    String::from_str("metadata document declares no xmlns namespace"),
                ),
            );
        },
    };
    let version = match SicdVersion::from_str(token.as_str()) {
        Ok(v) => v,
        Err(e) => {
            return Err(e);
        },
    };
    let meta = match SicdMeta::dispatch(version, sicd_str) {
        Ok(m) => m,
        Err(e) => {
            return Err(e);
        },
    };
    Ok((version, meta))
}

impl Sicd {
    /// The product invariant: the metadata tag agrees with the stored
    /// version, and every decoded image holds one sample per declared cell.
    pub open spec fn wf(self) -> bool {
        &&& tag_matches(self.meta, self.version)
        &&& forall|i: int|
            0 <= i < self.image_data@.len() ==> (#[trigger] self.image_data@[i]).wf()
    }

    /// Assembles a product from what the container yields: parses the first
    /// metadata segment, validates the declared image segment count, then
    /// decodes every image segment in stored order. Assembly is all or
    /// nothing: the first failure aborts with the underlying error, and no
    /// partially assembled product is ever returned.
    #[verifier::loop_isolation(false)]
    pub fn assemble(container: ContainerData) -> (r: Result<Sicd, SicdError>)
        ensures
            match r {
                Ok(s) => {
                    &&& container.metadata_texts@.len() > 0
                    &&& parse_ok(container.metadata_texts@[0]@, s.version, s.meta)
                    &&& container.declared_image_count == container.image_segments@.len()
                    &&& s.image_data@.len() == container.declared_image_count
                    &&& forall|i: int|
                        0 <= i < container.image_segments@.len() ==> segment_decoded(
                            #[trigger] s.image_data@[i],
                            container.image_segments@[i],
                        )
                    &&& s.wf()
                },
                Err(e) => {
                    if container.metadata_texts@.len() == 0 {
                        e is MissingSegment
                    } else if !parse_succeeds(container.metadata_texts@[0]@) {
                        parse_err(container.metadata_texts@[0]@, e)
                    } else if container.declared_image_count != container.image_segments@.len() {
                        e is MissingSegment
                    } else {
                        exists|i: int|
                            {
                                &&& 0 <= i < container.image_segments@.len()
                                &&& !segment_ok(#[trigger] container.image_segments@[i])
                                &&& forall|j: int|
                                    0 <= j < i ==> segment_ok(
                                        #[trigger] container.image_segments@[j],
                                    )
                                &&& shape_mismatch_error(
                                    e,
                                    container.image_segments@[i].n_rows,
                                    container.image_segments@[i].n_cols,
                                    container.image_segments@[i].data@.len() as int,
                                )
                            }
                    }
                },
            },
    {
        if container.metadata_texts.len() == 0 {
            return Err(SicdError::MissingSegment);
        }
        let sicd_str: &String = &container.metadata_texts[0];
        let (version, meta) = match parse_sicd(sicd_str.as_str()) {
            Ok(p) => p,
            Err(e) => {
                return Err(e);
            },
        };
        if container.declared_image_count != container.image_segments.len() {
            return Err(SicdError::MissingSegment);
        }
        let n = container.image_segments.len();
        let mut image_data: Vec<ImageData> = Vec::new();
        let mut idx: usize = 0;
        while idx < n
            invariant
                idx <= n,
                image_data@.len() == idx,
                forall|i: int|
                    0 <= i < idx ==> segment_decoded(
                        #[trigger] image_data@[i],
                        container.image_segments@[i],
                    ),
                forall|j: int|
                    0 <= j < idx ==> segment_ok(#[trigger] container.image_segments@[j]),
            decreases n - idx,
        {
            let seg = &container.image_segments[idx];
            match ImageData::initialize(seg.data.as_slice(), seg.n_rows, seg.n_cols) {
                Ok(img) => {
                    image_data.push(img);
                },
                Err(e) => {
                    return Err(e);
                },
            }
            idx += 1;
        }
        Ok(Sicd { meta, version, image_data })
    }
}

} // verus!
