use vstd::prelude::*;
use vstd::string::StringExecFns;

use crate::error::SicdError;
use crate::version::SicdVersion;
use crate::version::token_of;

verus! {

/// Whether a metadata document parses against the schema interface. The
/// outcome is a function of the text alone.
pub uninterp spec fn wf_xml(s: Seq<char>) -> bool;

/// Relies on `quick_xml::de::from_str` driving `serde::de::IgnoredAny`: it
/// parses the whole document against the XML grammar and reports the first
/// failure; whether a given text parses depends on the text alone.
#[verifier::external_body]
fn parse_xml_document(s: &str) -> (r: Result<(), String>)
    ensures
        r is Ok <==> wf_xml(s@),
{
    match quick_xml::de::from_str::<serde::de::IgnoredAny>(s) {
        Ok(_) => Ok(()),
        Err(e) => Err(format!("{e}")),
    }
}

/// Metadata validated against the 0.4.0 schema. The version-specific field
/// layout is an external concern; the validated document text is what this
/// core retains.
#[derive(Debug)]
pub struct V0_4_0Meta {
    pub xml: String,
}

/// Metadata validated against the 0.5.0 schema; see [`V0_4_0Meta`].
#[derive(Debug)]
pub struct V0_5_0Meta {
    pub xml: String,
}

/// Metadata validated against the schema family shared by every version from
/// 1.0.0 onward; see [`V0_4_0Meta`].
#[derive(Debug)]
pub struct V1Meta {
    pub xml: String,
}

/// Parsed SICD metadata, tagged by the schema family it was validated
/// against. The payload-free variants mark versions that are recognized but
/// deliberately not implemented.
#[derive(Debug)]
pub enum SicdMeta {
    V0_3_1,
    V0_4_0(V0_4_0Meta),
    V0_4_1,
    V0_5_0(V0_5_0Meta),
    V1(V1Meta),
}

/// The two versions that are recognized but permanently unimplemented.
pub open spec fn unimplemented_version(v: SicdVersion) -> bool {
    v == SicdVersion::V0_3_1 || v == SicdVersion::V0_4_1
}

/// The versions from 1.0.0 onward, which share one forward-compatible
/// schema family.
pub open spec fn v1_family(v: SicdVersion) -> bool {
    v == SicdVersion::V1_0_0 || v == SicdVersion::V1_0_1 || v == SicdVersion::V1_1_0 || v
        == SicdVersion::V1_2_0 || v == SicdVersion::V1_2_1 || v == SicdVersion::V1_3_0
}

/// The metadata union's tag agrees with the version it was produced for.
pub open spec fn tag_matches(m: SicdMeta, v: SicdVersion) -> bool {
    match v {
        SicdVersion::V0_3_1 => m is V0_3_1,
        SicdVersion::V0_4_0 => m is V0_4_0,
        SicdVersion::V0_4_1 => m is V0_4_1,
        SicdVersion::V0_5_0 => m is V0_5_0,
        _ => m is V1,
    }
}

/// What a successful dispatch of text `t` under version `v` returns: the
/// variant of the one schema family that `v` routes to, holding the
/// validated document text.
pub open spec fn meta_has(m: SicdMeta, v: SicdVersion, t: Seq<char>) -> bool {
    match v {
        SicdVersion::V0_3_1 => false,
        SicdVersion::V0_4_1 => false,
        SicdVersion::V0_4_0 => m matches SicdMeta::V0_4_0(p) && p.xml@ == t,
        SicdVersion::V0_5_0 => m matches SicdMeta::V0_5_0(p) && p.xml@ == t,
        _ => m matches SicdMeta::V1(p) && p.xml@ == t,
    }
}

impl SicdMeta {
    /// Routes the metadata text to the schema family that `version` selects
    /// and validates it there. The two permanently unimplemented versions
    /// are refused with `Unimpl` carrying the version token; text that fails
    /// to parse is refused with `MetadataParseError`; every version from
    /// 1.0.0 onward routes to the one shared schema family. A returned
    /// metadata value always carries the tag matching `version`.
    pub fn dispatch(version: SicdVersion, metadata_text: &str) -> (r: Result<SicdMeta, SicdError>)
        ensures
            match r {
                Ok(m) => !unimplemented_version(version) && wf_xml(metadata_text@) && meta_has(
                    m,
                    version,
                    metadata_text@,
                ) && tag_matches(m, version),
                Err(e) => match e {
                    SicdError::Unimpl(t) => unimplemented_version(version) && t@ == token_of(
                        version,
                    ),
                    SicdError::MetadataParseError(_) => !unimplemented_version(version) && !wf_xml(
                        metadata_text@,
                    ),
                    _ => false,
                },
            },
    {
        match version {
            SicdVersion::V0_3_1 => Err(SicdError::Unimpl(String::from_str("0.3.1"))),
            SicdVersion::V0_4_1 => Err(SicdError::Unimpl(String::from_str("0.4.1"))),
            SicdVersion::V0_4_0 => match parse_xml_document(metadata_text) {
                Ok(_) => Ok(
                    SicdMeta::V0_4_0(V0_4_0Meta { xml: String::from_str(metadata_text) }),
                ),
                Err(msg) => Err(SicdError::MetadataParseError(msg)),
            },
            SicdVersion::V0_5_0 => match parse_xml_document(metadata_text) {
                Ok(_) => Ok(
                    SicdMeta::V0_5_0(V0_5_0Meta { xml: String::from_str(metadata_text) }),
                ),
                Err(msg) => Err(SicdError::MetadataParseError(msg)),
            },
            _ => match parse_xml_document(metadata_text) {
                Ok(_) => Ok(SicdMeta::V1(V1Meta { xml: String::from_str(metadata_text) })),
                Err(msg) => Err(SicdError::MetadataParseError(msg)),
            },
        }
    }

    /// The 0.3.1 schema is deliberately unimplemented; there is no metadata
    /// to hand out, only the error that says so.
    pub fn get_v0_3_1_meta(self) -> (r: SicdError)
        ensures
            r matches SicdError::Unimpl(t) && t@ == "0.3.1"@,
    {
        SicdError::Unimpl(String::from_str("0.3.1"))
    }

    /// The 0.4.0 metadata, only when this value actually carries that
    /// version's schema; never a silently wrong-typed result.
    pub fn get_v0_4_0_meta(self) -> (r: Option<V0_4_0Meta>)
        ensures
            match self {
                SicdMeta::V0_4_0(p) => r == Some(p),
                _ => r is None,
            },
    {
        match self {
            SicdMeta::V0_4_0(meta) => Some(meta),
            _ => None,
        }
    }

    /// The 0.4.1 schema is deliberately unimplemented; see
    /// [`Self::get_v0_3_1_meta`].
    pub fn get_v0_4_1_meta(self) -> (r: SicdError)
        ensures
            r matches SicdError::Unimpl(t) && t@ == "0.4.1"@,
    {
        SicdError::Unimpl(String::from_str("0.4.1"))
    }

    /// The 0.5.0 metadata, only when this value actually carries that
    /// version's schema.
    pub fn get_v0_5_0_meta(self) -> (r: Option<V0_5_0Meta>)
        ensures
            match self {
                SicdMeta::V0_5_0(p) => r == Some(p),
                _ => r is None,
            },
    {
        match self {
            SicdMeta::V0_5_0(meta) => Some(meta),
            _ => None,
        }
    }

    /// The shared 1.x metadata, only when this value actually carries that
    /// schema family.
    pub fn get_v1_meta(self) -> (r: Option<V1Meta>)
        ensures
            match self {
                SicdMeta::V1(p) => r == Some(p),
                _ => r is None,
            },
    {
        match self {
            SicdMeta::V1(meta) => Some(meta),
            _ => None,
        }
    }
}

/// Law: the whole 1.x line routes to the one shared schema family — any two
/// dispatch results for versions of that line on the same text are the same
/// variant and hold the same document text; the results differ at most in
/// the version tag stored beside them.
pub proof fn lemma_dispatch_v1_shared(
    m1: SicdMeta,
    m2: SicdMeta,
    v1: SicdVersion,
    v2: SicdVersion,
    t: Seq<char>,
)
    requires
        v1_family(v1),
        v1_family(v2),
        meta_has(m1, v1, t),
        meta_has(m2, v2, t),
    ensures
        m1 matches SicdMeta::V1(p1) && (m2 matches SicdMeta::V1(p2) && p1.xml@ == p2.xml@),
{
}

} // verus!
