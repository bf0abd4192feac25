use sicd_rs::ContainerData;
use sicd_rs::ImageData;
use sicd_rs::ImageSegment;
use sicd_rs::Sicd;
use sicd_rs::SicdError;
use sicd_rs::SicdMeta;
use sicd_rs::SicdVersion;
use sicd_rs::parse_sicd;

fn push_sample(buf: &mut Vec<u8>, re: f32, im: f32) {
    buf.extend_from_slice(&re.to_be_bytes());
    buf.extend_from_slice(&im.to_be_bytes());
}

fn v1_xml(token: &str) -> String {
    format!("<SICD xmlns=\"{token}\"><ImageData><NumRows>2</NumRows></ImageData></SICD>")
}

#[test]
fn resolve_all_known_tokens() {
    let cases = [
        ("0.3.1", SicdVersion::V0_3_1),
        ("0.4.0", SicdVersion::V0_4_0),
        ("0.4.1", SicdVersion::V0_4_1),
        ("0.5.0", SicdVersion::V0_5_0),
        ("1.0.0", SicdVersion::V1_0_0),
        ("1.0.1", SicdVersion::V1_0_1),
        ("1.1.0", SicdVersion::V1_1_0),
        ("1.2.0", SicdVersion::V1_2_0),
        ("1.2.1", SicdVersion::V1_2_1),
        ("1.3.0", SicdVersion::V1_3_0),
    ];
    for (token, version) in cases {
        assert_eq!(SicdVersion::from_str(token).unwrap(), version);
        let with_prefix = format!("urn:SICD:{token}");
        assert_eq!(SicdVersion::from_str(&with_prefix).unwrap(), version);
    }
}

#[test]
fn resolve_unknown_token_carries_it_verbatim() {
    let r = SicdVersion::from_str("urn:SICD:2.0.0");
    match r {
        Err(SicdError::VersionError(t)) => assert_eq!(t, "urn:SICD:2.0.0"),
        other => panic!("expected VersionError, got {other:?}"),
    }
    let r = SicdVersion::from_str("");
    assert!(matches!(r, Err(SicdError::VersionError(_))));
}

#[test]
fn dispatch_routes_v1_line_to_shared_family() {
    let text = v1_xml("urn:SICD:1.0.0");
    let v1_versions = [
        SicdVersion::V1_0_0,
        SicdVersion::V1_0_1,
        SicdVersion::V1_1_0,
        SicdVersion::V1_2_0,
        SicdVersion::V1_2_1,
        SicdVersion::V1_3_0,
    ];
    let mut seen: Vec<String> = Vec::new();
    for version in v1_versions {
        match SicdMeta::dispatch(version, &text) {
            Ok(SicdMeta::V1(p)) => seen.push(p.xml),
            other => panic!("expected shared 1.x metadata, got {other:?}"),
        }
    }
    for xml in &seen {
        assert_eq!(xml, &seen[0]);
    }
}

#[test]
fn dispatch_refuses_unimplemented_versions() {
    let text = v1_xml("urn:SICD:0.3.1");
    match SicdMeta::dispatch(SicdVersion::V0_3_1, &text) {
        Err(SicdError::Unimpl(t)) => assert_eq!(t, "0.3.1"),
        other => panic!("expected Unimpl, got {other:?}"),
    }
    match SicdMeta::dispatch(SicdVersion::V0_4_1, &text) {
        Err(SicdError::Unimpl(t)) => assert_eq!(t, "0.4.1"),
        other => panic!("expected Unimpl, got {other:?}"),
    }
}

#[test]
fn dispatch_reports_malformed_metadata() {
    let broken = "<SICD xmlns=\"urn:SICD:1.3.0\"><Open></SICD>";
    let r = SicdMeta::dispatch(SicdVersion::V1_3_0, broken);
    assert!(matches!(r, Err(SicdError::MetadataParseError(_))));
    let fine = v1_xml("urn:SICD:1.3.0");
    assert!(SicdMeta::dispatch(SicdVersion::V1_3_0, &fine).is_ok());
}

#[test]
fn dispatch_validates_v0_families() {
    let text = v1_xml("urn:SICD:0.4.0");
    match SicdMeta::dispatch(SicdVersion::V0_4_0, &text) {
        Ok(m) => {
            let p = m.get_v0_4_0_meta().expect("tag must match the version");
            assert_eq!(p.xml, text);
        },
        other => panic!("expected 0.4.0 metadata, got {other:?}"),
    }
    match SicdMeta::dispatch(SicdVersion::V0_5_0, &text) {
        Ok(m) => assert!(m.get_v0_5_0_meta().is_some()),
        other => panic!("expected 0.5.0 metadata, got {other:?}"),
    }
}

#[test]
fn getters_refuse_mismatched_tags() {
    let text = v1_xml("urn:SICD:1.3.0");
    let m = SicdMeta::dispatch(SicdVersion::V1_3_0, &text).unwrap();
    assert!(m.get_v0_4_0_meta().is_none());
    let m = SicdMeta::dispatch(SicdVersion::V1_3_0, &text).unwrap();
    assert!(m.get_v0_5_0_meta().is_none());
    let m = SicdMeta::dispatch(SicdVersion::V1_3_0, &text).unwrap();
    assert!(m.get_v1_meta().is_some());
    let m = SicdMeta::dispatch(SicdVersion::V1_3_0, &text).unwrap();
    assert!(matches!(m.get_v0_3_1_meta(), SicdError::Unimpl(t) if t == "0.3.1"));
    let m = SicdMeta::dispatch(SicdVersion::V1_3_0, &text).unwrap();
    assert!(matches!(m.get_v0_4_1_meta(), SicdError::Unimpl(t) if t == "0.4.1"));
}

#[test]
fn decode_round_trip_two_by_two() {
    let values = [(1.0f32, -2.0f32), (0.5, 3.25), (-4.75, 0.0), (123.5, -0.125)];
    let mut buf: Vec<u8> = Vec::new();
    for (re, im) in values {
        push_sample(&mut buf, re, im);
    }
    assert_eq!(buf.len(), 32);
    let img = ImageData::initialize(&buf, 2, 2).unwrap();
    assert_eq!(img.n_rows, 2);
    assert_eq!(img.n_cols, 2);
    assert_eq!(img.array.len(), 4);
    for row in 0..2 {
        for col in 0..2 {
            let s = img.sample(row, col);
            let (re, im) = values[row * 2 + col];
            assert_eq!(f32::from_bits(s.re_bits), re);
            assert_eq!(f32::from_bits(s.im_bits), im);
        }
    }
}

#[test]
fn decode_is_deterministic() {
    let mut buf: Vec<u8> = Vec::new();
    for k in 0..6u32 {
        push_sample(&mut buf, k as f32 * 0.5, -(k as f32));
    }
    let a = ImageData::initialize(&buf, 2, 3).unwrap();
    let b = ImageData::initialize(&buf, 2, 3).unwrap();
    assert_eq!(a.n_rows, b.n_rows);
    assert_eq!(a.n_cols, b.n_cols);
    assert_eq!(a.array, b.array);
}

#[test]
fn decode_short_buffer_fails_with_shape_mismatch() {
    let buf: Vec<u8> = vec![0u8; 31];
    match ImageData::initialize(&buf, 2, 2) {
        Err(SicdError::ShapeMismatch { expected, actual }) => {
            assert_eq!(expected, 32);
            assert_eq!(actual, 31);
        },
        other => panic!("expected ShapeMismatch, got {other:?}"),
    }
}

#[test]
fn decode_empty_buffer_of_empty_shape() {
    let buf: Vec<u8> = Vec::new();
    let img = ImageData::initialize(&buf, 0, 0).unwrap();
    assert_eq!(img.array.len(), 0);
    let r = ImageData::initialize(&buf, 0, 5);
    assert!(r.is_ok());
    let r = ImageData::initialize(&buf, 1, 1);
    assert!(matches!(r, Err(SicdError::ShapeMismatch { expected: 8, actual: 0 })));
}

#[test]
fn parse_sicd_resolves_version_and_tag() {
    let text = v1_xml("urn:SICD:1.2.1");
    let (version, meta) = parse_sicd(&text).unwrap();
    assert_eq!(version, SicdVersion::V1_2_1);
    assert!(meta.get_v1_meta().is_some());
}

#[test]
fn parse_sicd_without_namespace_fails() {
    let r = parse_sicd("<SICD><a>1</a></SICD>");
    assert!(matches!(r, Err(SicdError::MetadataParseError(_))));
}

fn segment_of(values: &[(f32, f32)], n_rows: usize, n_cols: usize) -> ImageSegment {
    let mut data: Vec<u8> = Vec::new();
    for (re, im) in values {
        push_sample(&mut data, *re, *im);
    }
    ImageSegment { data, n_rows, n_cols }
}

#[test]
fn assemble_three_segments_in_order() {
    let segments = vec![
        segment_of(&[(1.0, 2.0)], 1, 1),
        segment_of(&[(3.0, 4.0), (5.0, 6.0)], 1, 2),
        segment_of(&[(7.0, 8.0), (9.0, 10.0)], 2, 1),
    ];
    let container = ContainerData {
        metadata_texts: vec![v1_xml("urn:SICD:1.3.0")],
        image_segments: segments,
        declared_image_count: 3,
    };
    let sicd = Sicd::assemble(container).unwrap();
    assert_eq!(sicd.version, SicdVersion::V1_3_0);
    assert_eq!(sicd.image_data.len(), 3);
    assert_eq!(f32::from_bits(sicd.image_data[0].array[0].re_bits), 1.0);
    assert_eq!(f32::from_bits(sicd.image_data[1].array[1].im_bits), 6.0);
    assert_eq!(sicd.image_data[2].n_rows, 2);
    assert_eq!(f32::from_bits(sicd.image_data[2].array[0].re_bits), 7.0);
    assert!(sicd.meta.get_v1_meta().is_some());
}

#[test]
fn assemble_unknown_namespace_yields_version_error() {
    let container = ContainerData {
        metadata_texts: vec![v1_xml("urn:SICD:9.9.9")],
        image_segments: vec![segment_of(&[(1.0, 2.0)], 1, 1)],
        declared_image_count: 1,
    };
    match Sicd::assemble(container) {
        Err(SicdError::VersionError(t)) => assert_eq!(t, "urn:SICD:9.9.9"),
        other => panic!("expected VersionError, got {other:?}"),
    }
}

#[test]
fn assemble_without_metadata_segment_fails() {
    let container = ContainerData {
        metadata_texts: Vec::new(),
        image_segments: Vec::new(),
        declared_image_count: 0,
    };
    assert!(matches!(Sicd::assemble(container), Err(SicdError::MissingSegment)));
}

#[test]
fn assemble_count_disagreement_fails() {
    let container = ContainerData {
        metadata_texts: vec![v1_xml("urn:SICD:1.0.0")],
        image_segments: vec![segment_of(&[(1.0, 2.0)], 1, 1)],
        declared_image_count: 2,
    };
    assert!(matches!(Sicd::assemble(container), Err(SicdError::MissingSegment)));
}

#[test]
fn assemble_aborts_on_first_bad_segment() {
    let mut bad = segment_of(&[(1.0, 2.0)], 1, 1);
    bad.data.pop();
    let container = ContainerData {
        metadata_texts: vec![v1_xml("urn:SICD:1.1.0")],
        image_segments: vec![segment_of(&[(0.0, 0.0)], 1, 1), bad],
        declared_image_count: 2,
    };
    match Sicd::assemble(container) {
        Err(SicdError::ShapeMismatch { expected, actual }) => {
            assert_eq!(expected, 8);
            assert_eq!(actual, 7);
        },
        other => panic!("expected ShapeMismatch, got {other:?}"),
    }
}

#[test]
fn error_messages_match_their_variants() {
    let e = SicdError::VersionError("2.0.0".to_string());
    assert_eq!(e.message(), "unknown sicd version 2.0.0");
    let e = SicdError::Unimpl("0.3.1".to_string());
    assert_eq!(e.message(), "metadata for version 0.3.1 is not implemented");
    let e = SicdError::MissingSegment;
    assert_eq!(e.message(), "a required container segment is missing");
    let e = SicdError::ShapeMismatch { expected: 8, actual: 7 };
    assert_eq!(e.message(), "image buffer length does not match the declared shape");
    let e = SicdError::MetadataParseError("tag mismatch".to_string());
    assert_eq!(e.message(), "could not parse sicd metadata: tag mismatch");
}
