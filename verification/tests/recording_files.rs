use acr_recorder::calendar::{days_to_ymd, format_iso8601};
use acr_recorder::format_meta::{
    FormatMetadataDoc, SchemaError, PHYSICS_RECORD_SCHEMA_V1, PHYSICS_RECORD_SCHEMA_V2,
    RKYV_BINARY_VERSION_V1, RKYV_BINARY_VERSION_V2,
};
use acr_recorder::rkyv_format::{
    companion_json_name, read_file_header, read_graphics, read_physics, split_chunks, RkyvError,
    GRAPHICS_MAGIC, PHYSICS_MAGIC,
};
use acr_recorder::metadata_doc::{format_metadata, metadata_json_name, schema_types_all};
use acr_recorder::rkyv_reader::{read_graphics_rkyv, read_rkyv};

fn header(magic: &[u8; 4], version: u16, hz: u32) -> Vec<u8> {
    let mut b = magic.to_vec();
    b.extend_from_slice(&version.to_le_bytes());
    b.extend_from_slice(&hz.to_le_bytes());
    b.extend_from_slice(&[0u8; 6]);
    b
}

fn push_chunk(b: &mut Vec<u8>, payload: &[u8]) {
    b.extend_from_slice(&(payload.len() as u32).to_le_bytes());
    b.extend_from_slice(payload);
}

fn meta() -> FormatMetadataDoc {
    FormatMetadataDoc::inferred_from_binary_only("acc_physics_1.rkyv")
}

#[test]
fn sidecar_resolves_v1_schema() {
    let meta = FormatMetadataDoc::inferred_from_binary_only("acc_physics_1778921308.rkyv");
    assert_eq!(meta.infer_physics_schema(RKYV_BINARY_VERSION_V1), PHYSICS_RECORD_SCHEMA_V1);
    assert_eq!(meta.infer_physics_schema(RKYV_BINARY_VERSION_V2), PHYSICS_RECORD_SCHEMA_V2);
    assert_eq!(meta.format_version, 1);
    assert_eq!(meta.binary_file, "acc_physics_1778921308.rkyv");
}

#[test]
fn headers_parse_and_reject() {
    let h = read_file_header(&header(b"ACCR", 2, 333), PHYSICS_MAGIC).ok().unwrap();
    assert_eq!(h.binary_version, 2);
    assert_eq!(h.sample_rate_hz, 333);
    assert!(matches!(read_file_header(b"AC", PHYSICS_MAGIC), Err(RkyvError::Truncated)));
    assert!(matches!(read_file_header(b"ACCRxx", PHYSICS_MAGIC), Err(RkyvError::Truncated)));
    match read_file_header(&header(b"ACCG", 1, 60), PHYSICS_MAGIC) {
        Err(RkyvError::BadMagic { found }) => assert_eq!(&found, b"ACCG"),
        _ => panic!("expected bad magic"),
    }
    match read_rkyv(&header(b"ACCG", 2, 60), &meta()) {
        Err(RkyvError::BadMagic { found }) => assert_eq!(&found, b"ACCG"),
        _ => panic!("a graphics file is no physics recording"),
    }
    assert!(matches!(read_graphics_rkyv(b"ACCG", &meta()), Err(RkyvError::Truncated)));
}

#[test]
fn chunks_frame_and_stop() {
    let mut b = header(b"ACCR", 2, 333);
    push_chunk(&mut b, b"abc");
    push_chunk(&mut b, b"de");
    let (spans, truncated) = split_chunks(&b, 16);
    assert!(!truncated);
    assert_eq!(spans.len(), 2);
    assert_eq!(&b[spans[0].start..spans[0].start + spans[0].len], b"abc");
    assert_eq!(&b[spans[1].start..spans[1].start + spans[1].len], b"de");
    // a zero length ends the chunks; trailing bytes shorter than a prefix are ignored
    let mut z = b.clone();
    z.extend_from_slice(&[0, 0, 0, 0, 9, 9, 9, 9, 9]);
    assert_eq!(split_chunks(&z, 16).0.len(), 2);
    let mut t = b.clone();
    t.extend_from_slice(&[1, 2]);
    assert_eq!(split_chunks(&t, 16).0.len(), 2);
    assert!(!split_chunks(&t, 16).1);
    // a chunk cut short
    let mut c = b.clone();
    c.extend_from_slice(&[10, 0, 0, 0, 1, 2]);
    let (spans, truncated) = split_chunks(&c, 16);
    assert_eq!(spans.len(), 2);
    assert!(truncated);
}

#[test]
fn physics_and_graphics_layouts() {
    let mut b = header(b"ACCR", 1, 333);
    push_chunk(&mut b, b"xyz");
    let l = read_physics(&b, &meta()).ok().unwrap();
    assert_eq!(l.sample_rate_hz, 333);
    assert_eq!(l.binary_version, 1);
    assert_eq!(l.schema, 1);
    assert_eq!(l.chunks.len(), 1);
    let (hz, l2) = read_rkyv(&b, &meta()).ok().unwrap();
    assert_eq!(hz, 333);
    assert_eq!(l2.schema, 1);
    // graphics files carry their own magic
    assert!(matches!(read_graphics(&b, &meta()), Err(RkyvError::BadMagic { .. })));
    let mut g = header(b"ACCG", 2, 60);
    push_chunk(&mut g, b"g");
    let (hz, lg) = read_graphics_rkyv(&g, &meta()).ok().unwrap();
    assert_eq!(hz, 60);
    assert_eq!(lg.schema, 2);
    assert_eq!(GRAPHICS_MAGIC, *b"ACCG");
}

#[test]
fn schema_checks_against_metadata() {
    let mut b = header(b"ACCR", 2, 333);
    push_chunk(&mut b, b"xyz");
    let mut m = meta();
    m.binary_file_version = Some(1);
    match read_physics(&b, &m) {
        Err(RkyvError::Schema(e)) => {
            assert_eq!(e.message(), "binary_file_version mismatch: json=1, header=2")
        }
        _ => panic!("expected a version mismatch"),
    }
    let mut m = meta();
    m.physics_record_schema = Some(7);
    assert!(matches!(read_physics(&b, &m), Err(RkyvError::UnsupportedSchema { schema: 7 })));
    // without a complete chunk the schema is not looked at
    let empty = header(b"ACCR", 2, 333);
    assert!(read_physics(&empty, &m).is_ok());
    let e = m.validate_physics(2, 3).unwrap_err();
    assert_eq!(e.message(), "physics_record_schema mismatch: json=7, inferred=3");
    assert!(matches!(
        m.validate_graphics(2, 1),
        Ok(())
    ));
    let mut g = meta();
    g.graphics_record_schema = Some(2);
    assert!(matches!(
        g.validate_graphics(1, 1),
        Err(SchemaError::GraphicsSchemaMismatch { json: 2, inferred: 1 })
    ));
    assert_eq!(g.infer_graphics_schema(1), 2);
    assert_eq!(meta().infer_statics_schema(1), 1);
    assert_eq!(meta().infer_statics_schema(2), 2);
}

#[test]
fn companion_names() {
    assert_eq!(companion_json_name("acc_physics_1.rkyv"), "acc_physics_1.json");
    assert_eq!(companion_json_name("acc_physics_1.graphics.rkyv"), "acc_physics_1.json");
    assert_eq!(companion_json_name("notes"), "notes.json");
}

#[test]
fn dates_and_timestamps() {
    // the day-count formula counts from a day-zero that falls on 1969-03-02
    assert_eq!(days_to_ymd(0), (1969, 3, 2));
    assert_eq!(days_to_ymd(18690), (2020, 5, 3));
    assert_eq!(format_iso8601(1614834367), "2020-05-03T05:06:07Z");
    assert_eq!(format_iso8601(0), "1969-03-02T00:00:00Z");
    assert_eq!(days_to_ymd(18628), (2020, 3, 2));
}

#[test]
fn metadata_document_describes_the_recording() {
    let doc = format_metadata(Some("acc_physics_1.rkyv"), 1614834367, None);
    assert_eq!(doc.binary_file, "acc_physics_1.rkyv");
    assert_eq!(doc.created_at, "2020-05-03T05:06:07Z");
    assert_eq!(doc.format_version, 2);
    assert_eq!(doc.binary_file_version, 2);
    assert_eq!(doc.physics_record_schema, 3);
    assert_eq!(doc.sample_rate_hz, 333);
    assert_eq!(doc.file_format.header.layout.len(), 4);
    assert_eq!(doc.file_format.header.layout[2].name, "sample_rate");
    assert_eq!(doc.file_format.header.layout[3].offset, 10);
    assert!(doc.statics.is_none());
    assert_eq!(format_metadata(None, 0, None).binary_file, "recording.rkyv");
    let types = schema_types_all();
    let names: Vec<&str> = types.iter().map(|t| t.name).collect();
    assert_eq!(
        names,
        vec!["PhysicsRecord", "Vector3fRecord", "WheelsRecord", "ContactPointRecord", "CarDamageRecord", "GraphicsRecord"]
    );
    assert_eq!(types[0].fields.len(), 86);
    assert_eq!(types[0].fields[1].name, "gas");
    assert_eq!(types[0].fields[1].unit, Some("0\u{2013}1"));
    assert_eq!(types[5].fields.len(), 9);
    assert_eq!(metadata_json_name("acc_physics_1.rkyv"), "acc_physics_1.json");
    assert_eq!(metadata_json_name("notes"), "notes.json");
}

#[test]
fn written_document_is_found_and_resolves() {
    let written = metadata_json_name("acc_physics_7.rkyv");
    assert_eq!(written, companion_json_name("acc_physics_7.rkyv"));
    assert_eq!(written, companion_json_name("acc_physics_7.graphics.rkyv"));
    let doc = format_metadata(Some("acc_physics_7.rkyv"), 0, None);
    let back = FormatMetadataDoc {
        format_version: doc.format_version,
        binary_file: doc.binary_file.clone(),
        binary_file_version: Some(doc.binary_file_version),
        physics_record_schema: Some(doc.physics_record_schema),
        graphics_record_schema: Some(doc.graphics_record_schema),
        statics_record_schema: Some(doc.statics_record_schema),
        sample_rate_hz: Some(doc.sample_rate_hz),
        source: Some(doc.source.to_string()),
        statics: None,
    };
    let mut b = header(b"ACCR", 2, 333);
    push_chunk(&mut b, &[1, 2, 3]);
    let (hz, layout) = read_rkyv(&b, &back).ok().unwrap();
    assert_eq!(hz, 333);
    assert_eq!(layout.schema, 3);
    let mut g = header(b"ACCG", 2, 60);
    push_chunk(&mut g, &[9]);
    let (_, glayout) = read_graphics_rkyv(&g, &back).ok().unwrap();
    assert_eq!(glayout.schema, 2);
}
