//! Layout of an rkyv recording file: a 16-byte header (magic, binary version, sample
//! rate, reserved bytes) followed by length-prefixed chunks, each the rkyv archive of a
//! list of records. The chunk payloads are decoded with `rkyv` by the caller.

use vstd::prelude::*;
use crate::bytes::{le32, read_le16, read_le32, lemma_le32_of_read};
use crate::format_meta::{schema_for_version, validation, FormatMetadataDoc, SchemaError};
use crate::text::{chars_of, has_prefix, string_from_chars};

verus! {

/// Magic of a physics recording, `b"ACCR"`.
pub const PHYSICS_MAGIC: [u8; 4] = [0x41, 0x43, 0x43, 0x52];

/// Magic of a graphics recording, `b"ACCG"`.
pub const GRAPHICS_MAGIC: [u8; 4] = [0x41, 0x43, 0x43, 0x47];

/// Size of the file header.
pub const HEADER_SIZE: usize = 16;

/// The fields of a recording header.
pub struct FileHeader {
    pub binary_version: u16,
    pub sample_rate_hz: u32,
}

/// Why a recording cannot be read.
pub enum RkyvError {
    /// The file ends inside the header, or inside a chunk.
    Truncated,
    /// The file starts with another magic than expected.
    BadMagic { found: [u8; 4] },
    /// The metadata disagrees with the recording.
    Schema(SchemaError),
    /// The metadata names a record schema this reader has no decoder for.
    UnsupportedSchema { schema: u32 },
}

/// The outcome of reading the header of `b` with the expected magic `m`.
pub open spec fn header_of(b: Seq<u8>, m: Seq<u8>) -> Option<(int, int)> {
    if b.len() < 16 || b.take(4) != m {
        None
    } else {
        Some((read_le16(b, 4), read_le32(b, 6)))
    }
}

/// The error reading a header from `b` gives when `b` holds no header with magic `m`:
/// too short for the magic or for the header, or another magic.
pub open spec fn header_error(e: RkyvError, b: Seq<u8>, m: Seq<u8>) -> bool {
    if b.len() < 4 || b.take(4) == m {
        e is Truncated
    } else {
        e matches RkyvError::BadMagic { found } && found@ == b.take(4)
    }
}

/// Reads the header of a recording: the magic must be `expected_magic`.
pub fn read_file_header(bytes: &[u8], expected_magic: [u8; 4]) -> (r: Result<FileHeader, RkyvError>)
    ensures
        bytes@.len() < 4 ==> r matches Err(RkyvError::Truncated),
        bytes@.len() >= 4 && bytes@.take(4) != expected_magic@ ==> (r matches Err(
            RkyvError::BadMagic { found },
        ) && found@ == bytes@.take(4)),
        bytes@.len() >= 4 && bytes@.take(4) == expected_magic@ && bytes@.len() < 16 ==> r matches Err(
            RkyvError::Truncated,
        ),
        r is Ok <==> header_of(bytes@, expected_magic@) is Some,
        r matches Ok(h) ==> header_of(bytes@, expected_magic@) == Some(
            (h.binary_version as int, h.sample_rate_hz as int),
        ),
{
    if bytes.len() < 4 {
        return Err(RkyvError::Truncated);
    }
    let found: [u8; 4] = [bytes[0], bytes[1], bytes[2], bytes[3]];
    assert(found@ =~= bytes@.take(4));
    if found[0] != expected_magic[0] || found[1] != expected_magic[1] || found[2]
        != expected_magic[2] || found[3] != expected_magic[3] {
        assert(found@ != expected_magic@) by {
            if found@ == expected_magic@ {
                assert(found@[0] == expected_magic@[0]);
                assert(found@[1] == expected_magic@[1]);
                assert(found@[2] == expected_magic@[2]);
                assert(found@[3] == expected_magic@[3]);
            }
        }
        return Err(RkyvError::BadMagic { found });
    }
    assert(found@ =~= expected_magic@);
    if bytes.len() < 16 {
        return Err(RkyvError::Truncated);
    }
    let binary_version: u16 = bytes[4] as u16 + 256 * (bytes[5] as u16);
    let sample_rate_hz: u32 = bytes[6] as u32 + 256 * (bytes[7] as u32) + 65536 * (bytes[8] as u32)
        + 16777216 * (bytes[9] as u32);
    Ok(FileHeader { binary_version, sample_rate_hz })
}

/// Where a chunk's payload lies in the file.
pub struct ChunkSpan {
    pub start: usize,
    pub len: usize,
}

/// The chunks found from `pos` on: each is a 4-byte little-endian length followed by that
/// many payload bytes. Reading stops quietly when fewer than four bytes remain or at a
/// zero length; the flag tells that the file ends inside a payload.
pub open spec fn frames_from(b: Seq<u8>, pos: int) -> (Seq<(int, int)>, bool)
    decreases b.len() - pos,
{
    if pos < 0 || b.len() - pos < 4 {
        (Seq::empty(), false)
    } else {
        let n = read_le32(b, pos);
        if n <= 0 {
            (Seq::empty(), false)
        } else if b.len() - pos - 4 < n {
            (Seq::empty(), true)
        } else {
            let rest = frames_from(b, pos + 4 + n);
            (seq![(pos + 4, n)] + rest.0, rest.1)
        }
    }
}

/// The spans as pairs of integers.
pub open spec fn span_pairs(v: Seq<ChunkSpan>) -> Seq<(int, int)> {
    v.map_values(|c: ChunkSpan| (c.start as int, c.len as int))
}

/// The chunks of a recording from byte `pos` on (see [`frames_from`]).
pub fn split_chunks(bytes: &[u8], pos: usize) -> (r: (Vec<ChunkSpan>, bool))
    requires
        pos <= bytes@.len(),
    ensures
        (span_pairs(r.0@), r.1) == frames_from(bytes@, pos as int),
{
    let mut spans: Vec<ChunkSpan> = Vec::new();
    let mut p = pos;
    let n = bytes.len();
    loop
        invariant
            n == bytes@.len(),
            p <= n,
            span_pairs(spans@) + frames_from(bytes@, p as int).0 == frames_from(bytes@, pos as int).0,
            frames_from(bytes@, p as int).1 == frames_from(bytes@, pos as int).1,
        decreases n - p,
    {
        if n - p < 4 {
            assert(span_pairs(spans@) + Seq::<(int, int)>::empty() =~= span_pairs(spans@));
            return (spans, false);
        }
        let len: u32 = bytes[p] as u32 + 256 * (bytes[p + 1] as u32) + 65536 * (bytes[p + 2] as u32)
            + 16777216 * (bytes[p + 3] as u32);
        assert(len == read_le32(bytes@, p as int));
        if len == 0 {
            assert(span_pairs(spans@) + Seq::<(int, int)>::empty() =~= span_pairs(spans@));
            return (spans, false);
        }
        if ((n - p - 4) as u64) < (len as u64) {
            assert(span_pairs(spans@) + Seq::<(int, int)>::empty() =~= span_pairs(spans@));
            return (spans, true);
        }
        let ghost old_spans = spans@;
        let ghost rest = frames_from(bytes@, (p + 4 + len) as int);
        spans.push(ChunkSpan { start: p + 4, len: len as usize });
        assert(span_pairs(spans@) =~= span_pairs(old_spans).push(((p + 4) as int, len as int)));
        assert(span_pairs(spans@) + rest.0 =~= span_pairs(old_spans) + (seq![
            ((p + 4) as int, len as int),
        ] + rest.0));
        p = p + 4 + len as usize;
    }
}

/// Where the chunks of a recording lie, with the header fields and the record schema.
pub struct RecordingLayout {
    pub sample_rate_hz: u32,
    pub binary_version: u16,
    pub schema: u32,
    pub chunks: Vec<ChunkSpan>,
    /// The file ends inside a chunk (reported after the complete chunks are decoded).
    pub truncated: bool,
}

/// The physics schemas this reader decodes.
pub open spec fn physics_schema_supported(s: u32) -> bool {
    1 <= s <= 3
}

/// The graphics schemas this reader decodes.
pub open spec fn graphics_schema_supported(s: u32) -> bool {
    1 <= s <= 2
}

/// The outcome of resolving the physics schema of a recording with `header` against
/// `meta`.
pub open spec fn physics_schema_of(meta: FormatMetadataDoc, binary_version: u16) -> Result<
    u32,
    SchemaError,
> {
    let s = schema_for_version(meta.physics_record_schema, binary_version);
    match validation(meta.physics_record_schema, meta.binary_file_version, binary_version, s, true) {
        Ok(_) => Ok(s),
        Err(e) => Err(e),
    }
}

/// The outcome of resolving the graphics schema of a recording with `header` against
/// `meta`.
pub open spec fn graphics_schema_of(meta: FormatMetadataDoc, binary_version: u16) -> Result<
    u32,
    SchemaError,
> {
    let s = schema_for_version(meta.graphics_record_schema, binary_version);
    match validation(meta.graphics_record_schema, meta.binary_file_version, binary_version, s, false) {
        Ok(_) => Ok(s),
        Err(e) => Err(e),
    }
}

/// The physics record schema of a recording: the one the metadata names or the one its
/// binary version implies, checked against the metadata.
pub fn resolve_physics_schema(header: &FileHeader, meta: &FormatMetadataDoc) -> (r: Result<
    u32,
    SchemaError,
>)
    ensures
        r == physics_schema_of(*meta, header.binary_version),
{
    let schema = match meta.physics_record_schema {
        Some(s) => s,
        None => meta.infer_physics_schema(header.binary_version),
    };
    match meta.validate_physics(header.binary_version, schema) {
        Ok(()) => Ok(schema),
        Err(e) => Err(e),
    }
}

/// The graphics record schema of a recording: the one the metadata names or the one its
/// binary version implies, checked against the metadata.
pub fn resolve_graphics_schema(header: &FileHeader, meta: &FormatMetadataDoc) -> (r: Result<
    u32,
    SchemaError,
>)
    ensures
        r == graphics_schema_of(*meta, header.binary_version),
{
    let schema = match meta.graphics_record_schema {
        Some(s) => s,
        None => meta.infer_graphics_schema(header.binary_version),
    };
    match meta.validate_graphics(header.binary_version, schema) {
        Ok(()) => Ok(schema),
        Err(e) => Err(e),
    }
}

/// The facts shared by the physics and graphics readers about a layout read from `b`.
pub open spec fn layout_matches(l: RecordingLayout, b: Seq<u8>, m: Seq<u8>, schema: u32) -> bool {
    &&& header_of(b, m) == Some((l.binary_version as int, l.sample_rate_hz as int))
    &&& l.schema == schema
    &&& (span_pairs(l.chunks@), l.truncated) == frames_from(b, 16)
}

/// Reads the layout of a physics recording with its metadata: header, schema check and
/// chunk framing. A schema without decoder is refused once a complete chunk is present.
pub fn read_physics(bytes: &[u8], meta: &FormatMetadataDoc) -> (r: Result<RecordingLayout, RkyvError>)
    ensures
        header_of(bytes@, PHYSICS_MAGIC@) is None ==> (r matches Err(e) && header_error(
            e,
            bytes@,
            PHYSICS_MAGIC@,
        )),
        header_of(bytes@, PHYSICS_MAGIC@) matches Some(h) ==> match physics_schema_of(
            *meta,
            h.0 as u16,
        ) {
            Err(e) => r == Err::<RecordingLayout, RkyvError>(RkyvError::Schema(e)),
            Ok(s) => if frames_from(bytes@, 16).0.len() > 0 && !physics_schema_supported(s) {
                (r matches Err(RkyvError::UnsupportedSchema { schema }) && schema == s)
            } else {
                (r matches Ok(l) && layout_matches(l, bytes@, PHYSICS_MAGIC@, s))
            },
        },
{
    let header = match read_file_header(bytes, PHYSICS_MAGIC) {
        Ok(h) => h,
        Err(e) => return Err(e),
    };
    let schema = match resolve_physics_schema(&header, meta) {
        Ok(s) => s,
        Err(e) => return Err(RkyvError::Schema(e)),
    };
    let (chunks, truncated) = split_chunks(bytes, HEADER_SIZE);
    if chunks.len() > 0 && !(1 <= schema && schema <= 3) {
        return Err(RkyvError::UnsupportedSchema { schema });
    }
    Ok(
        RecordingLayout {
            sample_rate_hz: header.sample_rate_hz,
            binary_version: header.binary_version,
            schema,
            chunks,
            truncated,
        },
    )
}

/// Reads the layout of a graphics recording with its metadata: header, schema check and
/// chunk framing. A schema without decoder is refused once a complete chunk is present.
pub fn read_graphics(bytes: &[u8], meta: &FormatMetadataDoc) -> (r: Result<RecordingLayout, RkyvError>)
    ensures
        header_of(bytes@, GRAPHICS_MAGIC@) is None ==> (r matches Err(e) && header_error(
            e,
            bytes@,
            GRAPHICS_MAGIC@,
        )),
        header_of(bytes@, GRAPHICS_MAGIC@) matches Some(h) ==> match graphics_schema_of(
            *meta,
            h.0 as u16,
        ) {
            Err(e) => r == Err::<RecordingLayout, RkyvError>(RkyvError::Schema(e)),
            Ok(s) => if frames_from(bytes@, 16).0.len() > 0 && !graphics_schema_supported(s) {
                (r matches Err(RkyvError::UnsupportedSchema { schema }) && schema == s)
            } else {
                (r matches Ok(l) && layout_matches(l, bytes@, GRAPHICS_MAGIC@, s))
            },
        },
{
    let header = match read_file_header(bytes, GRAPHICS_MAGIC) {
        Ok(h) => h,
        Err(e) => return Err(e),
    };
    let schema = match resolve_graphics_schema(&header, meta) {
        Ok(s) => s,
        Err(e) => return Err(RkyvError::Schema(e)),
    };
    let (chunks, truncated) = split_chunks(bytes, HEADER_SIZE);
    if chunks.len() > 0 && !(1 <= schema && schema <= 2) {
        return Err(RkyvError::UnsupportedSchema { schema });
    }
    Ok(
        RecordingLayout {
            sample_rate_hz: header.sample_rate_hz,
            binary_version: header.binary_version,
            schema,
            chunks,
            truncated,
        },
    )
}

// ---------------------------------------------------------------- writing chunks

/// The chunks `cs`, each behind its 4-byte little-endian length.
pub open spec fn frame_chunks(cs: Seq<Seq<u8>>) -> Seq<u8>
    decreases cs.len(),
{
    if cs.len() == 0 {
        Seq::empty()
    } else {
        le32(cs[0].len() as int) + cs[0] + frame_chunks(cs.drop_first())
    }
}

/// Chunks as a recorder writes them: non-empty (a zero length ends a file) and
/// shorter than 4 GiB.
pub open spec fn writable_chunks(cs: Seq<Seq<u8>>) -> bool {
    forall|k: int| 0 <= k < cs.len() ==> 0 < #[trigger] cs[k].len() < 0x1_0000_0000
}

/// Reading back framed chunks after any prefix gives exactly the chunks written, in
/// order, with nothing cut short.
pub proof fn lemma_frames_read_back(p: Seq<u8>, cs: Seq<Seq<u8>>)
    requires
        writable_chunks(cs),
    ensures
        ({
            let b = p + frame_chunks(cs);
            let f = frames_from(b, p.len() as int);
            &&& f.0.len() == cs.len()
            &&& !f.1
            &&& forall|k: int| 0 <= k < cs.len() ==> (#[trigger] f.0[k]).1 == cs[k].len()
            &&& forall|k: int|
                0 <= k < cs.len() ==> #[trigger] b.subrange(f.0[k].0, f.0[k].0 + f.0[k].1) == cs[k]
        }),
    decreases cs.len(),
{
    let b = p + frame_chunks(cs);
    let pos = p.len() as int;
    if cs.len() == 0 {
        assert(frame_chunks(cs) =~= Seq::<u8>::empty());
        assert(b =~= p);
        assert(frames_from(b, pos).0.len() == 0);
        assert(!frames_from(b, pos).1);
    } else {
        let c0 = cs[0];
        let rest = cs.drop_first();
        assert(writable_chunks(rest)) by {
            assert forall|k: int| 0 <= k < rest.len() implies 0 < #[trigger] rest[k].len()
                < 0x1_0000_0000 by {
                assert(rest[k] == cs[k + 1]);
            }
        }
        let p2 = p + le32(c0.len() as int) + c0;
        let b2 = p2 + frame_chunks(rest);
        assert(frame_chunks(cs) == le32(c0.len() as int) + c0 + frame_chunks(rest));
        assert(b =~= b2);
        lemma_frames_read_back(p2, rest);
        let g = frames_from(b2, p2.len() as int);
        assert(g.0.len() == rest.len());
        assert(!g.1);
        let n = c0.len() as int;
        assert(0 < n < 0x1_0000_0000);
        // the length prefix reads back
        assert(b.subrange(pos, pos + 4) =~= le32(n));
        lemma_le32_read_at(b, n, pos);
        assert(b.len() - pos - 4 >= n);
        let f = frames_from(b, pos);
        assert(p2.len() == pos + 4 + n);
        assert(f.0 == seq![(pos + 4, n)] + g.0);
        assert(f.1 == g.1);
        assert(b.subrange(pos + 4, pos + 4 + n) =~= c0);
        assert(f.0.len() == cs.len());
        assert forall|k: int| 0 <= k < cs.len() implies (#[trigger] f.0[k]).1 == cs[k].len() by {
            if k > 0 {
                assert(f.0[k] == g.0[k - 1]);
                assert(cs[k] == rest[k - 1]);
            }
        }
        assert forall|k: int| 0 <= k < cs.len() implies #[trigger] b.subrange(
            f.0[k].0,
            f.0[k].0 + f.0[k].1,
        ) == cs[k] by {
            if k > 0 {
                assert(f.0[k] == g.0[k - 1]);
                assert(cs[k] == rest[k - 1]);
                assert(b2.subrange(g.0[k - 1].0, g.0[k - 1].0 + g.0[k - 1].1) == rest[k - 1]);
            } else {
                assert(f.0[0] == (pos + 4, n));
            }
        }
    }
}

proof fn lemma_le32_read_at(b: Seq<u8>, v: int, pos: int)
    requires
        0 <= v < 0x1_0000_0000,
        0 <= pos,
        pos + 4 <= b.len(),
        b.subrange(pos, pos + 4) == le32(v),
    ensures
        read_le32(b, pos) == v,
{
    crate::bytes::lemma_read_le32(b, v, pos);
}

// ---------------------------------------------------------------- companion file names

/// The name of the metadata file of a recording named `name`: the name without its
/// `.graphics.rkyv` or `.rkyv` ending, with `.json` appended.
pub open spec fn companion_json_text(name: Seq<char>) -> Seq<char> {
    let g = ".graphics.rkyv"@;
    let r = ".rkyv"@;
    let base = if name.len() >= g.len() && name.subrange(name.len() - g.len(), name.len() as int)
        == g {
        name.subrange(0, name.len() - g.len())
    } else if name.len() >= r.len() && name.subrange(name.len() - r.len(), name.len() as int) == r {
        name.subrange(0, name.len() - r.len())
    } else {
        name
    };
    base + ".json"@
}

fn ends_with_chars(cs: &Vec<char>, suffix: &str) -> (r: bool)
    ensures
        r == (cs@.len() >= suffix@.len() && cs@.subrange(
            cs@.len() - suffix@.len(),
            cs@.len() as int,
        ) == suffix@),
{
    let ss = chars_of(suffix);
    if ss.len() > cs.len() {
        return false;
    }
    crate::text::chars_match_at(cs, cs.len() - ss.len(), &ss)
}

/// The file name of the metadata of a recording file named `file_name`.
pub fn companion_json_name(file_name: &str) -> (r: String)
    ensures
        r@ == companion_json_text(file_name@),
{
    let cs = chars_of(file_name);
    let g = ".graphics.rkyv";
    let rk = ".rkyv";
    proof {
        reveal_strlit(".graphics.rkyv");
        reveal_strlit(".rkyv");
    }
    let end: usize = if ends_with_chars(&cs, g) {
        cs.len() - 14
    } else if ends_with_chars(&cs, rk) {
        cs.len() - 5
    } else {
        cs.len()
    };
    let mut out = string_from_chars(&cs, 0, end);
    out.append(".json");
    proof {
        if end == cs@.len() {
            assert(cs@.subrange(0, end as int) =~= cs@);
        }
    }
    out
}

} // verus!
