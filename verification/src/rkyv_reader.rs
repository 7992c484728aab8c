//! Reading recordings: the sample rate and chunk layout of physics and graphics files.

use vstd::prelude::*;
use crate::format_meta::FormatMetadataDoc;
use crate::rkyv_format::{
    frames_from, graphics_schema_of, header_error, graphics_schema_supported, header_of, layout_matches,
    physics_schema_of, physics_schema_supported, read_graphics, read_physics, RecordingLayout,
    RkyvError, GRAPHICS_MAGIC, PHYSICS_MAGIC,
};

verus! {

/// The sample rate and chunk layout of a physics recording, checked against its metadata
/// (see [`read_physics`]).
pub fn read_rkyv(bytes: &[u8], meta: &FormatMetadataDoc) -> (r: Result<(u32, RecordingLayout), RkyvError>)
    ensures
        header_of(bytes@, PHYSICS_MAGIC@) is None ==> (r matches Err(e) && header_error(
            e,
            bytes@,
            PHYSICS_MAGIC@,
        )),
        header_of(bytes@, PHYSICS_MAGIC@) matches Some(h) ==> match physics_schema_of(
            *meta,
            h.0 as u16,
        ) {
            Err(e) => r == Err::<(u32, RecordingLayout), RkyvError>(RkyvError::Schema(e)),
            Ok(s) => if frames_from(bytes@, 16).0.len() > 0 && !physics_schema_supported(s) {
                (r matches Err(RkyvError::UnsupportedSchema { schema }) && schema == s)
            } else {
                (r matches Ok((hz, l)) && hz == l.sample_rate_hz && layout_matches(
                    l,
                    bytes@,
                    PHYSICS_MAGIC@,
                    s,
                ))
            },
        },
{
    match read_physics(bytes, meta) {
        Ok(l) => Ok((l.sample_rate_hz, l)),
        Err(e) => Err(e),
    }
}

/// The sample rate and chunk layout of a graphics recording, checked against its
/// metadata (see [`read_graphics`]).
pub fn read_graphics_rkyv(bytes: &[u8], meta: &FormatMetadataDoc) -> (r: Result<
    (u32, RecordingLayout),
    RkyvError,
>)
    ensures
        header_of(bytes@, GRAPHICS_MAGIC@) is None ==> (r matches Err(e) && header_error(
            e,
            bytes@,
            GRAPHICS_MAGIC@,
        )),
        header_of(bytes@, GRAPHICS_MAGIC@) matches Some(h) ==> match graphics_schema_of(
            *meta,
            h.0 as u16,
        ) {
            Err(e) => r == Err::<(u32, RecordingLayout), RkyvError>(RkyvError::Schema(e)),
            Ok(s) => if frames_from(bytes@, 16).0.len() > 0 && !graphics_schema_supported(s) {
                (r matches Err(RkyvError::UnsupportedSchema { schema }) && schema == s)
            } else {
                (r matches Ok((hz, l)) && hz == l.sample_rate_hz && layout_matches(
                    l,
                    bytes@,
                    GRAPHICS_MAGIC@,
                    s,
                ))
            },
        },
{
    match read_graphics(bytes, meta) {
        Ok(l) => Ok((l.sample_rate_hz, l)),
        Err(e) => Err(e),
    }
}

} // verus!
