//! The companion `.json` metadata of an rkyv recording: schema versions and the rules
//! that infer and check them against the binary header.

use vstd::prelude::*;
use crate::text::push_decimal;

verus! {

/// Binary header `version` of the first recorder format.
pub const RKYV_BINARY_VERSION_V1: u16 = 1;

/// Binary header `version` of the current recorder format.
pub const RKYV_BINARY_VERSION_V2: u16 = 2;

/// Current version of the JSON metadata document.
pub const FORMAT_JSON_VERSION: u16 = 2;

pub const PHYSICS_RECORD_SCHEMA_V1: u32 = 1;

pub const PHYSICS_RECORD_SCHEMA_V2: u32 = 2;

pub const PHYSICS_RECORD_SCHEMA_V3: u32 = 3;

pub const GRAPHICS_RECORD_SCHEMA_V1: u32 = 1;

pub const GRAPHICS_RECORD_SCHEMA_V2: u32 = 2;

pub const STATICS_RECORD_SCHEMA_V1: u32 = 1;

pub const STATICS_RECORD_SCHEMA_V2: u32 = 2;

/// A JSON value of `serde_json`, carried through unread.
#[verifier::external_type_specification]
#[verifier::external_body]
pub struct ExJsonValue(serde_json::Value);

/// Parsed companion metadata of a recording.
pub struct FormatMetadataDoc {
    pub format_version: u16,
    pub binary_file: String,
    pub binary_file_version: Option<u16>,
    pub physics_record_schema: Option<u32>,
    pub graphics_record_schema: Option<u32>,
    pub statics_record_schema: Option<u32>,
    pub sample_rate_hz: Option<u32>,
    pub source: Option<String>,
    pub statics: Option<serde_json::Value>,
}

/// The schema a record stream has when the metadata names none: the first schema for
/// files of the first binary version, the second otherwise.
pub open spec fn schema_for_version(named: Option<u32>, binary_version: u16) -> u32 {
    match named {
        Some(s) => s,
        None => if binary_version == RKYV_BINARY_VERSION_V1 {
            1
        } else {
            2
        },
    }
}

/// A disagreement between the metadata and a recording.
pub enum SchemaError {
    /// The metadata names another physics schema than the one in use.
    PhysicsSchemaMismatch { json: u32, inferred: u32 },
    /// The metadata names another graphics schema than the one in use.
    GraphicsSchemaMismatch { json: u32, inferred: u32 },
    /// The metadata names another binary version than the file header holds.
    BinaryVersionMismatch { json: u16, header: u16 },
}

/// The text of a schema error.
pub open spec fn schema_error_text(e: SchemaError) -> Seq<char> {
    match e {
        SchemaError::PhysicsSchemaMismatch { json, inferred } => "physics_record_schema mismatch: json="@
            + crate::text::decimal(json as nat) + ", inferred="@ + crate::text::decimal(
            inferred as nat,
        ),
        SchemaError::GraphicsSchemaMismatch { json, inferred } =>
            "graphics_record_schema mismatch: json="@ + crate::text::decimal(json as nat)
            + ", inferred="@ + crate::text::decimal(inferred as nat),
        SchemaError::BinaryVersionMismatch { json, header } => "binary_file_version mismatch: json="@
            + crate::text::decimal(json as nat) + ", header="@ + crate::text::decimal(
            header as nat,
        ),
    }
}

impl SchemaError {
    /// The message of the error.
    pub fn message(&self) -> (r: String)
        ensures
            r@ == schema_error_text(*self),
    {
        let mut m = String::new();
        match self {
            SchemaError::PhysicsSchemaMismatch { json, inferred } => {
                m.append("physics_record_schema mismatch: json=");
                push_decimal(&mut m, *json as u64);
                m.append(", inferred=");
                push_decimal(&mut m, *inferred as u64);
            },
            SchemaError::GraphicsSchemaMismatch { json, inferred } => {
                m.append("graphics_record_schema mismatch: json=");
                push_decimal(&mut m, *json as u64);
                m.append(", inferred=");
                push_decimal(&mut m, *inferred as u64);
            },
            SchemaError::BinaryVersionMismatch { json, header } => {
                m.append("binary_file_version mismatch: json=");
                push_decimal(&mut m, *json as u64);
                m.append(", header=");
                push_decimal(&mut m, *header as u64);
            },
        }
        m
    }
}

/// The outcome of checking a schema and binary version against the metadata.
pub open spec fn validation(
    named: Option<u32>,
    json_version: Option<u16>,
    binary_version: u16,
    schema: u32,
    physics: bool,
) -> Result<(), SchemaError> {
    match named {
        Some(expected) if expected != schema => Err(
            if physics {
                SchemaError::PhysicsSchemaMismatch { json: expected, inferred: schema }
            } else {
                SchemaError::GraphicsSchemaMismatch { json: expected, inferred: schema }
            },
        ),
        _ => match json_version {
            Some(bv) if bv != binary_version => Err(
                SchemaError::BinaryVersionMismatch { json: bv, header: binary_version },
            ),
            _ => Ok(()),
        },
    }
}

impl FormatMetadataDoc {
    /// Metadata for a recording that has no companion file: only its file name is known.
    pub fn inferred_from_binary_only(binary_file: &str) -> (r: Self)
        ensures
            r.format_version == 1,
            r.binary_file@ == binary_file@,
            r.binary_file_version is None,
            r.physics_record_schema is None,
            r.graphics_record_schema is None,
            r.statics_record_schema is None,
            r.sample_rate_hz is None,
            r.source is None,
            r.statics is None,
    {
        FormatMetadataDoc {
            format_version: 1,
            binary_file: binary_file.to_owned(),
            binary_file_version: None,
            physics_record_schema: None,
            graphics_record_schema: None,
            statics_record_schema: None,
            sample_rate_hz: None,
            source: None,
            statics: None,
        }
    }

    /// The physics record schema: the one the metadata names, else the one implied by the
    /// binary version.
    pub fn infer_physics_schema(&self, binary_version: u16) -> (r: u32)
        ensures
            r == schema_for_version(self.physics_record_schema, binary_version),
    {
        match self.physics_record_schema {
            Some(s) => s,
            None => if binary_version == RKYV_BINARY_VERSION_V1 {
                PHYSICS_RECORD_SCHEMA_V1
            } else {
                PHYSICS_RECORD_SCHEMA_V2
            },
        }
    }

    /// The graphics record schema: the one the metadata names, else the one implied by
    /// the binary version.
    pub fn infer_graphics_schema(&self, binary_version: u16) -> (r: u32)
        ensures
            r == schema_for_version(self.graphics_record_schema, binary_version),
    {
        match self.graphics_record_schema {
            Some(s) => s,
            None => if binary_version == RKYV_BINARY_VERSION_V1 {
                GRAPHICS_RECORD_SCHEMA_V1
            } else {
                GRAPHICS_RECORD_SCHEMA_V2
            },
        }
    }

    /// The statics record schema: the one the metadata names, else the one implied by the
    /// binary version.
    pub fn infer_statics_schema(&self, binary_version: u16) -> (r: u32)
        ensures
            r == schema_for_version(self.statics_record_schema, binary_version),
    {
        match self.statics_record_schema {
            Some(s) => s,
            None => if binary_version == RKYV_BINARY_VERSION_V1 {
                STATICS_RECORD_SCHEMA_V1
            } else {
                STATICS_RECORD_SCHEMA_V2
            },
        }
    }

    /// Checks a physics schema and the header's binary version against the metadata.
    pub fn validate_physics(&self, binary_version: u16, schema: u32) -> (r: Result<(), SchemaError>)
        ensures
            r == validation(
                self.physics_record_schema,
                self.binary_file_version,
                binary_version,
                schema,
                true,
            ),
    {
        if let Some(expected) = self.physics_record_schema {
            if expected != schema {
                return Err(SchemaError::PhysicsSchemaMismatch { json: expected, inferred: schema });
            }
        }
        if let Some(bv) = self.binary_file_version {
            if bv != binary_version {
                return Err(SchemaError::BinaryVersionMismatch { json: bv, header: binary_version });
            }
        }
        Ok(())
    }

    /// Checks a graphics schema and the header's binary version against the metadata.
    pub fn validate_graphics(&self, binary_version: u16, schema: u32) -> (r: Result<(), SchemaError>)
        ensures
            r == validation(
                self.graphics_record_schema,
                self.binary_file_version,
                binary_version,
                schema,
                false,
            ),
    {
        if let Some(expected) = self.graphics_record_schema {
            if expected != schema {
                return Err(SchemaError::GraphicsSchemaMismatch { json: expected, inferred: schema });
            }
        }
        if let Some(bv) = self.binary_file_version {
            if bv != binary_version {
                return Err(SchemaError::BinaryVersionMismatch { json: bv, header: binary_version });
            }
        }
        Ok(())
    }
}

/// The schema inferred from the metadata always passes the schema check: validating it
/// can only fail on the binary version, and does exactly when the metadata names another
/// version than the header.
pub proof fn lemma_inferred_schema_validates(
    named: Option<u32>,
    json_version: Option<u16>,
    binary_version: u16,
    physics: bool,
)
    ensures
        validation(
            named,
            json_version,
            binary_version,
            schema_for_version(named, binary_version),
            physics,
        ) is Ok <==> (json_version is None || json_version == Some(binary_version)),
{
}

} // verus!
