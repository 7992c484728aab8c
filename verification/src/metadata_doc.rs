//! The companion JSON document written beside an rkyv recording: what it says of the
//! file's framing and of the record types, field by field.

use vstd::prelude::*;
use crate::calendar::{format_iso8601, iso8601_text};
use crate::format_meta::{
    FORMAT_JSON_VERSION, GRAPHICS_RECORD_SCHEMA_V2, PHYSICS_RECORD_SCHEMA_V3,
    RKYV_BINARY_VERSION_V2, STATICS_RECORD_SCHEMA_V2,
};
use crate::format_meta::{FormatMetadataDoc, SchemaError};
use crate::rkyv_format::{
    companion_json_text, graphics_schema_of, graphics_schema_supported, physics_schema_of,
    physics_schema_supported,
};
use crate::tools::{file_stem, file_stem_text};

verus! {

/// One field of a record type, as listed in the document's schema section.
pub struct FieldDef {
    pub name: &'static str,
    pub ty: &'static str,
    pub unit: Option<&'static str>,
}

/// A record type of the document's schema section.
pub struct TypeDef {
    pub name: &'static str,
    pub description: &'static str,
    pub fields: Vec<FieldDef>,
}

impl View for TypeDef {
    type V = (&'static str, &'static str, Seq<FieldDef>);

    open spec fn view(&self) -> Self::V {
        (self.name, self.description, self.fields@)
    }
}

/// The views of a list of record types.
pub open spec fn type_views(types: Seq<TypeDef>) -> Seq<(&'static str, &'static str, Seq<FieldDef>)> {
    types.map_values(|t: TypeDef| t@)
}

/// The fields of `PhysicsRecord` as the document lists them.
pub open spec fn physics_record_fields() -> Seq<FieldDef> {
    seq![
        FieldDef { name: "packet_id", ty: "i32", unit: None },
        FieldDef { name: "gas", ty: "f32", unit: Some("0–1") },
        FieldDef { name: "brake", ty: "f32", unit: Some("0–1") },
        FieldDef { name: "clutch", ty: "f32", unit: Some("0–1") },
        FieldDef { name: "steer_angle", ty: "f32", unit: Some("deg") },
        FieldDef { name: "gear", ty: "i32", unit: None },
        FieldDef { name: "rpm", ty: "i32", unit: None },
        FieldDef { name: "autoshifter_on", ty: "bool", unit: None },
        FieldDef { name: "ignition_on", ty: "bool", unit: None },
        FieldDef { name: "starter_engine_on", ty: "bool", unit: None },
        FieldDef { name: "is_engine_running", ty: "bool", unit: None },
        FieldDef { name: "speed_kmh", ty: "f32", unit: Some("km/h") },
        FieldDef { name: "velocity", ty: "Vector3fRecord", unit: None },
        FieldDef { name: "local_velocity", ty: "Vector3fRecord", unit: None },
        FieldDef { name: "local_angular_vel", ty: "Vector3fRecord", unit: None },
        FieldDef { name: "g_force", ty: "Vector3fRecord", unit: None },
        FieldDef { name: "heading", ty: "f32", unit: Some("rad") },
        FieldDef { name: "pitch", ty: "f32", unit: Some("rad") },
        FieldDef { name: "roll", ty: "f32", unit: Some("rad") },
        FieldDef { name: "final_ff", ty: "f32", unit: None },
        FieldDef { name: "wheel_slip", ty: "WheelsRecord", unit: None },
        FieldDef { name: "wheel_load", ty: "WheelsRecord", unit: None },
        FieldDef { name: "wheel_pressure", ty: "WheelsRecord", unit: Some("psi") },
        FieldDef { name: "wheel_angular_speed", ty: "WheelsRecord", unit: Some("rad/s") },
        FieldDef { name: "tyre_wear", ty: "WheelsRecord", unit: None },
        FieldDef { name: "tyre_dirty_level", ty: "WheelsRecord", unit: None },
        FieldDef { name: "tyre_core_temp", ty: "WheelsRecord", unit: Some("°C") },
        FieldDef { name: "camber_rad", ty: "WheelsRecord", unit: Some("rad") },
        FieldDef { name: "suspension_travel", ty: "WheelsRecord", unit: Some("mm") },
        FieldDef { name: "brake_temp", ty: "WheelsRecord", unit: Some("°C") },
        FieldDef { name: "brake_pressure", ty: "WheelsRecord", unit: Some("bar") },
        FieldDef { name: "suspension_damage", ty: "WheelsRecord", unit: None },
        FieldDef { name: "slip_ratio", ty: "WheelsRecord", unit: None },
        FieldDef { name: "slip_angle", ty: "WheelsRecord", unit: Some("deg") },
        FieldDef { name: "pad_life", ty: "WheelsRecord", unit: Some("%") },
        FieldDef { name: "disc_life", ty: "WheelsRecord", unit: Some("%") },
        FieldDef { name: "front_brake_compound", ty: "i32", unit: None },
        FieldDef { name: "rear_brake_compound", ty: "i32", unit: None },
        FieldDef { name: "tyre_temp_i", ty: "WheelsRecord", unit: Some("°C") },
        FieldDef { name: "tyre_temp_m", ty: "WheelsRecord", unit: Some("°C") },
        FieldDef { name: "tyre_temp_o", ty: "WheelsRecord", unit: Some("°C") },
        FieldDef { name: "tyre_temp_extra", ty: "WheelsRecord", unit: Some("°C (4th SHM block; see PhysicsMap)") },
        FieldDef { name: "tyre_contact_point", ty: "ContactPointRecord", unit: None },
        FieldDef { name: "tyre_contact_normal", ty: "ContactPointRecord", unit: None },
        FieldDef { name: "tyre_contact_heading", ty: "ContactPointRecord", unit: None },
        FieldDef { name: "fuel", ty: "f32", unit: Some("L") },
        FieldDef { name: "tc", ty: "f32", unit: None },
        FieldDef { name: "abs", ty: "f32", unit: None },
        FieldDef { name: "pit_limiter_on", ty: "bool", unit: None },
        FieldDef { name: "turbo_boost", ty: "f32", unit: Some("bar") },
        FieldDef { name: "air_temp", ty: "f32", unit: Some("°C") },
        FieldDef { name: "road_temp", ty: "f32", unit: Some("°C") },
        FieldDef { name: "water_temp", ty: "f32", unit: Some("°C") },
        FieldDef { name: "car_damage", ty: "CarDamageRecord", unit: None },
        FieldDef { name: "is_ai_controlled", ty: "bool", unit: None },
        FieldDef { name: "brake_bias", ty: "f32", unit: None },
        FieldDef { name: "tc_in_action", ty: "bool", unit: None },
        FieldDef { name: "abs_in_action", ty: "bool", unit: None },
        FieldDef { name: "drs", ty: "i32", unit: None },
        FieldDef { name: "cg_height", ty: "f32", unit: None },
        FieldDef { name: "number_of_tyres_out", ty: "i32", unit: None },
        FieldDef { name: "kers_charge", ty: "f32", unit: None },
        FieldDef { name: "kers_input", ty: "f32", unit: None },
        FieldDef { name: "ride_height_front", ty: "f32", unit: None },
        FieldDef { name: "ride_height_rear", ty: "f32", unit: None },
        FieldDef { name: "ballast", ty: "f32", unit: None },
        FieldDef { name: "air_density", ty: "f32", unit: None },
        FieldDef { name: "performance_meter", ty: "f32", unit: None },
        FieldDef { name: "engine_brake", ty: "i32", unit: None },
        FieldDef { name: "ers_recovery_level", ty: "i32", unit: None },
        FieldDef { name: "ers_power_level", ty: "i32", unit: None },
        FieldDef { name: "ers_heat_charging", ty: "i32", unit: None },
        FieldDef { name: "ers_is_charging", ty: "i32", unit: None },
        FieldDef { name: "kers_current_kj", ty: "f32", unit: None },
        FieldDef { name: "drs_available", ty: "i32", unit: None },
        FieldDef { name: "drs_enabled", ty: "i32", unit: None },
        FieldDef { name: "p2p_activation", ty: "i32", unit: None },
        FieldDef { name: "p2p_status", ty: "i32", unit: None },
        FieldDef { name: "current_max_rpm", ty: "i32", unit: None },
        FieldDef { name: "mz", ty: "WheelsRecord", unit: None },
        FieldDef { name: "fz", ty: "WheelsRecord", unit: None },
        FieldDef { name: "my", ty: "WheelsRecord", unit: None },
        FieldDef { name: "kerb_vibration", ty: "f32", unit: None },
        FieldDef { name: "slip_vibration", ty: "f32", unit: None },
        FieldDef { name: "g_vibration", ty: "f32", unit: None },
        FieldDef { name: "abs_vibration", ty: "f32", unit: None },
    ]
}

fn physics_record_vec() -> (r: Vec<FieldDef>)
    ensures
        r@ == physics_record_fields(),
{
    vec![
        FieldDef { name: "packet_id", ty: "i32", unit: None },
        FieldDef { name: "gas", ty: "f32", unit: Some("0–1") },
        FieldDef { name: "brake", ty: "f32", unit: Some("0–1") },
        FieldDef { name: "clutch", ty: "f32", unit: Some("0–1") },
        FieldDef { name: "steer_angle", ty: "f32", unit: Some("deg") },
        FieldDef { name: "gear", ty: "i32", unit: None },
        FieldDef { name: "rpm", ty: "i32", unit: None },
        FieldDef { name: "autoshifter_on", ty: "bool", unit: None },
        FieldDef { name: "ignition_on", ty: "bool", unit: None },
        FieldDef { name: "starter_engine_on", ty: "bool", unit: None },
        FieldDef { name: "is_engine_running", ty: "bool", unit: None },
        FieldDef { name: "speed_kmh", ty: "f32", unit: Some("km/h") },
        FieldDef { name: "velocity", ty: "Vector3fRecord", unit: None },
        FieldDef { name: "local_velocity", ty: "Vector3fRecord", unit: None },
        FieldDef { name: "local_angular_vel", ty: "Vector3fRecord", unit: None },
        FieldDef { name: "g_force", ty: "Vector3fRecord", unit: None },
        FieldDef { name: "heading", ty: "f32", unit: Some("rad") },
        FieldDef { name: "pitch", ty: "f32", unit: Some("rad") },
        FieldDef { name: "roll", ty: "f32", unit: Some("rad") },
        FieldDef { name: "final_ff", ty: "f32", unit: None },
        FieldDef { name: "wheel_slip", ty: "WheelsRecord", unit: None },
        FieldDef { name: "wheel_load", ty: "WheelsRecord", unit: None },
        FieldDef { name: "wheel_pressure", ty: "WheelsRecord", unit: Some("psi") },
        FieldDef { name: "wheel_angular_speed", ty: "WheelsRecord", unit: Some("rad/s") },
        FieldDef { name: "tyre_wear", ty: "WheelsRecord", unit: None },
        FieldDef { name: "tyre_dirty_level", ty: "WheelsRecord", unit: None },
        FieldDef { name: "tyre_core_temp", ty: "WheelsRecord", unit: Some("°C") },
        FieldDef { name: "camber_rad", ty: "WheelsRecord", unit: Some("rad") },
        FieldDef { name: "suspension_travel", ty: "WheelsRecord", unit: Some("mm") },
        FieldDef { name: "brake_temp", ty: "WheelsRecord", unit: Some("°C") },
        FieldDef { name: "brake_pressure", ty: "WheelsRecord", unit: Some("bar") },
        FieldDef { name: "suspension_damage", ty: "WheelsRecord", unit: None },
        FieldDef { name: "slip_ratio", ty: "WheelsRecord", unit: None },
        FieldDef { name: "slip_angle", ty: "WheelsRecord", unit: Some("deg") },
        FieldDef { name: "pad_life", ty: "WheelsRecord", unit: Some("%") },
        FieldDef { name: "disc_life", ty: "WheelsRecord", unit: Some("%") },
        FieldDef { name: "front_brake_compound", ty: "i32", unit: None },
        FieldDef { name: "rear_brake_compound", ty: "i32", unit: None },
        FieldDef { name: "tyre_temp_i", ty: "WheelsRecord", unit: Some("°C") },
        FieldDef { name: "tyre_temp_m", ty: "WheelsRecord", unit: Some("°C") },
        FieldDef { name: "tyre_temp_o", ty: "WheelsRecord", unit: Some("°C") },
        FieldDef { name: "tyre_temp_extra", ty: "WheelsRecord", unit: Some("°C (4th SHM block; see PhysicsMap)") },
        FieldDef { name: "tyre_contact_point", ty: "ContactPointRecord", unit: None },
        FieldDef { name: "tyre_contact_normal", ty: "ContactPointRecord", unit: None },
        FieldDef { name: "tyre_contact_heading", ty: "ContactPointRecord", unit: None },
        FieldDef { name: "fuel", ty: "f32", unit: Some("L") },
        FieldDef { name: "tc", ty: "f32", unit: None },
        FieldDef { name: "abs", ty: "f32", unit: None },
        FieldDef { name: "pit_limiter_on", ty: "bool", unit: None },
        FieldDef { name: "turbo_boost", ty: "f32", unit: Some("bar") },
        FieldDef { name: "air_temp", ty: "f32", unit: Some("°C") },
        FieldDef { name: "road_temp", ty: "f32", unit: Some("°C") },
        FieldDef { name: "water_temp", ty: "f32", unit: Some("°C") },
        FieldDef { name: "car_damage", ty: "CarDamageRecord", unit: None },
        FieldDef { name: "is_ai_controlled", ty: "bool", unit: None },
        FieldDef { name: "brake_bias", ty: "f32", unit: None },
        FieldDef { name: "tc_in_action", ty: "bool", unit: None },
        FieldDef { name: "abs_in_action", ty: "bool", unit: None },
        FieldDef { name: "drs", ty: "i32", unit: None },
        FieldDef { name: "cg_height", ty: "f32", unit: None },
        FieldDef { name: "number_of_tyres_out", ty: "i32", unit: None },
        FieldDef { name: "kers_charge", ty: "f32", unit: None },
        FieldDef { name: "kers_input", ty: "f32", unit: None },
        FieldDef { name: "ride_height_front", ty: "f32", unit: None },
        FieldDef { name: "ride_height_rear", ty: "f32", unit: None },
        FieldDef { name: "ballast", ty: "f32", unit: None },
        FieldDef { name: "air_density", ty: "f32", unit: None },
        FieldDef { name: "performance_meter", ty: "f32", unit: None },
        FieldDef { name: "engine_brake", ty: "i32", unit: None },
        FieldDef { name: "ers_recovery_level", ty: "i32", unit: None },
        FieldDef { name: "ers_power_level", ty: "i32", unit: None },
        FieldDef { name: "ers_heat_charging", ty: "i32", unit: None },
        FieldDef { name: "ers_is_charging", ty: "i32", unit: None },
        FieldDef { name: "kers_current_kj", ty: "f32", unit: None },
        FieldDef { name: "drs_available", ty: "i32", unit: None },
        FieldDef { name: "drs_enabled", ty: "i32", unit: None },
        FieldDef { name: "p2p_activation", ty: "i32", unit: None },
        FieldDef { name: "p2p_status", ty: "i32", unit: None },
        FieldDef { name: "current_max_rpm", ty: "i32", unit: None },
        FieldDef { name: "mz", ty: "WheelsRecord", unit: None },
        FieldDef { name: "fz", ty: "WheelsRecord", unit: None },
        FieldDef { name: "my", ty: "WheelsRecord", unit: None },
        FieldDef { name: "kerb_vibration", ty: "f32", unit: None },
        FieldDef { name: "slip_vibration", ty: "f32", unit: None },
        FieldDef { name: "g_vibration", ty: "f32", unit: None },
        FieldDef { name: "abs_vibration", ty: "f32", unit: None },
    ]
}

/// The fields of `Vector3fRecord` as the document lists them.
pub open spec fn vector3f_record_fields() -> Seq<FieldDef> {
    seq![
        FieldDef { name: "x", ty: "f32", unit: None },
        FieldDef { name: "y", ty: "f32", unit: None },
        FieldDef { name: "z", ty: "f32", unit: None },
    ]
}

fn vector3f_record_vec() -> (r: Vec<FieldDef>)
    ensures
        r@ == vector3f_record_fields(),
{
    vec![
        FieldDef { name: "x", ty: "f32", unit: None },
        FieldDef { name: "y", ty: "f32", unit: None },
        FieldDef { name: "z", ty: "f32", unit: None },
    ]
}

/// The fields of `WheelsRecord` as the document lists them.
pub open spec fn wheels_record_fields() -> Seq<FieldDef> {
    seq![
        FieldDef { name: "front_left", ty: "f32", unit: None },
        FieldDef { name: "front_right", ty: "f32", unit: None },
        FieldDef { name: "rear_left", ty: "f32", unit: None },
        FieldDef { name: "rear_right", ty: "f32", unit: None },
    ]
}

fn wheels_record_vec() -> (r: Vec<FieldDef>)
    ensures
        r@ == wheels_record_fields(),
{
    vec![
        FieldDef { name: "front_left", ty: "f32", unit: None },
        FieldDef { name: "front_right", ty: "f32", unit: None },
        FieldDef { name: "rear_left", ty: "f32", unit: None },
        FieldDef { name: "rear_right", ty: "f32", unit: None },
    ]
}

/// The fields of `ContactPointRecord` as the document lists them.
pub open spec fn contact_point_record_fields() -> Seq<FieldDef> {
    seq![
        FieldDef { name: "front_left", ty: "Vector3fRecord", unit: None },
        FieldDef { name: "front_right", ty: "Vector3fRecord", unit: None },
        FieldDef { name: "rear_left", ty: "Vector3fRecord", unit: None },
        FieldDef { name: "rear_right", ty: "Vector3fRecord", unit: None },
    ]
}

fn contact_point_record_vec() -> (r: Vec<FieldDef>)
    ensures
        r@ == contact_point_record_fields(),
{
    vec![
        FieldDef { name: "front_left", ty: "Vector3fRecord", unit: None },
        FieldDef { name: "front_right", ty: "Vector3fRecord", unit: None },
        FieldDef { name: "rear_left", ty: "Vector3fRecord", unit: None },
        FieldDef { name: "rear_right", ty: "Vector3fRecord", unit: None },
    ]
}

/// The fields of `CarDamageRecord` as the document lists them.
pub open spec fn car_damage_record_fields() -> Seq<FieldDef> {
    seq![
        FieldDef { name: "front", ty: "f32", unit: None },
        FieldDef { name: "rear", ty: "f32", unit: None },
        FieldDef { name: "left", ty: "f32", unit: None },
        FieldDef { name: "right", ty: "f32", unit: None },
        FieldDef { name: "center", ty: "f32", unit: None },
    ]
}

fn car_damage_record_vec() -> (r: Vec<FieldDef>)
    ensures
        r@ == car_damage_record_fields(),
{
    vec![
        FieldDef { name: "front", ty: "f32", unit: None },
        FieldDef { name: "rear", ty: "f32", unit: None },
        FieldDef { name: "left", ty: "f32", unit: None },
        FieldDef { name: "right", ty: "f32", unit: None },
        FieldDef { name: "center", ty: "f32", unit: None },
    ]
}

/// The fields of `GraphicsRecord` as the document lists them.
pub open spec fn graphics_record_fields() -> Seq<FieldDef> {
    seq![
        FieldDef { name: "packet_id", ty: "i32", unit: None },
        FieldDef { name: "car_coordinates_x", ty: "f32", unit: Some("game world") },
        FieldDef { name: "car_coordinates_y", ty: "f32", unit: Some("game world") },
        FieldDef { name: "car_coordinates_z", ty: "f32", unit: Some("game world") },
        FieldDef { name: "distance_traveled", ty: "f32", unit: Some("m") },
        FieldDef { name: "speed_kmh", ty: "f32", unit: None },
        FieldDef { name: "replay_time_multiplier", ty: "f32", unit: Some("v2 only") },
        FieldDef { name: "surface_grip", ty: "f32", unit: Some("v2 only") },
        FieldDef { name: "i_split", ty: "i32", unit: Some("v2 only") },
    ]
}

fn graphics_record_vec() -> (r: Vec<FieldDef>)
    ensures
        r@ == graphics_record_fields(),
{
    vec![
        FieldDef { name: "packet_id", ty: "i32", unit: None },
        FieldDef { name: "car_coordinates_x", ty: "f32", unit: Some("game world") },
        FieldDef { name: "car_coordinates_y", ty: "f32", unit: Some("game world") },
        FieldDef { name: "car_coordinates_z", ty: "f32", unit: Some("game world") },
        FieldDef { name: "distance_traveled", ty: "f32", unit: Some("m") },
        FieldDef { name: "speed_kmh", ty: "f32", unit: None },
        FieldDef { name: "replay_time_multiplier", ty: "f32", unit: Some("v2 only") },
        FieldDef { name: "surface_grip", ty: "f32", unit: Some("v2 only") },
        FieldDef { name: "i_split", ty: "i32", unit: Some("v2 only") },
    ]
}
/// The record types of physics recordings: the physics record and the types it uses.
pub open spec fn physics_types() -> Seq<(&'static str, &'static str, Seq<FieldDef>)> {
    seq![
        (
            "PhysicsRecord",
            "Physics schema v2 (~333 Hz); v1 omits tyre_temp_extra (see record::v1)",
            physics_record_fields(),
        ),
        ("Vector3fRecord", "3D vector (x, y, z)", vector3f_record_fields()),
        (
            "WheelsRecord",
            "Per-wheel values (front_left, front_right, rear_left, rear_right)",
            wheels_record_fields(),
        ),
        ("ContactPointRecord", "3D contact points for all four tyres", contact_point_record_fields()),
        ("CarDamageRecord", "Car damage (front, rear, left, right, center)", car_damage_record_fields()),
    ]
}

/// The record types of graphics recordings.
pub open spec fn graphics_types() -> Seq<(&'static str, &'static str, Seq<FieldDef>)> {
    seq![
        (
            "GraphicsRecord",
            "Graphics snapshot schema v2 (~60 Hz); v1 omits replay_time_multiplier, surface_grip, i_split",
            graphics_record_fields(),
        ),
    ]
}

/// The physics record types of the schema section.
pub fn schema_types_physics() -> (r: Vec<TypeDef>)
    ensures
        type_views(r@) == physics_types(),
{
    let r = vec![
        TypeDef {
            name: "PhysicsRecord",
            description: "Physics schema v2 (~333 Hz); v1 omits tyre_temp_extra (see record::v1)",
            fields: physics_record_vec(),
        },
        TypeDef { name: "Vector3fRecord", description: "3D vector (x, y, z)", fields: vector3f_record_vec() },
        TypeDef {
            name: "WheelsRecord",
            description: "Per-wheel values (front_left, front_right, rear_left, rear_right)",
            fields: wheels_record_vec(),
        },
        TypeDef {
            name: "ContactPointRecord",
            description: "3D contact points for all four tyres",
            fields: contact_point_record_vec(),
        },
        TypeDef {
            name: "CarDamageRecord",
            description: "Car damage (front, rear, left, right, center)",
            fields: car_damage_record_vec(),
        },
    ];
    assert(type_views(r@) =~= physics_types());
    r
}

/// The graphics record types of the schema section.
pub fn schema_types_graphics() -> (r: Vec<TypeDef>)
    ensures
        type_views(r@) == graphics_types(),
{
    let r = vec![
        TypeDef {
            name: "GraphicsRecord",
            description: "Graphics snapshot schema v2 (~60 Hz); v1 omits replay_time_multiplier, surface_grip, i_split",
            fields: graphics_record_vec(),
        },
    ];
    assert(type_views(r@) =~= graphics_types());
    r
}

/// All record types of the schema section: the physics types, then the graphics types.
pub fn schema_types_all() -> (r: Vec<TypeDef>)
    ensures
        type_views(r@) == physics_types() + graphics_types(),
{
    let mut types = schema_types_physics();
    let mut g = schema_types_graphics();
    let ghost p = types@;
    let ghost gs = g@;
    types.append(&mut g);
    assert(types@ == p + gs);
    assert(type_views(types@) =~= type_views(p) + type_views(gs));
    types
}

/// One field of the 16-byte file header, as the document describes it.
pub struct HeaderField {
    pub offset: u32,
    pub size: u32,
    pub name: &'static str,
    pub ty: &'static str,
    pub description: &'static str,
}

/// The header section of the document.
pub struct HeaderFormat {
    pub size_bytes: u32,
    pub layout: Vec<HeaderField>,
    pub byte_order: &'static str,
}

/// The length prefix of each chunk.
pub struct LengthPrefix {
    pub size_bytes: u32,
    pub ty: &'static str,
    pub byte_order: &'static str,
}

/// The chunk section of the document.
pub struct ChunkFormat {
    pub structure: &'static str,
    pub length_prefix: LengthPrefix,
    pub payload: &'static str,
}

/// How the binary file is laid out.
pub struct FileFormat {
    pub header: HeaderFormat,
    pub chunks: ChunkFormat,
    pub serialization: &'static str,
}

/// The schema section: the root type of the chunk payloads and every record type.
pub struct Schema {
    pub root_type: &'static str,
    pub root_description: &'static str,
    pub types: Vec<TypeDef>,
}

/// The metadata document written beside a new recording.
pub struct FormatMetadata {
    pub format_version: u16,
    pub binary_file: String,
    pub binary_file_version: u16,
    pub physics_record_schema: u32,
    pub graphics_record_schema: u32,
    pub statics_record_schema: u32,
    pub created_at: String,
    pub sample_rate_hz: u32,
    pub source: &'static str,
    pub file_format: FileFormat,
    pub schema: Schema,
    /// The session statics, already turned into JSON; left out of the document when absent.
    pub statics: Option<serde_json::Value>,
}

/// The header fields the document lists: magic, version, sample rate and reserved bytes.
pub open spec fn header_layout() -> Seq<HeaderField> {
    seq![
        HeaderField { offset: 0, size: 4, name: "magic", ty: "bytes", description: "File signature, must be b\"ACCR\"" },
        HeaderField { offset: 4, size: 2, name: "version", ty: "u16", description: "Format version" },
        HeaderField { offset: 6, size: 4, name: "sample_rate", ty: "u32", description: "Target sample rate in Hz (typically 333)" },
        HeaderField { offset: 10, size: 6, name: "reserved", ty: "bytes", description: "Reserved for future use" },
    ]
}

/// The name the document gives the binary file: its file name, or `recording.rkyv` when
/// the path has none.
pub open spec fn binary_file_text(file_name: Option<&str>) -> Seq<char> {
    match file_name {
        Some(n) => n@,
        None => "recording.rkyv"@,
    }
}

/// The metadata document of a new recording whose file name is `file_name`, stamped with
/// the `iso8601_text` of `created_at_secs` seconds, with the session statics as JSON.
pub fn format_metadata(
    file_name: Option<&str>,
    created_at_secs: u64,
    statics: Option<serde_json::Value>,
) -> (r: FormatMetadata)
    ensures
        r.format_version == FORMAT_JSON_VERSION,
        r.binary_file@ == binary_file_text(file_name),
        r.binary_file_version == RKYV_BINARY_VERSION_V2,
        r.physics_record_schema == PHYSICS_RECORD_SCHEMA_V3,
        r.graphics_record_schema == GRAPHICS_RECORD_SCHEMA_V2,
        r.statics_record_schema == STATICS_RECORD_SCHEMA_V2,
        r.created_at@ == iso8601_text(created_at_secs as nat),
        r.sample_rate_hz == 333,
        r.source == "ACC/AC Rally shared memory (acc_shared_memory_rs)",
        r.file_format.header.size_bytes == 16,
        r.file_format.header.byte_order == "little-endian",
        r.file_format.header.layout@ == header_layout(),
        r.file_format.chunks.structure == "Repeated: [length_prefix][payload] from offset 16 until EOF",
        r.file_format.chunks.length_prefix == (LengthPrefix { size_bytes: 4, ty: "u32", byte_order: "little-endian" }),
        r.file_format.chunks.payload == "rkyv-serialized Vec<PhysicsRecord>",
        r.file_format.serialization == "rkyv 0.7. Read via acr_recorder::export::rkyv_format using binary_file_version and *_record_schema from this file.",
        r.schema.root_type == "Vec<PhysicsRecord> | Vec<GraphicsRecord>",
        r.schema.root_description == "Chunk payloads; layout version = physics_record_schema / graphics_record_schema",
        type_views(r.schema.types@) == physics_types() + graphics_types(),
        r.statics == statics,
{
    let binary_file = match file_name {
        Some(n) => n.to_owned(),
        None => "recording.rkyv".to_owned(),
    };
    let layout = vec![
        HeaderField { offset: 0, size: 4, name: "magic", ty: "bytes", description: "File signature, must be b\"ACCR\"" },
        HeaderField { offset: 4, size: 2, name: "version", ty: "u16", description: "Format version" },
        HeaderField { offset: 6, size: 4, name: "sample_rate", ty: "u32", description: "Target sample rate in Hz (typically 333)" },
        HeaderField { offset: 10, size: 6, name: "reserved", ty: "bytes", description: "Reserved for future use" },
    ];
    FormatMetadata {
        format_version: FORMAT_JSON_VERSION,
        binary_file,
        binary_file_version: RKYV_BINARY_VERSION_V2,
        physics_record_schema: PHYSICS_RECORD_SCHEMA_V3,
        graphics_record_schema: GRAPHICS_RECORD_SCHEMA_V2,
        statics_record_schema: STATICS_RECORD_SCHEMA_V2,
        created_at: format_iso8601(created_at_secs),
        sample_rate_hz: 333,
        source: "ACC/AC Rally shared memory (acc_shared_memory_rs)",
        file_format: FileFormat {
            header: HeaderFormat { size_bytes: 16, layout, byte_order: "little-endian" },
            chunks: ChunkFormat {
                structure: "Repeated: [length_prefix][payload] from offset 16 until EOF",
                length_prefix: LengthPrefix { size_bytes: 4, ty: "u32", byte_order: "little-endian" },
                payload: "rkyv-serialized Vec<PhysicsRecord>",
            },
            serialization: "rkyv 0.7. Read via acr_recorder::export::rkyv_format using binary_file_version and *_record_schema from this file.",
        },
        schema: Schema {
            root_type: "Vec<PhysicsRecord> | Vec<GraphicsRecord>",
            root_description: "Chunk payloads; layout version = physics_record_schema / graphics_record_schema",
            types: schema_types_all(),
        },
        statics,
    }
}

/// The file name of the document written for a recording named `file_name`: the name
/// with its extension replaced by `json`.
pub fn metadata_json_name(file_name: &str) -> (r: String)
    ensures
        r@ == file_stem_text(file_name@) + ".json"@,
{
    let mut s = file_stem(file_name);
    s.append(".json");
    s
}

/// `doc` is the companion document as a reader gets it back from the document written for
/// `m`: every field a reader keeps, the source text included, as written.
pub open spec fn reads_back(m: FormatMetadata, doc: FormatMetadataDoc) -> bool {
    &&& doc.format_version == m.format_version
    &&& doc.binary_file == m.binary_file
    &&& doc.binary_file_version == Some(m.binary_file_version)
    &&& doc.physics_record_schema == Some(m.physics_record_schema)
    &&& doc.graphics_record_schema == Some(m.graphics_record_schema)
    &&& doc.statics_record_schema == Some(m.statics_record_schema)
    &&& doc.sample_rate_hz == Some(m.sample_rate_hz)
    &&& (doc.source matches Some(x) && x@ == m.source@)
    &&& doc.statics == m.statics
}

/// A new recording is read with the schemas it was written with: the document written
/// for it, read back, resolves a physics file and a graphics file of the current binary
/// version to the current record schemas, which the readers decode.
pub proof fn lemma_written_document_resolves(m: FormatMetadata, doc: FormatMetadataDoc)
    requires
        m.binary_file_version == RKYV_BINARY_VERSION_V2,
        m.physics_record_schema == PHYSICS_RECORD_SCHEMA_V3,
        m.graphics_record_schema == GRAPHICS_RECORD_SCHEMA_V2,
        reads_back(m, doc),
    ensures
        physics_schema_of(doc, RKYV_BINARY_VERSION_V2) == Ok::<u32, SchemaError>(PHYSICS_RECORD_SCHEMA_V3),
        graphics_schema_of(doc, RKYV_BINARY_VERSION_V2) == Ok::<u32, SchemaError>(GRAPHICS_RECORD_SCHEMA_V2),
        physics_schema_supported(PHYSICS_RECORD_SCHEMA_V3),
        graphics_schema_supported(GRAPHICS_RECORD_SCHEMA_V2),
{
}

/// Readers find the document the writer wrote: for a physics recording `base.rkyv`
/// (`base` not empty and not ending in `.graphics`), the document name given when it is
/// written is the one looked up when it is read, and the one looked up for its graphics
/// recording `base.graphics.rkyv`.
pub proof fn lemma_reader_finds_written_document(base: Seq<char>)
    requires
        base.len() > 0,
        !(base.len() >= 9 && base.subrange(base.len() - 9, base.len() as int) == ".graphics"@),
    ensures
        file_stem_text(base + ".rkyv"@) + ".json"@ == companion_json_text(base + ".rkyv"@),
        companion_json_text(base + ".graphics.rkyv"@) == companion_json_text(base + ".rkyv"@),
{
    reveal_strlit(".rkyv");
    reveal_strlit(".graphics.rkyv");
    reveal_strlit(".graphics");
    reveal_strlit("..");
    let n = base + ".rkyv"@;
    let g = base + ".graphics.rkyv"@;
    let b = base.len() as int;
    assert(n.len() == b + 5);
    assert(n[b] == '.');
    assert(n != ".."@);
    assert(forall|j: int| b < j < n.len() ==> n[j] != '.');
    let k = choose|k: int|
        0 < k < n.len() && n[k] == '.' && forall|j: int| k < j < n.len() ==> n[j] != '.';
    assert(exists|k: int| 0 < k < n.len() && n[k] == '.' && forall|j: int| k < j < n.len() ==> n[j] != '.') by {
        assert(0 < b < n.len() && n[b] == '.');
    }
    assert(k == b) by {
        if k < b {
            assert(n[b] != '.');
        } else if k > b {
            assert(n[k] == ".rkyv"@[k - b]);
        }
    }
    assert(n.take(b) =~= base);
    assert(file_stem_text(n) == base);
    assert(n.subrange(n.len() - 5, n.len() as int) =~= ".rkyv"@);
    assert(n.subrange(0, n.len() - 5) =~= base);
    if n.len() >= 14 {
        assert(n.subrange(n.len() - 14, n.len() as int) != ".graphics.rkyv"@) by {
            if n.subrange(n.len() - 14, n.len() as int) == ".graphics.rkyv"@ {
                assert(base.subrange(b - 9, b) =~= ".graphics"@) by {
                    assert forall|j: int| 0 <= j < 9 implies base.subrange(b - 9, b)[j] == ".graphics"@[j] by {
                        assert(n.subrange(n.len() - 14, n.len() as int)[j] == ".graphics.rkyv"@[j]);
                    }
                }
            }
        }
    }
    assert(g.len() == b + 14);
    assert(g.subrange(g.len() - 14, g.len() as int) =~= ".graphics.rkyv"@);
    assert(g.subrange(0, g.len() - 14) =~= base);
}

} // verus!
