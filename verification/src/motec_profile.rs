//! MoTeC channel profiles: the channel sources a profile can name, the checks applied to
//! a profile read from TOML, and the choice of the channels that go into a `.ld` file.

use vstd::prelude::*;
use crate::motec_ld::{encode_ld, ld_file, ld_fits, ld_views, LdChannel, LdChannelView};
use crate::text::{str_eq, trim, trimmed};
use crate::calendar::max_day_count;

verus! {

/// The telemetry value a MoTeC channel is filled from.
#[derive(Debug, Clone, Copy, PartialEq, Eq, Structural)]
pub enum ChannelSource {
    Time,
    SpeedKmh,
    Rpm,
    Gas,
    Brake,
    SteerAngle,
    Gear,
    GForceX,
    GForceY,
    GForceTotal,
    EngineRotation,
    GearOk,
    BrakeStatus,
    SuspensionTravelFl,
    SuspensionTravelFr,
    SuspensionTravelRl,
    SuspensionTravelRr,
    SuspensionTravelMmFl,
    SuspensionTravelMmFr,
    SuspensionTravelMmRl,
    SuspensionTravelMmRr,
    CarPosX,
    CarPosY,
    CarPosZ,
    TyreContactXFl,
    TyreContactYFl,
    TyreContactZFl,
    TyreContactXFr,
    TyreContactYFr,
    TyreContactZFr,
    TyreContactXRl,
    TyreContactYRl,
    TyreContactZRl,
    TyreContactXRr,
    TyreContactYRr,
    TyreContactZRr,
    TyreTempCFl,
    TyreTempCFr,
    TyreTempCRl,
    TyreTempCRr,
    WheelPressureBarFl,
    WheelPressureBarFr,
    WheelPressureBarRl,
    WheelPressureBarRr,
    BrakeTempCFl,
    BrakeTempCFr,
    BrakeTempCRl,
    BrakeTempCRr,
    TyreWearPctFl,
    TyreWearPctFr,
    TyreWearPctRl,
    TyreWearPctRr,
    WheelSpeedKmhFl,
    WheelSpeedKmhFr,
    WheelSpeedKmhRl,
    WheelSpeedKmhRr,
    WheelSpeedKmhFront,
    WheelSpeedKmhRear,
    WheelSlipMax,
    GraphicsPosX,
    GraphicsPosY,
    GraphicsPosZ,
    Clutch,
    Fuel,
    Tc,
    Abs,
    TurboBoost,
    AirTemp,
    RoadTemp,
    WaterTemp,
    Heading,
    Pitch,
    Roll,
    BrakePressureFl,
    BrakePressureFr,
    BrakePressureRl,
    BrakePressureRr,
    SlipAngleFl,
    SlipAngleFr,
    SlipAngleRl,
    SlipAngleRr,
    RideHeightFront,
    RideHeightRear,
    CarDamageFront,
    CarDamageRear,
    CarDamageLeft,
    CarDamageRight,
    CarDamageCenter,
    WheelLoadFl,
    WheelLoadFr,
    WheelLoadRl,
    WheelLoadRr,
    WheelSlipFl,
    WheelSlipFr,
    WheelSlipRl,
    WheelSlipRr,
    CamberRadFl,
    CamberRadFr,
    CamberRadRl,
    CamberRadRr,
    SuspensionDamageFl,
    SuspensionDamageFr,
    SuspensionDamageRl,
    SuspensionDamageRr,
    SlipRatioFl,
    SlipRatioFr,
    SlipRatioRl,
    SlipRatioRr,
    PadLifeFl,
    PadLifeFr,
    PadLifeRl,
    PadLifeRr,
    DiscLifeFl,
    DiscLifeFr,
    DiscLifeRl,
    DiscLifeRr,
    FrontBrakeCompound,
    RearBrakeCompound,
    TyreDirtyLevelFl,
    TyreDirtyLevelFr,
    TyreDirtyLevelRl,
    TyreDirtyLevelRr,
    TyreTempIFl,
    TyreTempIFr,
    TyreTempIRl,
    TyreTempIRr,
    TyreTempMFl,
    TyreTempMFr,
    TyreTempMRl,
    TyreTempMRr,
    TyreTempOFl,
    TyreTempOFr,
    TyreTempORl,
    TyreTempORr,
    TyreTempExtraFl,
    TyreTempExtraFr,
    TyreTempExtraRl,
    TyreTempExtraRr,
    TyreContactNormalXFl,
    TyreContactNormalYFl,
    TyreContactNormalZFl,
    TyreContactNormalXFr,
    TyreContactNormalYFr,
    TyreContactNormalZFr,
    TyreContactNormalXRl,
    TyreContactNormalYRl,
    TyreContactNormalZRl,
    TyreContactNormalXRr,
    TyreContactNormalYRr,
    TyreContactNormalZRr,
    TyreContactHeadingXFl,
    TyreContactHeadingYFl,
    TyreContactHeadingZFl,
    TyreContactHeadingXFr,
    TyreContactHeadingYFr,
    TyreContactHeadingZFr,
    TyreContactHeadingXRl,
    TyreContactHeadingYRl,
    TyreContactHeadingZRl,
    TyreContactHeadingXRr,
    TyreContactHeadingYRr,
    TyreContactHeadingZRr,
    VelocityX,
    VelocityY,
    VelocityZ,
    LocalVelocityX,
    LocalVelocityY,
    LocalVelocityZ,
    LocalAngularVelX,
    LocalAngularVelY,
    LocalAngularVelZ,
    FinalFf,
    BrakeBias,
    TcInAction,
    AbsInAction,
    PitLimiterOn,
    IsAiControlled,
    Drs,
    CgHeight,
    NumberOfTyresOut,
    KersCharge,
    KersInput,
    KersCurrentKj,
    Ballast,
    AirDensity,
    PerformanceMeter,
    EngineBrake,
    ErsRecoveryLevel,
    ErsPowerLevel,
    ErsHeatCharging,
    ErsIsCharging,
    DrsAvailable,
    DrsEnabled,
    P2pActivation,
    P2pStatus,
    CurrentMaxRpm,
    MzFl,
    MzFr,
    MzRl,
    MzRr,
    FzFl,
    FzFr,
    FzRl,
    FzRr,
    MyFl,
    MyFr,
    MyRl,
    MyRr,
    KerbVibration,
    SlipVibration,
    GVibration,
    AbsVibration,
    AutoshifterOn,
    IgnitionOn,
    StarterEngineOn,
    IsEngineRunning,
    PacketId,
}

/// The name under which a profile refers to a channel source.
pub open spec fn channel_source_name(v: ChannelSource) -> Seq<char> {
    match v {
        ChannelSource::Time => "time"@,
        ChannelSource::SpeedKmh => "speed_kmh"@,
        ChannelSource::Rpm => "rpm"@,
        ChannelSource::Gas => "gas"@,
        ChannelSource::Brake => "brake"@,
        ChannelSource::SteerAngle => "steer_angle"@,
        ChannelSource::Gear => "gear"@,
        ChannelSource::GForceX => "g_force_x"@,
        ChannelSource::GForceY => "g_force_y"@,
        ChannelSource::GForceTotal => "g_force_total"@,
        ChannelSource::EngineRotation => "engine_rotation"@,
        ChannelSource::GearOk => "gear_ok"@,
        ChannelSource::BrakeStatus => "brake_status"@,
        ChannelSource::SuspensionTravelFl => "suspension_travel_fl"@,
        ChannelSource::SuspensionTravelFr => "suspension_travel_fr"@,
        ChannelSource::SuspensionTravelRl => "suspension_travel_rl"@,
        ChannelSource::SuspensionTravelRr => "suspension_travel_rr"@,
        ChannelSource::SuspensionTravelMmFl => "suspension_travel_mm_fl"@,
        ChannelSource::SuspensionTravelMmFr => "suspension_travel_mm_fr"@,
        ChannelSource::SuspensionTravelMmRl => "suspension_travel_mm_rl"@,
        ChannelSource::SuspensionTravelMmRr => "suspension_travel_mm_rr"@,
        ChannelSource::CarPosX => "car_pos_x"@,
        ChannelSource::CarPosY => "car_pos_y"@,
        ChannelSource::CarPosZ => "car_pos_z"@,
        ChannelSource::TyreContactXFl => "tyre_contact_x_fl"@,
        ChannelSource::TyreContactYFl => "tyre_contact_y_fl"@,
        ChannelSource::TyreContactZFl => "tyre_contact_z_fl"@,
        ChannelSource::TyreContactXFr => "tyre_contact_x_fr"@,
        ChannelSource::TyreContactYFr => "tyre_contact_y_fr"@,
        ChannelSource::TyreContactZFr => "tyre_contact_z_fr"@,
        ChannelSource::TyreContactXRl => "tyre_contact_x_rl"@,
        ChannelSource::TyreContactYRl => "tyre_contact_y_rl"@,
        ChannelSource::TyreContactZRl => "tyre_contact_z_rl"@,
        ChannelSource::TyreContactXRr => "tyre_contact_x_rr"@,
        ChannelSource::TyreContactYRr => "tyre_contact_y_rr"@,
        ChannelSource::TyreContactZRr => "tyre_contact_z_rr"@,
        ChannelSource::TyreTempCFl => "tyre_temp_c_fl"@,
        ChannelSource::TyreTempCFr => "tyre_temp_c_fr"@,
        ChannelSource::TyreTempCRl => "tyre_temp_c_rl"@,
        ChannelSource::TyreTempCRr => "tyre_temp_c_rr"@,
        ChannelSource::WheelPressureBarFl => "wheel_pressure_bar_fl"@,
        ChannelSource::WheelPressureBarFr => "wheel_pressure_bar_fr"@,
        ChannelSource::WheelPressureBarRl => "wheel_pressure_bar_rl"@,
        ChannelSource::WheelPressureBarRr => "wheel_pressure_bar_rr"@,
        ChannelSource::BrakeTempCFl => "brake_temp_c_fl"@,
        ChannelSource::BrakeTempCFr => "brake_temp_c_fr"@,
        ChannelSource::BrakeTempCRl => "brake_temp_c_rl"@,
        ChannelSource::BrakeTempCRr => "brake_temp_c_rr"@,
        ChannelSource::TyreWearPctFl => "tyre_wear_pct_fl"@,
        ChannelSource::TyreWearPctFr => "tyre_wear_pct_fr"@,
        ChannelSource::TyreWearPctRl => "tyre_wear_pct_rl"@,
        ChannelSource::TyreWearPctRr => "tyre_wear_pct_rr"@,
        ChannelSource::WheelSpeedKmhFl => "wheel_speed_kmh_fl"@,
        ChannelSource::WheelSpeedKmhFr => "wheel_speed_kmh_fr"@,
        ChannelSource::WheelSpeedKmhRl => "wheel_speed_kmh_rl"@,
        ChannelSource::WheelSpeedKmhRr => "wheel_speed_kmh_rr"@,
        ChannelSource::WheelSpeedKmhFront => "wheel_speed_kmh_front"@,
        ChannelSource::WheelSpeedKmhRear => "wheel_speed_kmh_rear"@,
        ChannelSource::WheelSlipMax => "wheel_slip_max"@,
        ChannelSource::GraphicsPosX => "graphics_pos_x"@,
        ChannelSource::GraphicsPosY => "graphics_pos_y"@,
        ChannelSource::GraphicsPosZ => "graphics_pos_z"@,
        ChannelSource::Clutch => "clutch"@,
        ChannelSource::Fuel => "fuel"@,
        ChannelSource::Tc => "tc"@,
        ChannelSource::Abs => "abs"@,
        ChannelSource::TurboBoost => "turbo_boost"@,
        ChannelSource::AirTemp => "air_temp"@,
        ChannelSource::RoadTemp => "road_temp"@,
        ChannelSource::WaterTemp => "water_temp"@,
        ChannelSource::Heading => "heading"@,
        ChannelSource::Pitch => "pitch"@,
        ChannelSource::Roll => "roll"@,
        ChannelSource::BrakePressureFl => "brake_pressure_fl"@,
        ChannelSource::BrakePressureFr => "brake_pressure_fr"@,
        ChannelSource::BrakePressureRl => "brake_pressure_rl"@,
        ChannelSource::BrakePressureRr => "brake_pressure_rr"@,
        ChannelSource::SlipAngleFl => "slip_angle_fl"@,
        ChannelSource::SlipAngleFr => "slip_angle_fr"@,
        ChannelSource::SlipAngleRl => "slip_angle_rl"@,
        ChannelSource::SlipAngleRr => "slip_angle_rr"@,
        ChannelSource::RideHeightFront => "ride_height_front"@,
        ChannelSource::RideHeightRear => "ride_height_rear"@,
        ChannelSource::CarDamageFront => "car_damage_front"@,
        ChannelSource::CarDamageRear => "car_damage_rear"@,
        ChannelSource::CarDamageLeft => "car_damage_left"@,
        ChannelSource::CarDamageRight => "car_damage_right"@,
        ChannelSource::CarDamageCenter => "car_damage_center"@,
        ChannelSource::WheelLoadFl => "wheel_load_fl"@,
        ChannelSource::WheelLoadFr => "wheel_load_fr"@,
        ChannelSource::WheelLoadRl => "wheel_load_rl"@,
        ChannelSource::WheelLoadRr => "wheel_load_rr"@,
        ChannelSource::WheelSlipFl => "wheel_slip_fl"@,
        ChannelSource::WheelSlipFr => "wheel_slip_fr"@,
        ChannelSource::WheelSlipRl => "wheel_slip_rl"@,
        ChannelSource::WheelSlipRr => "wheel_slip_rr"@,
        ChannelSource::CamberRadFl => "camber_rad_fl"@,
        ChannelSource::CamberRadFr => "camber_rad_fr"@,
        ChannelSource::CamberRadRl => "camber_rad_rl"@,
        ChannelSource::CamberRadRr => "camber_rad_rr"@,
        ChannelSource::SuspensionDamageFl => "suspension_damage_fl"@,
        ChannelSource::SuspensionDamageFr => "suspension_damage_fr"@,
        ChannelSource::SuspensionDamageRl => "suspension_damage_rl"@,
        ChannelSource::SuspensionDamageRr => "suspension_damage_rr"@,
        ChannelSource::SlipRatioFl => "slip_ratio_fl"@,
        ChannelSource::SlipRatioFr => "slip_ratio_fr"@,
        ChannelSource::SlipRatioRl => "slip_ratio_rl"@,
        ChannelSource::SlipRatioRr => "slip_ratio_rr"@,
        ChannelSource::PadLifeFl => "pad_life_fl"@,
        ChannelSource::PadLifeFr => "pad_life_fr"@,
        ChannelSource::PadLifeRl => "pad_life_rl"@,
        ChannelSource::PadLifeRr => "pad_life_rr"@,
        ChannelSource::DiscLifeFl => "disc_life_fl"@,
        ChannelSource::DiscLifeFr => "disc_life_fr"@,
        ChannelSource::DiscLifeRl => "disc_life_rl"@,
        ChannelSource::DiscLifeRr => "disc_life_rr"@,
        ChannelSource::FrontBrakeCompound => "front_brake_compound"@,
        ChannelSource::RearBrakeCompound => "rear_brake_compound"@,
        ChannelSource::TyreDirtyLevelFl => "tyre_dirty_level_fl"@,
        ChannelSource::TyreDirtyLevelFr => "tyre_dirty_level_fr"@,
        ChannelSource::TyreDirtyLevelRl => "tyre_dirty_level_rl"@,
        ChannelSource::TyreDirtyLevelRr => "tyre_dirty_level_rr"@,
        ChannelSource::TyreTempIFl => "tyre_temp_i_fl"@,
        ChannelSource::TyreTempIFr => "tyre_temp_i_fr"@,
        ChannelSource::TyreTempIRl => "tyre_temp_i_rl"@,
        ChannelSource::TyreTempIRr => "tyre_temp_i_rr"@,
        ChannelSource::TyreTempMFl => "tyre_temp_m_fl"@,
        ChannelSource::TyreTempMFr => "tyre_temp_m_fr"@,
        ChannelSource::TyreTempMRl => "tyre_temp_m_rl"@,
        ChannelSource::TyreTempMRr => "tyre_temp_m_rr"@,
        ChannelSource::TyreTempOFl => "tyre_temp_o_fl"@,
        ChannelSource::TyreTempOFr => "tyre_temp_o_fr"@,
        ChannelSource::TyreTempORl => "tyre_temp_o_rl"@,
        ChannelSource::TyreTempORr => "tyre_temp_o_rr"@,
        ChannelSource::TyreTempExtraFl => "tyre_temp_extra_fl"@,
        ChannelSource::TyreTempExtraFr => "tyre_temp_extra_fr"@,
        ChannelSource::TyreTempExtraRl => "tyre_temp_extra_rl"@,
        ChannelSource::TyreTempExtraRr => "tyre_temp_extra_rr"@,
        ChannelSource::TyreContactNormalXFl => "tyre_contact_normal_x_fl"@,
        ChannelSource::TyreContactNormalYFl => "tyre_contact_normal_y_fl"@,
        ChannelSource::TyreContactNormalZFl => "tyre_contact_normal_z_fl"@,
        ChannelSource::TyreContactNormalXFr => "tyre_contact_normal_x_fr"@,
        ChannelSource::TyreContactNormalYFr => "tyre_contact_normal_y_fr"@,
        ChannelSource::TyreContactNormalZFr => "tyre_contact_normal_z_fr"@,
        ChannelSource::TyreContactNormalXRl => "tyre_contact_normal_x_rl"@,
        ChannelSource::TyreContactNormalYRl => "tyre_contact_normal_y_rl"@,
        ChannelSource::TyreContactNormalZRl => "tyre_contact_normal_z_rl"@,
        ChannelSource::TyreContactNormalXRr => "tyre_contact_normal_x_rr"@,
        ChannelSource::TyreContactNormalYRr => "tyre_contact_normal_y_rr"@,
        ChannelSource::TyreContactNormalZRr => "tyre_contact_normal_z_rr"@,
        ChannelSource::TyreContactHeadingXFl => "tyre_contact_heading_x_fl"@,
        ChannelSource::TyreContactHeadingYFl => "tyre_contact_heading_y_fl"@,
        ChannelSource::TyreContactHeadingZFl => "tyre_contact_heading_z_fl"@,
        ChannelSource::TyreContactHeadingXFr => "tyre_contact_heading_x_fr"@,
        ChannelSource::TyreContactHeadingYFr => "tyre_contact_heading_y_fr"@,
        ChannelSource::TyreContactHeadingZFr => "tyre_contact_heading_z_fr"@,
        ChannelSource::TyreContactHeadingXRl => "tyre_contact_heading_x_rl"@,
        ChannelSource::TyreContactHeadingYRl => "tyre_contact_heading_y_rl"@,
        ChannelSource::TyreContactHeadingZRl => "tyre_contact_heading_z_rl"@,
        ChannelSource::TyreContactHeadingXRr => "tyre_contact_heading_x_rr"@,
        ChannelSource::TyreContactHeadingYRr => "tyre_contact_heading_y_rr"@,
        ChannelSource::TyreContactHeadingZRr => "tyre_contact_heading_z_rr"@,
        ChannelSource::VelocityX => "velocity_x"@,
        ChannelSource::VelocityY => "velocity_y"@,
        ChannelSource::VelocityZ => "velocity_z"@,
        ChannelSource::LocalVelocityX => "local_velocity_x"@,
        ChannelSource::LocalVelocityY => "local_velocity_y"@,
        ChannelSource::LocalVelocityZ => "local_velocity_z"@,
        ChannelSource::LocalAngularVelX => "local_angular_vel_x"@,
        ChannelSource::LocalAngularVelY => "local_angular_vel_y"@,
        ChannelSource::LocalAngularVelZ => "local_angular_vel_z"@,
        ChannelSource::FinalFf => "final_ff"@,
        ChannelSource::BrakeBias => "brake_bias"@,
        ChannelSource::TcInAction => "tc_in_action"@,
        ChannelSource::AbsInAction => "abs_in_action"@,
        ChannelSource::PitLimiterOn => "pit_limiter_on"@,
        ChannelSource::IsAiControlled => "is_ai_controlled"@,
        ChannelSource::Drs => "drs"@,
        ChannelSource::CgHeight => "cg_height"@,
        ChannelSource::NumberOfTyresOut => "number_of_tyres_out"@,
        ChannelSource::KersCharge => "kers_charge"@,
        ChannelSource::KersInput => "kers_input"@,
        ChannelSource::KersCurrentKj => "kers_current_kj"@,
        ChannelSource::Ballast => "ballast"@,
        ChannelSource::AirDensity => "air_density"@,
        ChannelSource::PerformanceMeter => "performance_meter"@,
        ChannelSource::EngineBrake => "engine_brake"@,
        ChannelSource::ErsRecoveryLevel => "ers_recovery_level"@,
        ChannelSource::ErsPowerLevel => "ers_power_level"@,
        ChannelSource::ErsHeatCharging => "ers_heat_charging"@,
        ChannelSource::ErsIsCharging => "ers_is_charging"@,
        ChannelSource::DrsAvailable => "drs_available"@,
        ChannelSource::DrsEnabled => "drs_enabled"@,
        ChannelSource::P2pActivation => "p2p_activation"@,
        ChannelSource::P2pStatus => "p2p_status"@,
        ChannelSource::CurrentMaxRpm => "current_max_rpm"@,
        ChannelSource::MzFl => "mz_fl"@,
        ChannelSource::MzFr => "mz_fr"@,
        ChannelSource::MzRl => "mz_rl"@,
        ChannelSource::MzRr => "mz_rr"@,
        ChannelSource::FzFl => "fz_fl"@,
        ChannelSource::FzFr => "fz_fr"@,
        ChannelSource::FzRl => "fz_rl"@,
        ChannelSource::FzRr => "fz_rr"@,
        ChannelSource::MyFl => "my_fl"@,
        ChannelSource::MyFr => "my_fr"@,
        ChannelSource::MyRl => "my_rl"@,
        ChannelSource::MyRr => "my_rr"@,
        ChannelSource::KerbVibration => "kerb_vibration"@,
        ChannelSource::SlipVibration => "slip_vibration"@,
        ChannelSource::GVibration => "g_vibration"@,
        ChannelSource::AbsVibration => "abs_vibration"@,
        ChannelSource::AutoshifterOn => "autoshifter_on"@,
        ChannelSource::IgnitionOn => "ignition_on"@,
        ChannelSource::StarterEngineOn => "starter_engine_on"@,
        ChannelSource::IsEngineRunning => "is_engine_running"@,
        ChannelSource::PacketId => "packet_id"@,
    }
}

/// The channel source whose name is `s`, found by the length of `s` and then by the
/// characters that tell the names of that length apart.
spec fn source_named(s: Seq<char>) -> Option<ChannelSource> {
    if s.len() == 2 {
        if s == "tc"@ {
            Some(ChannelSource::Tc)
        } else {
            None
        }
    } else if s.len() == 3 {
        if s[0] == 'r' {
            if s == "rpm"@ {
                Some(ChannelSource::Rpm)
            } else {
                None
            }
        } else if s[0] == 'g' {
            if s == "gas"@ {
                Some(ChannelSource::Gas)
            } else {
                None
            }
        } else if s[0] == 'a' {
            if s == "abs"@ {
                Some(ChannelSource::Abs)
            } else {
                None
            }
        } else if s[0] == 'd' {
            if s == "drs"@ {
                Some(ChannelSource::Drs)
            } else {
                None
            }
        } else {
            None
        }
    } else if s.len() == 4 {
        if s[0] == 't' {
            if s == "time"@ {
                Some(ChannelSource::Time)
            } else {
                None
            }
        } else if s[0] == 'g' {
            if s == "gear"@ {
                Some(ChannelSource::Gear)
            } else {
                None
            }
        } else if s[0] == 'f' {
            if s == "fuel"@ {
                Some(ChannelSource::Fuel)
            } else {
                None
            }
        } else if s[0] == 'r' {
            if s == "roll"@ {
                Some(ChannelSource::Roll)
            } else {
                None
            }
        } else {
            None
        }
    } else if s.len() == 5 {
        if s[0] == 'b' {
            if s == "brake"@ {
                Some(ChannelSource::Brake)
            } else {
                None
            }
        } else if s[0] == 'p' {
            if s == "pitch"@ {
                Some(ChannelSource::Pitch)
            } else {
                None
            }
        } else if s[0] == 'm' {
            if s[1] == 'z' {
                if s[3] == 'f' {
                    if s[4] == 'l' {
                        if s == "mz_fl"@ {
                            Some(ChannelSource::MzFl)
                        } else {
                            None
                        }
                    } else if s[4] == 'r' {
                        if s == "mz_fr"@ {
                            Some(ChannelSource::MzFr)
                        } else {
                            None
                        }
                    } else {
                        None
                    }
                } else if s[3] == 'r' {
                    if s[4] == 'l' {
                        if s == "mz_rl"@ {
                            Some(ChannelSource::MzRl)
                        } else {
                            None
                        }
                    } else if s[4] == 'r' {
                        if s == "mz_rr"@ {
                            Some(ChannelSource::MzRr)
                        } else {
                            None
                        }
                    } else {
                        None
                    }
                } else {
                    None
                }
            } else if s[1] == 'y' {
                if s[3] == 'f' {
                    if s[4] == 'l' {
                        if s == "my_fl"@ {
                            Some(ChannelSource::MyFl)
                        } else {
                            None
                        }
                    } else if s[4] == 'r' {
                        if s == "my_fr"@ {
                            Some(ChannelSource::MyFr)
                        } else {
                            None
                        }
                    } else {
                        None
                    }
                } else if s[3] == 'r' {
                    if s[4] == 'l' {
                        if s == "my_rl"@ {
                            Some(ChannelSource::MyRl)
                        } else {
                            None
                        }
                    } else if s[4] == 'r' {
                        if s == "my_rr"@ {
                            Some(ChannelSource::MyRr)
                        } else {
                            None
                        }
                    } else {
                        None
                    }
                } else {
                    None
                }
            } else {
                None
            }
        } else if s[0] == 'f' {
            if s[3] == 'f' {
                if s[4] == 'l' {
                    if s == "fz_fl"@ {
                        Some(ChannelSource::FzFl)
                    } else {
                        None
                    }
                } else if s[4] == 'r' {
                    if s == "fz_fr"@ {
                        Some(ChannelSource::FzFr)
                    } else {
                        None
                    }
                } else {
                    None
                }
            } else if s[3] == 'r' {
                if s[4] == 'l' {
                    if s == "fz_rl"@ {
                        Some(ChannelSource::FzRl)
                    } else {
                        None
                    }
                } else if s[4] == 'r' {
                    if s == "fz_rr"@ {
                        Some(ChannelSource::FzRr)
                    } else {
                        None
                    }
                } else {
                    None
                }
            } else {
                None
            }
        } else {
            None
        }
    } else if s.len() == 6 {
        if s == "clutch"@ {
            Some(ChannelSource::Clutch)
        } else {
            None
        }
    } else if s.len() == 7 {
        if s[0] == 'g' {
            if s == "gear_ok"@ {
                Some(ChannelSource::GearOk)
            } else {
                None
            }
        } else if s[0] == 'h' {
            if s == "heading"@ {
                Some(ChannelSource::Heading)
            } else {
                None
            }
        } else if s[0] == 'b' {
            if s == "ballast"@ {
                Some(ChannelSource::Ballast)
            } else {
                None
            }
        } else {
            None
        }
    } else if s.len() == 8 {
        if s[0] == 'a' {
            if s == "air_temp"@ {
                Some(ChannelSource::AirTemp)
            } else {
                None
            }
        } else if s[0] == 'f' {
            if s == "final_ff"@ {
                Some(ChannelSource::FinalFf)
            } else {
                None
            }
        } else {
            None
        }
    } else if s.len() == 9 {
        if s[8] == 'h' {
            if s == "speed_kmh"@ {
                Some(ChannelSource::SpeedKmh)
            } else {
                None
            }
        } else if s[8] == 'x' {
            if s[0] == 'g' {
                if s == "g_force_x"@ {
                    Some(ChannelSource::GForceX)
                } else {
                    None
                }
            } else if s[0] == 'c' {
                if s == "car_pos_x"@ {
                    Some(ChannelSource::CarPosX)
                } else {
                    None
                }
            } else {
                None
            }
        } else if s[8] == 'y' {
            if s[0] == 'g' {
                if s == "g_force_y"@ {
                    Some(ChannelSource::GForceY)
                } else {
                    None
                }
            } else if s[0] == 'c' {
                if s == "car_pos_y"@ {
                    Some(ChannelSource::CarPosY)
                } else {
                    None
                }
            } else {
                None
            }
        } else if s[8] == 'z' {
            if s == "car_pos_z"@ {
                Some(ChannelSource::CarPosZ)
            } else {
                None
            }
        } else if s[8] == 'p' {
            if s == "road_temp"@ {
                Some(ChannelSource::RoadTemp)
            } else {
                None
            }
        } else if s[8] == 't' {
            if s == "cg_height"@ {
                Some(ChannelSource::CgHeight)
            } else {
                None
            }
        } else if s[8] == 'd' {
            if s == "packet_id"@ {
                Some(ChannelSource::PacketId)
            } else {
                None
            }
        } else {
            None
        }
    } else if s.len() == 10 {
        if s[9] == 'p' {
            if s == "water_temp"@ {
                Some(ChannelSource::WaterTemp)
            } else {
                None
            }
        } else if s[9] == 'x' {
            if s == "velocity_x"@ {
                Some(ChannelSource::VelocityX)
            } else {
                None
            }
        } else if s[9] == 'y' {
            if s == "velocity_y"@ {
                Some(ChannelSource::VelocityY)
            } else {
                None
            }
        } else if s[9] == 'z' {
            if s == "velocity_z"@ {
                Some(ChannelSource::VelocityZ)
            } else {
                None
            }
        } else if s[9] == 's' {
            if s[0] == 'b' {
                if s == "brake_bias"@ {
                    Some(ChannelSource::BrakeBias)
                } else {
                    None
                }
            } else if s[0] == 'p' {
                if s == "p2p_status"@ {
                    Some(ChannelSource::P2pStatus)
                } else {
                    None
                }
            } else {
                None
            }
        } else if s[9] == 't' {
            if s == "kers_input"@ {
                Some(ChannelSource::KersInput)
            } else {
                None
            }
        } else {
            None
        }
    } else if s.len() == 11 {
        if s[0] == 's' {
            if s == "steer_angle"@ {
                Some(ChannelSource::SteerAngle)
            } else {
                None
            }
        } else if s[0] == 't' {
            if s == "turbo_boost"@ {
                Some(ChannelSource::TurboBoost)
            } else {
                None
            }
        } else if s[0] == 'p' {
            if s[9] == 'f' {
                if s[10] == 'l' {
                    if s == "pad_life_fl"@ {
                        Some(ChannelSource::PadLifeFl)
                    } else {
                        None
                    }
                } else if s[10] == 'r' {
                    if s == "pad_life_fr"@ {
                        Some(ChannelSource::PadLifeFr)
                    } else {
                        None
                    }
                } else {
                    None
                }
            } else if s[9] == 'r' {
                if s[10] == 'l' {
                    if s == "pad_life_rl"@ {
                        Some(ChannelSource::PadLifeRl)
                    } else {
                        None
                    }
                } else if s[10] == 'r' {
                    if s == "pad_life_rr"@ {
                        Some(ChannelSource::PadLifeRr)
                    } else {
                        None
                    }
                } else {
                    None
                }
            } else {
                None
            }
        } else if s[0] == 'k' {
            if s == "kers_charge"@ {
                Some(ChannelSource::KersCharge)
            } else {
                None
            }
        } else if s[0] == 'a' {
            if s == "air_density"@ {
                Some(ChannelSource::AirDensity)
            } else {
                None
            }
        } else if s[0] == 'd' {
            if s == "drs_enabled"@ {
                Some(ChannelSource::DrsEnabled)
            } else {
                None
            }
        } else if s[0] == 'g' {
            if s == "g_vibration"@ {
                Some(ChannelSource::GVibration)
            } else {
                None
            }
        } else if s[0] == 'i' {
            if s == "ignition_on"@ {
                Some(ChannelSource::IgnitionOn)
            } else {
                None
            }
        } else {
            None
        }
    } else if s.len() == 12 {
        if s[10] == 'u' {
            if s == "brake_status"@ {
                Some(ChannelSource::BrakeStatus)
            } else {
                None
            }
        } else if s[10] == 'f' {
            if s[11] == 'l' {
                if s == "disc_life_fl"@ {
                    Some(ChannelSource::DiscLifeFl)
                } else {
                    None
                }
            } else if s[11] == 'r' {
                if s == "disc_life_fr"@ {
                    Some(ChannelSource::DiscLifeFr)
                } else {
                    None
                }
            } else {
                None
            }
        } else if s[10] == 'r' {
            if s[11] == 'l' {
                if s == "disc_life_rl"@ {
                    Some(ChannelSource::DiscLifeRl)
                } else {
                    None
                }
            } else if s[11] == 'r' {
                if s == "disc_life_rr"@ {
                    Some(ChannelSource::DiscLifeRr)
                } else {
                    None
                }
            } else {
                None
            }
        } else if s[10] == 'o' {
            if s == "tc_in_action"@ {
                Some(ChannelSource::TcInAction)
            } else {
                None
            }
        } else if s[10] == 'k' {
            if s == "engine_brake"@ {
                Some(ChannelSource::EngineBrake)
            } else {
                None
            }
        } else {
            None
        }
    } else if s.len() == 13 {
        if s[7] == '_' {
            if s == "g_force_total"@ {
                Some(ChannelSource::GForceTotal)
            } else {
                None
            }
        } else if s[7] == 'g' {
            if s[11] == 'f' {
                if s[12] == 'l' {
                    if s == "slip_angle_fl"@ {
                        Some(ChannelSource::SlipAngleFl)
                    } else {
                        None
                    }
                } else if s[12] == 'r' {
                    if s == "slip_angle_fr"@ {
                        Some(ChannelSource::SlipAngleFr)
                    } else {
                        None
                    }
                } else {
                    None
                }
            } else if s[11] == 'r' {
                if s[12] == 'l' {
                    if s == "slip_angle_rl"@ {
                        Some(ChannelSource::SlipAngleRl)
                    } else {
                        None
                    }
                } else if s[12] == 'r' {
                    if s == "slip_angle_rr"@ {
                        Some(ChannelSource::SlipAngleRr)
                    } else {
                        None
                    }
                } else {
                    None
                }
            } else {
                None
            }
        } else if s[7] == 'o' {
            if s[11] == 'f' {
                if s[12] == 'l' {
                    if s == "wheel_load_fl"@ {
                        Some(ChannelSource::WheelLoadFl)
                    } else {
                        None
                    }
                } else if s[12] == 'r' {
                    if s == "wheel_load_fr"@ {
                        Some(ChannelSource::WheelLoadFr)
                    } else {
                        None
                    }
                } else {
                    None
                }
            } else if s[11] == 'r' {
                if s[12] == 'l' {
                    if s == "wheel_load_rl"@ {
                        Some(ChannelSource::WheelLoadRl)
                    } else {
                        None
                    }
                } else if s[12] == 'r' {
                    if s == "wheel_load_rr"@ {
                        Some(ChannelSource::WheelLoadRr)
                    } else {
                        None
                    }
                } else {
                    None
                }
            } else {
                None
            }
        } else if s[7] == 'l' {
            if s[11] == 'f' {
                if s[12] == 'l' {
                    if s == "wheel_slip_fl"@ {
                        Some(ChannelSource::WheelSlipFl)
                    } else {
                        None
                    }
                } else if s[12] == 'r' {
                    if s == "wheel_slip_fr"@ {
                        Some(ChannelSource::WheelSlipFr)
                    } else {
                        None
                    }
                } else {
                    None
                }
            } else if s[11] == 'r' {
                if s[12] == 'l' {
                    if s == "wheel_slip_rl"@ {
                        Some(ChannelSource::WheelSlipRl)
                    } else {
                        None
                    }
                } else if s[12] == 'r' {
                    if s == "wheel_slip_rr"@ {
                        Some(ChannelSource::WheelSlipRr)
                    } else {
                        None
                    }
                } else {
                    None
                }
            } else {
                None
            }
        } else if s[7] == 'r' {
            if s[11] == 'f' {
                if s[12] == 'l' {
                    if s == "camber_rad_fl"@ {
                        Some(ChannelSource::CamberRadFl)
                    } else {
                        None
                    }
                } else if s[12] == 'r' {
                    if s == "camber_rad_fr"@ {
                        Some(ChannelSource::CamberRadFr)
                    } else {
                        None
                    }
                } else {
                    None
                }
            } else if s[11] == 'r' {
                if s[12] == 'l' {
                    if s == "camber_rad_rl"@ {
                        Some(ChannelSource::CamberRadRl)
                    } else {
                        None
                    }
                } else if s[12] == 'r' {
                    if s == "camber_rad_rr"@ {
                        Some(ChannelSource::CamberRadRr)
                    } else {
                        None
                    }
                } else {
                    None
                }
            } else if s[11] == 'o' {
                if s == "abs_vibration"@ {
                    Some(ChannelSource::AbsVibration)
                } else {
                    None
                }
            } else {
                None
            }
        } else if s[7] == 't' {
            if s[11] == 'f' {
                if s[12] == 'l' {
                    if s == "slip_ratio_fl"@ {
                        Some(ChannelSource::SlipRatioFl)
                    } else {
                        None
                    }
                } else if s[12] == 'r' {
                    if s == "slip_ratio_fr"@ {
                        Some(ChannelSource::SlipRatioFr)
                    } else {
                        None
                    }
                } else {
                    None
                }
            } else if s[11] == 'r' {
                if s[12] == 'l' {
                    if s == "slip_ratio_rl"@ {
                        Some(ChannelSource::SlipRatioRl)
                    } else {
                        None
                    }
                } else if s[12] == 'r' {
                    if s == "slip_ratio_rr"@ {
                        Some(ChannelSource::SlipRatioRr)
                    } else {
                        None
                    }
                } else {
                    None
                }
            } else {
                None
            }
        } else if s[7] == 'a' {
            if s == "abs_in_action"@ {
                Some(ChannelSource::AbsInAction)
            } else {
                None
            }
        } else if s[7] == 'i' {
            if s == "drs_available"@ {
                Some(ChannelSource::DrsAvailable)
            } else {
                None
            }
        } else {
            None
        }
    } else if s.len() == 14 {
        if s[1] == 'y' {
            if s[10] == 'c' {
                if s[12] == 'f' {
                    if s[13] == 'l' {
                        if s == "tyre_temp_c_fl"@ {
                            Some(ChannelSource::TyreTempCFl)
                        } else {
                            None
                        }
                    } else if s[13] == 'r' {
                        if s == "tyre_temp_c_fr"@ {
                            Some(ChannelSource::TyreTempCFr)
                        } else {
                            None
                        }
                    } else {
                        None
                    }
                } else if s[12] == 'r' {
                    if s[13] == 'l' {
                        if s == "tyre_temp_c_rl"@ {
                            Some(ChannelSource::TyreTempCRl)
                        } else {
                            None
                        }
                    } else if s[13] == 'r' {
                        if s == "tyre_temp_c_rr"@ {
                            Some(ChannelSource::TyreTempCRr)
                        } else {
                            None
                        }
                    } else {
                        None
                    }
                } else {
                    None
                }
            } else if s[10] == 'i' {
                if s[12] == 'f' {
                    if s[13] == 'l' {
                        if s == "tyre_temp_i_fl"@ {
                            Some(ChannelSource::TyreTempIFl)
                        } else {
                            None
                        }
                    } else if s[13] == 'r' {
                        if s == "tyre_temp_i_fr"@ {
                            Some(ChannelSource::TyreTempIFr)
                        } else {
                            None
                        }
                    } else {
                        None
                    }
                } else if s[12] == 'r' {
                    if s[13] == 'l' {
                        if s == "tyre_temp_i_rl"@ {
                            Some(ChannelSource::TyreTempIRl)
                        } else {
                            None
                        }
                    } else if s[13] == 'r' {
                        if s == "tyre_temp_i_rr"@ {
                            Some(ChannelSource::TyreTempIRr)
                        } else {
                            None
                        }
                    } else {
                        None
                    }
                } else {
                    None
                }
            } else if s[10] == 'm' {
                if s[12] == 'f' {
                    if s[13] == 'l' {
                        if s == "tyre_temp_m_fl"@ {
                            Some(ChannelSource::TyreTempMFl)
                        } else {
                            None
                        }
                    } else if s[13] == 'r' {
                        if s == "tyre_temp_m_fr"@ {
                            Some(ChannelSource::TyreTempMFr)
                        } else {
                            None
                        }
                    } else {
                        None
                    }
                } else if s[12] == 'r' {
                    if s[13] == 'l' {
                        if s == "tyre_temp_m_rl"@ {
                            Some(ChannelSource::TyreTempMRl)
                        } else {
                            None
                        }
                    } else if s[13] == 'r' {
                        if s == "tyre_temp_m_rr"@ {
                            Some(ChannelSource::TyreTempMRr)
                        } else {
                            None
                        }
                    } else {
                        None
                    }
                } else {
                    None
                }
            } else if s[10] == 'o' {
                if s[12] == 'f' {
                    if s[13] == 'l' {
                        if s == "tyre_temp_o_fl"@ {
                            Some(ChannelSource::TyreTempOFl)
                        } else {
                            None
                        }
                    } else if s[13] == 'r' {
                        if s == "tyre_temp_o_fr"@ {
                            Some(ChannelSource::TyreTempOFr)
                        } else {
                            None
                        }
                    } else {
                        None
                    }
                } else if s[12] == 'r' {
                    if s[13] == 'l' {
                        if s == "tyre_temp_o_rl"@ {
                            Some(ChannelSource::TyreTempORl)
                        } else {
                            None
                        }
                    } else if s[13] == 'r' {
                        if s == "tyre_temp_o_rr"@ {
                            Some(ChannelSource::TyreTempORr)
                        } else {
                            None
                        }
                    } else {
                        None
                    }
                } else {
                    None
                }
            } else {
                None
            }
        } else if s[1] == 'h' {
            if s == "wheel_slip_max"@ {
                Some(ChannelSource::WheelSlipMax)
            } else {
                None
            }
        } else if s[1] == 'r' {
            if s[13] == 'x' {
                if s == "graphics_pos_x"@ {
                    Some(ChannelSource::GraphicsPosX)
                } else {
                    None
                }
            } else if s[13] == 'y' {
                if s == "graphics_pos_y"@ {
                    Some(ChannelSource::GraphicsPosY)
                } else {
                    None
                }
            } else if s[13] == 'z' {
                if s == "graphics_pos_z"@ {
                    Some(ChannelSource::GraphicsPosZ)
                } else {
                    None
                }
            } else {
                None
            }
        } else if s[1] == 'i' {
            if s == "pit_limiter_on"@ {
                Some(ChannelSource::PitLimiterOn)
            } else {
                None
            }
        } else if s[1] == '2' {
            if s == "p2p_activation"@ {
                Some(ChannelSource::P2pActivation)
            } else {
                None
            }
        } else if s[1] == 'e' {
            if s == "kerb_vibration"@ {
                Some(ChannelSource::KerbVibration)
            } else {
                None
            }
        } else if s[1] == 'l' {
            if s == "slip_vibration"@ {
                Some(ChannelSource::SlipVibration)
            } else {
                None
            }
        } else if s[1] == 'u' {
            if s == "autoshifter_on"@ {
                Some(ChannelSource::AutoshifterOn)
            } else {
                None
            }
        } else {
            None
        }
    } else if s.len() == 15 {
        if s[13] == 'o' {
            if s == "engine_rotation"@ {
                Some(ChannelSource::EngineRotation)
            } else {
                None
            }
        } else if s[13] == 'f' {
            if s[14] == 'l' {
                if s == "brake_temp_c_fl"@ {
                    Some(ChannelSource::BrakeTempCFl)
                } else {
                    None
                }
            } else if s[14] == 'r' {
                if s == "brake_temp_c_fr"@ {
                    Some(ChannelSource::BrakeTempCFr)
                } else {
                    None
                }
            } else if s[14] == 't' {
                if s == "car_damage_left"@ {
                    Some(ChannelSource::CarDamageLeft)
                } else {
                    None
                }
            } else {
                None
            }
        } else if s[13] == 'r' {
            if s[14] == 'l' {
                if s == "brake_temp_c_rl"@ {
                    Some(ChannelSource::BrakeTempCRl)
                } else {
                    None
                }
            } else if s[14] == 'r' {
                if s == "brake_temp_c_rr"@ {
                    Some(ChannelSource::BrakeTempCRr)
                } else {
                    None
                }
            } else {
                None
            }
        } else if s[13] == 'a' {
            if s == "car_damage_rear"@ {
                Some(ChannelSource::CarDamageRear)
            } else {
                None
            }
        } else if s[13] == 'k' {
            if s == "kers_current_kj"@ {
                Some(ChannelSource::KersCurrentKj)
            } else {
                None
            }
        } else if s[13] == 'e' {
            if s == "ers_power_level"@ {
                Some(ChannelSource::ErsPowerLevel)
            } else {
                None
            }
        } else if s[13] == 'n' {
            if s == "ers_is_charging"@ {
                Some(ChannelSource::ErsIsCharging)
            } else {
                None
            }
        } else if s[13] == 'p' {
            if s == "current_max_rpm"@ {
                Some(ChannelSource::CurrentMaxRpm)
            } else {
                None
            }
        } else {
            None
        }
    } else if s.len() == 16 {
        if s[14] == 'f' {
            if s[15] == 'l' {
                if s == "tyre_wear_pct_fl"@ {
                    Some(ChannelSource::TyreWearPctFl)
                } else {
                    None
                }
            } else if s[15] == 'r' {
                if s == "tyre_wear_pct_fr"@ {
                    Some(ChannelSource::TyreWearPctFr)
                } else {
                    None
                }
            } else {
                None
            }
        } else if s[14] == 'r' {
            if s[15] == 'l' {
                if s == "tyre_wear_pct_rl"@ {
                    Some(ChannelSource::TyreWearPctRl)
                } else {
                    None
                }
            } else if s[15] == 'r' {
                if s == "tyre_wear_pct_rr"@ {
                    Some(ChannelSource::TyreWearPctRr)
                } else {
                    None
                }
            } else {
                None
            }
        } else if s[14] == 'a' {
            if s == "ride_height_rear"@ {
                Some(ChannelSource::RideHeightRear)
            } else {
                None
            }
        } else if s[14] == 'n' {
            if s == "car_damage_front"@ {
                Some(ChannelSource::CarDamageFront)
            } else {
                None
            }
        } else if s[14] == 'h' {
            if s == "car_damage_right"@ {
                Some(ChannelSource::CarDamageRight)
            } else {
                None
            }
        } else if s[14] == '_' {
            if s[15] == 'x' {
                if s == "local_velocity_x"@ {
                    Some(ChannelSource::LocalVelocityX)
                } else {
                    None
                }
            } else if s[15] == 'y' {
                if s == "local_velocity_y"@ {
                    Some(ChannelSource::LocalVelocityY)
                } else {
                    None
                }
            } else if s[15] == 'z' {
                if s == "local_velocity_z"@ {
                    Some(ChannelSource::LocalVelocityZ)
                } else {
                    None
                }
            } else {
                None
            }
        } else if s[14] == 'e' {
            if s == "is_ai_controlled"@ {
                Some(ChannelSource::IsAiControlled)
            } else {
                None
            }
        } else {
            None
        }
    } else if s.len() == 17 {
        if s[0] == 't' {
            if s[13] == 'x' {
                if s[15] == 'f' {
                    if s[16] == 'l' {
                        if s == "tyre_contact_x_fl"@ {
                            Some(ChannelSource::TyreContactXFl)
                        } else {
                            None
                        }
                    } else if s[16] == 'r' {
                        if s == "tyre_contact_x_fr"@ {
                            Some(ChannelSource::TyreContactXFr)
                        } else {
                            None
                        }
                    } else {
                        None
                    }
                } else if s[15] == 'r' {
                    if s[16] == 'l' {
                        if s == "tyre_contact_x_rl"@ {
                            Some(ChannelSource::TyreContactXRl)
                        } else {
                            None
                        }
                    } else if s[16] == 'r' {
                        if s == "tyre_contact_x_rr"@ {
                            Some(ChannelSource::TyreContactXRr)
                        } else {
                            None
                        }
                    } else {
                        None
                    }
                } else {
                    None
                }
            } else if s[13] == 'y' {
                if s[15] == 'f' {
                    if s[16] == 'l' {
                        if s == "tyre_contact_y_fl"@ {
                            Some(ChannelSource::TyreContactYFl)
                        } else {
                            None
                        }
                    } else if s[16] == 'r' {
                        if s == "tyre_contact_y_fr"@ {
                            Some(ChannelSource::TyreContactYFr)
                        } else {
                            None
                        }
                    } else {
                        None
                    }
                } else if s[15] == 'r' {
                    if s[16] == 'l' {
                        if s == "tyre_contact_y_rl"@ {
                            Some(ChannelSource::TyreContactYRl)
                        } else {
                            None
                        }
                    } else if s[16] == 'r' {
                        if s == "tyre_contact_y_rr"@ {
                            Some(ChannelSource::TyreContactYRr)
                        } else {
                            None
                        }
                    } else {
                        None
                    }
                } else {
                    None
                }
            } else if s[13] == 'z' {
                if s[15] == 'f' {
                    if s[16] == 'l' {
                        if s == "tyre_contact_z_fl"@ {
                            Some(ChannelSource::TyreContactZFl)
                        } else {
                            None
                        }
                    } else if s[16] == 'r' {
                        if s == "tyre_contact_z_fr"@ {
                            Some(ChannelSource::TyreContactZFr)
                        } else {
                            None
                        }
                    } else {
                        None
                    }
                } else if s[15] == 'r' {
                    if s[16] == 'l' {
                        if s == "tyre_contact_z_rl"@ {
                            Some(ChannelSource::TyreContactZRl)
                        } else {
                            None
                        }
                    } else if s[16] == 'r' {
                        if s == "tyre_contact_z_rr"@ {
                            Some(ChannelSource::TyreContactZRr)
                        } else {
                            None
                        }
                    } else {
                        None
                    }
                } else {
                    None
                }
            } else {
                None
            }
        } else if s[0] == 'b' {
            if s[15] == 'f' {
                if s[16] == 'l' {
                    if s == "brake_pressure_fl"@ {
                        Some(ChannelSource::BrakePressureFl)
                    } else {
                        None
                    }
                } else if s[16] == 'r' {
                    if s == "brake_pressure_fr"@ {
                        Some(ChannelSource::BrakePressureFr)
                    } else {
                        None
                    }
                } else {
                    None
                }
            } else if s[15] == 'r' {
                if s[16] == 'l' {
                    if s == "brake_pressure_rl"@ {
                        Some(ChannelSource::BrakePressureRl)
                    } else {
                        None
                    }
                } else if s[16] == 'r' {
                    if s == "brake_pressure_rr"@ {
                        Some(ChannelSource::BrakePressureRr)
                    } else {
                        None
                    }
                } else {
                    None
                }
            } else {
                None
            }
        } else if s[0] == 'r' {
            if s == "ride_height_front"@ {
                Some(ChannelSource::RideHeightFront)
            } else {
                None
            }
        } else if s[0] == 'c' {
            if s == "car_damage_center"@ {
                Some(ChannelSource::CarDamageCenter)
            } else {
                None
            }
        } else if s[0] == 'p' {
            if s == "performance_meter"@ {
                Some(ChannelSource::PerformanceMeter)
            } else {
                None
            }
        } else if s[0] == 'e' {
            if s == "ers_heat_charging"@ {
                Some(ChannelSource::ErsHeatCharging)
            } else {
                None
            }
        } else if s[0] == 's' {
            if s == "starter_engine_on"@ {
                Some(ChannelSource::StarterEngineOn)
            } else {
                None
            }
        } else if s[0] == 'i' {
            if s == "is_engine_running"@ {
                Some(ChannelSource::IsEngineRunning)
            } else {
                None
            }
        } else {
            None
        }
    } else if s.len() == 18 {
        if s[0] == 'w' {
            if s[16] == 'f' {
                if s[17] == 'l' {
                    if s == "wheel_speed_kmh_fl"@ {
                        Some(ChannelSource::WheelSpeedKmhFl)
                    } else {
                        None
                    }
                } else if s[17] == 'r' {
                    if s == "wheel_speed_kmh_fr"@ {
                        Some(ChannelSource::WheelSpeedKmhFr)
                    } else {
                        None
                    }
                } else {
                    None
                }
            } else if s[16] == 'r' {
                if s[17] == 'l' {
                    if s == "wheel_speed_kmh_rl"@ {
                        Some(ChannelSource::WheelSpeedKmhRl)
                    } else {
                        None
                    }
                } else if s[17] == 'r' {
                    if s == "wheel_speed_kmh_rr"@ {
                        Some(ChannelSource::WheelSpeedKmhRr)
                    } else {
                        None
                    }
                } else {
                    None
                }
            } else {
                None
            }
        } else if s[0] == 't' {
            if s[16] == 'f' {
                if s[17] == 'l' {
                    if s == "tyre_temp_extra_fl"@ {
                        Some(ChannelSource::TyreTempExtraFl)
                    } else {
                        None
                    }
                } else if s[17] == 'r' {
                    if s == "tyre_temp_extra_fr"@ {
                        Some(ChannelSource::TyreTempExtraFr)
                    } else {
                        None
                    }
                } else {
                    None
                }
            } else if s[16] == 'r' {
                if s[17] == 'l' {
                    if s == "tyre_temp_extra_rl"@ {
                        Some(ChannelSource::TyreTempExtraRl)
                    } else {
                        None
                    }
                } else if s[17] == 'r' {
                    if s == "tyre_temp_extra_rr"@ {
                        Some(ChannelSource::TyreTempExtraRr)
                    } else {
                        None
                    }
                } else {
                    None
                }
            } else {
                None
            }
        } else if s[0] == 'e' {
            if s == "ers_recovery_level"@ {
                Some(ChannelSource::ErsRecoveryLevel)
            } else {
                None
            }
        } else {
            None
        }
    } else if s.len() == 19 {
        if s[18] == 'd' {
            if s == "rear_brake_compound"@ {
                Some(ChannelSource::RearBrakeCompound)
            } else {
                None
            }
        } else if s[18] == 'l' {
            if s[17] == 'f' {
                if s == "tyre_dirty_level_fl"@ {
                    Some(ChannelSource::TyreDirtyLevelFl)
                } else {
                    None
                }
            } else if s[17] == 'r' {
                if s == "tyre_dirty_level_rl"@ {
                    Some(ChannelSource::TyreDirtyLevelRl)
                } else {
                    None
                }
            } else {
                None
            }
        } else if s[18] == 'r' {
            if s[17] == 'f' {
                if s == "tyre_dirty_level_fr"@ {
                    Some(ChannelSource::TyreDirtyLevelFr)
                } else {
                    None
                }
            } else if s[17] == 'r' {
                if s == "tyre_dirty_level_rr"@ {
                    Some(ChannelSource::TyreDirtyLevelRr)
                } else {
                    None
                }
            } else {
                None
            }
        } else if s[18] == 'x' {
            if s == "local_angular_vel_x"@ {
                Some(ChannelSource::LocalAngularVelX)
            } else {
                None
            }
        } else if s[18] == 'y' {
            if s == "local_angular_vel_y"@ {
                Some(ChannelSource::LocalAngularVelY)
            } else {
                None
            }
        } else if s[18] == 'z' {
            if s == "local_angular_vel_z"@ {
                Some(ChannelSource::LocalAngularVelZ)
            } else {
                None
            }
        } else if s[18] == 't' {
            if s == "number_of_tyres_out"@ {
                Some(ChannelSource::NumberOfTyresOut)
            } else {
                None
            }
        } else {
            None
        }
    } else if s.len() == 20 {
        if s[12] == 'r' {
            if s[18] == 'f' {
                if s[19] == 'l' {
                    if s == "suspension_travel_fl"@ {
                        Some(ChannelSource::SuspensionTravelFl)
                    } else {
                        None
                    }
                } else if s[19] == 'r' {
                    if s == "suspension_travel_fr"@ {
                        Some(ChannelSource::SuspensionTravelFr)
                    } else {
                        None
                    }
                } else {
                    None
                }
            } else if s[18] == 'r' {
                if s[19] == 'l' {
                    if s == "suspension_travel_rl"@ {
                        Some(ChannelSource::SuspensionTravelRl)
                    } else {
                        None
                    }
                } else if s[19] == 'r' {
                    if s == "suspension_travel_rr"@ {
                        Some(ChannelSource::SuspensionTravelRr)
                    } else {
                        None
                    }
                } else {
                    None
                }
            } else {
                None
            }
        } else if s[12] == 'k' {
            if s == "wheel_speed_kmh_rear"@ {
                Some(ChannelSource::WheelSpeedKmhRear)
            } else {
                None
            }
        } else if s[12] == 'a' {
            if s[18] == 'f' {
                if s[19] == 'l' {
                    if s == "suspension_damage_fl"@ {
                        Some(ChannelSource::SuspensionDamageFl)
                    } else {
                        None
                    }
                } else if s[19] == 'r' {
                    if s == "suspension_damage_fr"@ {
                        Some(ChannelSource::SuspensionDamageFr)
                    } else {
                        None
                    }
                } else {
                    None
                }
            } else if s[18] == 'r' {
                if s[19] == 'l' {
                    if s == "suspension_damage_rl"@ {
                        Some(ChannelSource::SuspensionDamageRl)
                    } else {
                        None
                    }
                } else if s[19] == 'r' {
                    if s == "suspension_damage_rr"@ {
                        Some(ChannelSource::SuspensionDamageRr)
                    } else {
                        None
                    }
                } else {
                    None
                }
            } else {
                None
            }
        } else if s[12] == 'c' {
            if s == "front_brake_compound"@ {
                Some(ChannelSource::FrontBrakeCompound)
            } else {
                None
            }
        } else {
            None
        }
    } else if s.len() == 21 {
        if s[19] == 'f' {
            if s[20] == 'l' {
                if s == "wheel_pressure_bar_fl"@ {
                    Some(ChannelSource::WheelPressureBarFl)
                } else {
                    None
                }
            } else if s[20] == 'r' {
                if s == "wheel_pressure_bar_fr"@ {
                    Some(ChannelSource::WheelPressureBarFr)
                } else {
                    None
                }
            } else {
                None
            }
        } else if s[19] == 'r' {
            if s[20] == 'l' {
                if s == "wheel_pressure_bar_rl"@ {
                    Some(ChannelSource::WheelPressureBarRl)
                } else {
                    None
                }
            } else if s[20] == 'r' {
                if s == "wheel_pressure_bar_rr"@ {
                    Some(ChannelSource::WheelPressureBarRr)
                } else {
                    None
                }
            } else {
                None
            }
        } else if s[19] == 'n' {
            if s == "wheel_speed_kmh_front"@ {
                Some(ChannelSource::WheelSpeedKmhFront)
            } else {
                None
            }
        } else {
            None
        }
    } else if s.len() == 23 {
        if s[21] == 'f' {
            if s[22] == 'l' {
                if s == "suspension_travel_mm_fl"@ {
                    Some(ChannelSource::SuspensionTravelMmFl)
                } else {
                    None
                }
            } else if s[22] == 'r' {
                if s == "suspension_travel_mm_fr"@ {
                    Some(ChannelSource::SuspensionTravelMmFr)
                } else {
                    None
                }
            } else {
                None
            }
        } else if s[21] == 'r' {
            if s[22] == 'l' {
                if s == "suspension_travel_mm_rl"@ {
                    Some(ChannelSource::SuspensionTravelMmRl)
                } else {
                    None
                }
            } else if s[22] == 'r' {
                if s == "suspension_travel_mm_rr"@ {
                    Some(ChannelSource::SuspensionTravelMmRr)
                } else {
                    None
                }
            } else {
                None
            }
        } else {
            None
        }
    } else if s.len() == 24 {
        if s[20] == 'x' {
            if s[22] == 'f' {
                if s[23] == 'l' {
                    if s == "tyre_contact_normal_x_fl"@ {
                        Some(ChannelSource::TyreContactNormalXFl)
                    } else {
                        None
                    }
                } else if s[23] == 'r' {
                    if s == "tyre_contact_normal_x_fr"@ {
                        Some(ChannelSource::TyreContactNormalXFr)
                    } else {
                        None
                    }
                } else {
                    None
                }
            } else if s[22] == 'r' {
                if s[23] == 'l' {
                    if s == "tyre_contact_normal_x_rl"@ {
                        Some(ChannelSource::TyreContactNormalXRl)
                    } else {
                        None
                    }
                } else if s[23] == 'r' {
                    if s == "tyre_contact_normal_x_rr"@ {
                        Some(ChannelSource::TyreContactNormalXRr)
                    } else {
                        None
                    }
                } else {
                    None
                }
            } else {
                None
            }
        } else if s[20] == 'y' {
            if s[22] == 'f' {
                if s[23] == 'l' {
                    if s == "tyre_contact_normal_y_fl"@ {
                        Some(ChannelSource::TyreContactNormalYFl)
                    } else {
                        None
                    }
                } else if s[23] == 'r' {
                    if s == "tyre_contact_normal_y_fr"@ {
                        Some(ChannelSource::TyreContactNormalYFr)
                    } else {
                        None
                    }
                } else {
                    None
                }
            } else if s[22] == 'r' {
                if s[23] == 'l' {
                    if s == "tyre_contact_normal_y_rl"@ {
                        Some(ChannelSource::TyreContactNormalYRl)
                    } else {
                        None
                    }
                } else if s[23] == 'r' {
                    if s == "tyre_contact_normal_y_rr"@ {
                        Some(ChannelSource::TyreContactNormalYRr)
                    } else {
                        None
                    }
                } else {
                    None
                }
            } else {
                None
            }
        } else if s[20] == 'z' {
            if s[22] == 'f' {
                if s[23] == 'l' {
                    if s == "tyre_contact_normal_z_fl"@ {
                        Some(ChannelSource::TyreContactNormalZFl)
                    } else {
                        None
                    }
                } else if s[23] == 'r' {
                    if s == "tyre_contact_normal_z_fr"@ {
                        Some(ChannelSource::TyreContactNormalZFr)
                    } else {
                        None
                    }
                } else {
                    None
                }
            } else if s[22] == 'r' {
                if s[23] == 'l' {
                    if s == "tyre_contact_normal_z_rl"@ {
                        Some(ChannelSource::TyreContactNormalZRl)
                    } else {
                        None
                    }
                } else if s[23] == 'r' {
                    if s == "tyre_contact_normal_z_rr"@ {
                        Some(ChannelSource::TyreContactNormalZRr)
                    } else {
                        None
                    }
                } else {
                    None
                }
            } else {
                None
            }
        } else {
            None
        }
    } else if s.len() == 25 {
        if s[21] == 'x' {
            if s[23] == 'f' {
                if s[24] == 'l' {
                    if s == "tyre_contact_heading_x_fl"@ {
                        Some(ChannelSource::TyreContactHeadingXFl)
                    } else {
                        None
                    }
                } else if s[24] == 'r' {
                    if s == "tyre_contact_heading_x_fr"@ {
                        Some(ChannelSource::TyreContactHeadingXFr)
                    } else {
                        None
                    }
                } else {
                    None
                }
            } else if s[23] == 'r' {
                if s[24] == 'l' {
                    if s == "tyre_contact_heading_x_rl"@ {
                        Some(ChannelSource::TyreContactHeadingXRl)
                    } else {
                        None
                    }
                } else if s[24] == 'r' {
                    if s == "tyre_contact_heading_x_rr"@ {
                        Some(ChannelSource::TyreContactHeadingXRr)
                    } else {
                        None
                    }
                } else {
                    None
                }
            } else {
                None
            }
        } else if s[21] == 'y' {
            if s[23] == 'f' {
                if s[24] == 'l' {
                    if s == "tyre_contact_heading_y_fl"@ {
                        Some(ChannelSource::TyreContactHeadingYFl)
                    } else {
                        None
                    }
                } else if s[24] == 'r' {
                    if s == "tyre_contact_heading_y_fr"@ {
                        Some(ChannelSource::TyreContactHeadingYFr)
                    } else {
                        None
                    }
                } else {
                    None
                }
            } else if s[23] == 'r' {
                if s[24] == 'l' {
                    if s == "tyre_contact_heading_y_rl"@ {
                        Some(ChannelSource::TyreContactHeadingYRl)
                    } else {
                        None
                    }
                } else if s[24] == 'r' {
                    if s == "tyre_contact_heading_y_rr"@ {
                        Some(ChannelSource::TyreContactHeadingYRr)
                    } else {
                        None
                    }
                } else {
                    None
                }
            } else {
                None
            }
        } else if s[21] == 'z' {
            if s[23] == 'f' {
                if s[24] == 'l' {
                    if s == "tyre_contact_heading_z_fl"@ {
                        Some(ChannelSource::TyreContactHeadingZFl)
                    } else {
                        None
                    }
                } else if s[24] == 'r' {
                    if s == "tyre_contact_heading_z_fr"@ {
                        Some(ChannelSource::TyreContactHeadingZFr)
                    } else {
                        None
                    }
                } else {
                    None
                }
            } else if s[23] == 'r' {
                if s[24] == 'l' {
                    if s == "tyre_contact_heading_z_rl"@ {
                        Some(ChannelSource::TyreContactHeadingZRl)
                    } else {
                        None
                    }
                } else if s[24] == 'r' {
                    if s == "tyre_contact_heading_z_rr"@ {
                        Some(ChannelSource::TyreContactHeadingZRr)
                    } else {
                        None
                    }
                } else {
                    None
                }
            } else {
                None
            }
        } else {
            None
        }
    } else {
        None
    }
}

#[verifier::spinoff_prover]
#[verifier::rlimit(100)]
proof fn lemma_source_named(v: ChannelSource)
    ensures
        source_named(channel_source_name(v)) == Some(v),
{
    match v {
        ChannelSource::Time => reveal_strlit("time"),
        ChannelSource::SpeedKmh => reveal_strlit("speed_kmh"),
        ChannelSource::Rpm => reveal_strlit("rpm"),
        ChannelSource::Gas => reveal_strlit("gas"),
        ChannelSource::Brake => reveal_strlit("brake"),
        ChannelSource::SteerAngle => reveal_strlit("steer_angle"),
        ChannelSource::Gear => reveal_strlit("gear"),
        ChannelSource::GForceX => reveal_strlit("g_force_x"),
        ChannelSource::GForceY => reveal_strlit("g_force_y"),
        ChannelSource::GForceTotal => reveal_strlit("g_force_total"),
        ChannelSource::EngineRotation => reveal_strlit("engine_rotation"),
        ChannelSource::GearOk => reveal_strlit("gear_ok"),
        ChannelSource::BrakeStatus => reveal_strlit("brake_status"),
        ChannelSource::SuspensionTravelFl => reveal_strlit("suspension_travel_fl"),
        ChannelSource::SuspensionTravelFr => reveal_strlit("suspension_travel_fr"),
        ChannelSource::SuspensionTravelRl => reveal_strlit("suspension_travel_rl"),
        ChannelSource::SuspensionTravelRr => reveal_strlit("suspension_travel_rr"),
        ChannelSource::SuspensionTravelMmFl => reveal_strlit("suspension_travel_mm_fl"),
        ChannelSource::SuspensionTravelMmFr => reveal_strlit("suspension_travel_mm_fr"),
        ChannelSource::SuspensionTravelMmRl => reveal_strlit("suspension_travel_mm_rl"),
        ChannelSource::SuspensionTravelMmRr => reveal_strlit("suspension_travel_mm_rr"),
        ChannelSource::CarPosX => reveal_strlit("car_pos_x"),
        ChannelSource::CarPosY => reveal_strlit("car_pos_y"),
        ChannelSource::CarPosZ => reveal_strlit("car_pos_z"),
        ChannelSource::TyreContactXFl => reveal_strlit("tyre_contact_x_fl"),
        ChannelSource::TyreContactYFl => reveal_strlit("tyre_contact_y_fl"),
        ChannelSource::TyreContactZFl => reveal_strlit("tyre_contact_z_fl"),
        ChannelSource::TyreContactXFr => reveal_strlit("tyre_contact_x_fr"),
        ChannelSource::TyreContactYFr => reveal_strlit("tyre_contact_y_fr"),
        ChannelSource::TyreContactZFr => reveal_strlit("tyre_contact_z_fr"),
        ChannelSource::TyreContactXRl => reveal_strlit("tyre_contact_x_rl"),
        ChannelSource::TyreContactYRl => reveal_strlit("tyre_contact_y_rl"),
        ChannelSource::TyreContactZRl => reveal_strlit("tyre_contact_z_rl"),
        ChannelSource::TyreContactXRr => reveal_strlit("tyre_contact_x_rr"),
        ChannelSource::TyreContactYRr => reveal_strlit("tyre_contact_y_rr"),
        ChannelSource::TyreContactZRr => reveal_strlit("tyre_contact_z_rr"),
        ChannelSource::TyreTempCFl => reveal_strlit("tyre_temp_c_fl"),
        ChannelSource::TyreTempCFr => reveal_strlit("tyre_temp_c_fr"),
        ChannelSource::TyreTempCRl => reveal_strlit("tyre_temp_c_rl"),
        ChannelSource::TyreTempCRr => reveal_strlit("tyre_temp_c_rr"),
        ChannelSource::WheelPressureBarFl => reveal_strlit("wheel_pressure_bar_fl"),
        ChannelSource::WheelPressureBarFr => reveal_strlit("wheel_pressure_bar_fr"),
        ChannelSource::WheelPressureBarRl => reveal_strlit("wheel_pressure_bar_rl"),
        ChannelSource::WheelPressureBarRr => reveal_strlit("wheel_pressure_bar_rr"),
        ChannelSource::BrakeTempCFl => reveal_strlit("brake_temp_c_fl"),
        ChannelSource::BrakeTempCFr => reveal_strlit("brake_temp_c_fr"),
        ChannelSource::BrakeTempCRl => reveal_strlit("brake_temp_c_rl"),
        ChannelSource::BrakeTempCRr => reveal_strlit("brake_temp_c_rr"),
        ChannelSource::TyreWearPctFl => reveal_strlit("tyre_wear_pct_fl"),
        ChannelSource::TyreWearPctFr => reveal_strlit("tyre_wear_pct_fr"),
        ChannelSource::TyreWearPctRl => reveal_strlit("tyre_wear_pct_rl"),
        ChannelSource::TyreWearPctRr => reveal_strlit("tyre_wear_pct_rr"),
        ChannelSource::WheelSpeedKmhFl => reveal_strlit("wheel_speed_kmh_fl"),
        ChannelSource::WheelSpeedKmhFr => reveal_strlit("wheel_speed_kmh_fr"),
        ChannelSource::WheelSpeedKmhRl => reveal_strlit("wheel_speed_kmh_rl"),
        ChannelSource::WheelSpeedKmhRr => reveal_strlit("wheel_speed_kmh_rr"),
        ChannelSource::WheelSpeedKmhFront => reveal_strlit("wheel_speed_kmh_front"),
        ChannelSource::WheelSpeedKmhRear => reveal_strlit("wheel_speed_kmh_rear"),
        ChannelSource::WheelSlipMax => reveal_strlit("wheel_slip_max"),
        ChannelSource::GraphicsPosX => reveal_strlit("graphics_pos_x"),
        ChannelSource::GraphicsPosY => reveal_strlit("graphics_pos_y"),
        ChannelSource::GraphicsPosZ => reveal_strlit("graphics_pos_z"),
        ChannelSource::Clutch => reveal_strlit("clutch"),
        ChannelSource::Fuel => reveal_strlit("fuel"),
        ChannelSource::Tc => reveal_strlit("tc"),
        ChannelSource::Abs => reveal_strlit("abs"),
        ChannelSource::TurboBoost => reveal_strlit("turbo_boost"),
        ChannelSource::AirTemp => reveal_strlit("air_temp"),
        ChannelSource::RoadTemp => reveal_strlit("road_temp"),
        ChannelSource::WaterTemp => reveal_strlit("water_temp"),
        ChannelSource::Heading => reveal_strlit("heading"),
        ChannelSource::Pitch => reveal_strlit("pitch"),
        ChannelSource::Roll => reveal_strlit("roll"),
        ChannelSource::BrakePressureFl => reveal_strlit("brake_pressure_fl"),
        ChannelSource::BrakePressureFr => reveal_strlit("brake_pressure_fr"),
        ChannelSource::BrakePressureRl => reveal_strlit("brake_pressure_rl"),
        ChannelSource::BrakePressureRr => reveal_strlit("brake_pressure_rr"),
        ChannelSource::SlipAngleFl => reveal_strlit("slip_angle_fl"),
        ChannelSource::SlipAngleFr => reveal_strlit("slip_angle_fr"),
        ChannelSource::SlipAngleRl => reveal_strlit("slip_angle_rl"),
        ChannelSource::SlipAngleRr => reveal_strlit("slip_angle_rr"),
        ChannelSource::RideHeightFront => reveal_strlit("ride_height_front"),
        ChannelSource::RideHeightRear => reveal_strlit("ride_height_rear"),
        ChannelSource::CarDamageFront => reveal_strlit("car_damage_front"),
        ChannelSource::CarDamageRear => reveal_strlit("car_damage_rear"),
        ChannelSource::CarDamageLeft => reveal_strlit("car_damage_left"),
        ChannelSource::CarDamageRight => reveal_strlit("car_damage_right"),
        ChannelSource::CarDamageCenter => reveal_strlit("car_damage_center"),
        ChannelSource::WheelLoadFl => reveal_strlit("wheel_load_fl"),
        ChannelSource::WheelLoadFr => reveal_strlit("wheel_load_fr"),
        ChannelSource::WheelLoadRl => reveal_strlit("wheel_load_rl"),
        ChannelSource::WheelLoadRr => reveal_strlit("wheel_load_rr"),
        ChannelSource::WheelSlipFl => reveal_strlit("wheel_slip_fl"),
        ChannelSource::WheelSlipFr => reveal_strlit("wheel_slip_fr"),
        ChannelSource::WheelSlipRl => reveal_strlit("wheel_slip_rl"),
        ChannelSource::WheelSlipRr => reveal_strlit("wheel_slip_rr"),
        ChannelSource::CamberRadFl => reveal_strlit("camber_rad_fl"),
        ChannelSource::CamberRadFr => reveal_strlit("camber_rad_fr"),
        ChannelSource::CamberRadRl => reveal_strlit("camber_rad_rl"),
        ChannelSource::CamberRadRr => reveal_strlit("camber_rad_rr"),
        ChannelSource::SuspensionDamageFl => reveal_strlit("suspension_damage_fl"),
        ChannelSource::SuspensionDamageFr => reveal_strlit("suspension_damage_fr"),
        ChannelSource::SuspensionDamageRl => reveal_strlit("suspension_damage_rl"),
        ChannelSource::SuspensionDamageRr => reveal_strlit("suspension_damage_rr"),
        ChannelSource::SlipRatioFl => reveal_strlit("slip_ratio_fl"),
        ChannelSource::SlipRatioFr => reveal_strlit("slip_ratio_fr"),
        ChannelSource::SlipRatioRl => reveal_strlit("slip_ratio_rl"),
        ChannelSource::SlipRatioRr => reveal_strlit("slip_ratio_rr"),
        ChannelSource::PadLifeFl => reveal_strlit("pad_life_fl"),
        ChannelSource::PadLifeFr => reveal_strlit("pad_life_fr"),
        ChannelSource::PadLifeRl => reveal_strlit("pad_life_rl"),
        ChannelSource::PadLifeRr => reveal_strlit("pad_life_rr"),
        ChannelSource::DiscLifeFl => reveal_strlit("disc_life_fl"),
        ChannelSource::DiscLifeFr => reveal_strlit("disc_life_fr"),
        ChannelSource::DiscLifeRl => reveal_strlit("disc_life_rl"),
        ChannelSource::DiscLifeRr => reveal_strlit("disc_life_rr"),
        ChannelSource::FrontBrakeCompound => reveal_strlit("front_brake_compound"),
        ChannelSource::RearBrakeCompound => reveal_strlit("rear_brake_compound"),
        ChannelSource::TyreDirtyLevelFl => reveal_strlit("tyre_dirty_level_fl"),
        ChannelSource::TyreDirtyLevelFr => reveal_strlit("tyre_dirty_level_fr"),
        ChannelSource::TyreDirtyLevelRl => reveal_strlit("tyre_dirty_level_rl"),
        ChannelSource::TyreDirtyLevelRr => reveal_strlit("tyre_dirty_level_rr"),
        ChannelSource::TyreTempIFl => reveal_strlit("tyre_temp_i_fl"),
        ChannelSource::TyreTempIFr => reveal_strlit("tyre_temp_i_fr"),
        ChannelSource::TyreTempIRl => reveal_strlit("tyre_temp_i_rl"),
        ChannelSource::TyreTempIRr => reveal_strlit("tyre_temp_i_rr"),
        ChannelSource::TyreTempMFl => reveal_strlit("tyre_temp_m_fl"),
        ChannelSource::TyreTempMFr => reveal_strlit("tyre_temp_m_fr"),
        ChannelSource::TyreTempMRl => reveal_strlit("tyre_temp_m_rl"),
        ChannelSource::TyreTempMRr => reveal_strlit("tyre_temp_m_rr"),
        ChannelSource::TyreTempOFl => reveal_strlit("tyre_temp_o_fl"),
        ChannelSource::TyreTempOFr => reveal_strlit("tyre_temp_o_fr"),
        ChannelSource::TyreTempORl => reveal_strlit("tyre_temp_o_rl"),
        ChannelSource::TyreTempORr => reveal_strlit("tyre_temp_o_rr"),
        ChannelSource::TyreTempExtraFl => reveal_strlit("tyre_temp_extra_fl"),
        ChannelSource::TyreTempExtraFr => reveal_strlit("tyre_temp_extra_fr"),
        ChannelSource::TyreTempExtraRl => reveal_strlit("tyre_temp_extra_rl"),
        ChannelSource::TyreTempExtraRr => reveal_strlit("tyre_temp_extra_rr"),
        ChannelSource::TyreContactNormalXFl => reveal_strlit("tyre_contact_normal_x_fl"),
        ChannelSource::TyreContactNormalYFl => reveal_strlit("tyre_contact_normal_y_fl"),
        ChannelSource::TyreContactNormalZFl => reveal_strlit("tyre_contact_normal_z_fl"),
        ChannelSource::TyreContactNormalXFr => reveal_strlit("tyre_contact_normal_x_fr"),
        ChannelSource::TyreContactNormalYFr => reveal_strlit("tyre_contact_normal_y_fr"),
        ChannelSource::TyreContactNormalZFr => reveal_strlit("tyre_contact_normal_z_fr"),
        ChannelSource::TyreContactNormalXRl => reveal_strlit("tyre_contact_normal_x_rl"),
        ChannelSource::TyreContactNormalYRl => reveal_strlit("tyre_contact_normal_y_rl"),
        ChannelSource::TyreContactNormalZRl => reveal_strlit("tyre_contact_normal_z_rl"),
        ChannelSource::TyreContactNormalXRr => reveal_strlit("tyre_contact_normal_x_rr"),
        ChannelSource::TyreContactNormalYRr => reveal_strlit("tyre_contact_normal_y_rr"),
        ChannelSource::TyreContactNormalZRr => reveal_strlit("tyre_contact_normal_z_rr"),
        ChannelSource::TyreContactHeadingXFl => reveal_strlit("tyre_contact_heading_x_fl"),
        ChannelSource::TyreContactHeadingYFl => reveal_strlit("tyre_contact_heading_y_fl"),
        ChannelSource::TyreContactHeadingZFl => reveal_strlit("tyre_contact_heading_z_fl"),
        ChannelSource::TyreContactHeadingXFr => reveal_strlit("tyre_contact_heading_x_fr"),
        ChannelSource::TyreContactHeadingYFr => reveal_strlit("tyre_contact_heading_y_fr"),
        ChannelSource::TyreContactHeadingZFr => reveal_strlit("tyre_contact_heading_z_fr"),
        ChannelSource::TyreContactHeadingXRl => reveal_strlit("tyre_contact_heading_x_rl"),
        ChannelSource::TyreContactHeadingYRl => reveal_strlit("tyre_contact_heading_y_rl"),
        ChannelSource::TyreContactHeadingZRl => reveal_strlit("tyre_contact_heading_z_rl"),
        ChannelSource::TyreContactHeadingXRr => reveal_strlit("tyre_contact_heading_x_rr"),
        ChannelSource::TyreContactHeadingYRr => reveal_strlit("tyre_contact_heading_y_rr"),
        ChannelSource::TyreContactHeadingZRr => reveal_strlit("tyre_contact_heading_z_rr"),
        ChannelSource::VelocityX => reveal_strlit("velocity_x"),
        ChannelSource::VelocityY => reveal_strlit("velocity_y"),
        ChannelSource::VelocityZ => reveal_strlit("velocity_z"),
        ChannelSource::LocalVelocityX => reveal_strlit("local_velocity_x"),
        ChannelSource::LocalVelocityY => reveal_strlit("local_velocity_y"),
        ChannelSource::LocalVelocityZ => reveal_strlit("local_velocity_z"),
        ChannelSource::LocalAngularVelX => reveal_strlit("local_angular_vel_x"),
        ChannelSource::LocalAngularVelY => reveal_strlit("local_angular_vel_y"),
        ChannelSource::LocalAngularVelZ => reveal_strlit("local_angular_vel_z"),
        ChannelSource::FinalFf => reveal_strlit("final_ff"),
        ChannelSource::BrakeBias => reveal_strlit("brake_bias"),
        ChannelSource::TcInAction => reveal_strlit("tc_in_action"),
        ChannelSource::AbsInAction => reveal_strlit("abs_in_action"),
        ChannelSource::PitLimiterOn => reveal_strlit("pit_limiter_on"),
        ChannelSource::IsAiControlled => reveal_strlit("is_ai_controlled"),
        ChannelSource::Drs => reveal_strlit("drs"),
        ChannelSource::CgHeight => reveal_strlit("cg_height"),
        ChannelSource::NumberOfTyresOut => reveal_strlit("number_of_tyres_out"),
        ChannelSource::KersCharge => reveal_strlit("kers_charge"),
        ChannelSource::KersInput => reveal_strlit("kers_input"),
        ChannelSource::KersCurrentKj => reveal_strlit("kers_current_kj"),
        ChannelSource::Ballast => reveal_strlit("ballast"),
        ChannelSource::AirDensity => reveal_strlit("air_density"),
        ChannelSource::PerformanceMeter => reveal_strlit("performance_meter"),
        ChannelSource::EngineBrake => reveal_strlit("engine_brake"),
        ChannelSource::ErsRecoveryLevel => reveal_strlit("ers_recovery_level"),
        ChannelSource::ErsPowerLevel => reveal_strlit("ers_power_level"),
        ChannelSource::ErsHeatCharging => reveal_strlit("ers_heat_charging"),
        ChannelSource::ErsIsCharging => reveal_strlit("ers_is_charging"),
        ChannelSource::DrsAvailable => reveal_strlit("drs_available"),
        ChannelSource::DrsEnabled => reveal_strlit("drs_enabled"),
        ChannelSource::P2pActivation => reveal_strlit("p2p_activation"),
        ChannelSource::P2pStatus => reveal_strlit("p2p_status"),
        ChannelSource::CurrentMaxRpm => reveal_strlit("current_max_rpm"),
        ChannelSource::MzFl => reveal_strlit("mz_fl"),
        ChannelSource::MzFr => reveal_strlit("mz_fr"),
        ChannelSource::MzRl => reveal_strlit("mz_rl"),
        ChannelSource::MzRr => reveal_strlit("mz_rr"),
        ChannelSource::FzFl => reveal_strlit("fz_fl"),
        ChannelSource::FzFr => reveal_strlit("fz_fr"),
        ChannelSource::FzRl => reveal_strlit("fz_rl"),
        ChannelSource::FzRr => reveal_strlit("fz_rr"),
        ChannelSource::MyFl => reveal_strlit("my_fl"),
        ChannelSource::MyFr => reveal_strlit("my_fr"),
        ChannelSource::MyRl => reveal_strlit("my_rl"),
        ChannelSource::MyRr => reveal_strlit("my_rr"),
        ChannelSource::KerbVibration => reveal_strlit("kerb_vibration"),
        ChannelSource::SlipVibration => reveal_strlit("slip_vibration"),
        ChannelSource::GVibration => reveal_strlit("g_vibration"),
        ChannelSource::AbsVibration => reveal_strlit("abs_vibration"),
        ChannelSource::AutoshifterOn => reveal_strlit("autoshifter_on"),
        ChannelSource::IgnitionOn => reveal_strlit("ignition_on"),
        ChannelSource::StarterEngineOn => reveal_strlit("starter_engine_on"),
        ChannelSource::IsEngineRunning => reveal_strlit("is_engine_running"),
        ChannelSource::PacketId => reveal_strlit("packet_id"),
    }
}

/// No two channel sources share a name.
pub proof fn lemma_channel_source_name_injective(a: ChannelSource, b: ChannelSource)
    requires
        channel_source_name(a) == channel_source_name(b),
    ensures
        a == b,
{
    lemma_source_named(a);
    lemma_source_named(b);
}

/// The message for a source name that no channel source has.
pub open spec fn unknown_source_message(s: Seq<char>) -> Seq<char> {
    "unknown MoTeC channel source '"@ + s + "'"@
}

impl ChannelSource {
    /// The channel source a profile names by `s`.
    pub fn parse(s: &str) -> (r: Result<ChannelSource, String>)
        ensures
            r matches Ok(v) ==> channel_source_name(v) == s@,
            r is Err <==> forall|v: ChannelSource| channel_source_name(v) != s@,
            r matches Err(m) ==> m@ == unknown_source_message(s@),
    {
        if str_eq(s, "time") {
            assert(channel_source_name(ChannelSource::Time) == s@);
            return Ok(ChannelSource::Time);
        }
        if str_eq(s, "speed_kmh") {
            assert(channel_source_name(ChannelSource::SpeedKmh) == s@);
            return Ok(ChannelSource::SpeedKmh);
        }
        if str_eq(s, "rpm") {
            assert(channel_source_name(ChannelSource::Rpm) == s@);
            return Ok(ChannelSource::Rpm);
        }
        if str_eq(s, "gas") {
            assert(channel_source_name(ChannelSource::Gas) == s@);
            return Ok(ChannelSource::Gas);
        }
        if str_eq(s, "brake") {
            assert(channel_source_name(ChannelSource::Brake) == s@);
            return Ok(ChannelSource::Brake);
        }
        if str_eq(s, "steer_angle") {
            assert(channel_source_name(ChannelSource::SteerAngle) == s@);
            return Ok(ChannelSource::SteerAngle);
        }
        if str_eq(s, "gear") {
            assert(channel_source_name(ChannelSource::Gear) == s@);
            return Ok(ChannelSource::Gear);
        }
        if str_eq(s, "g_force_x") {
            assert(channel_source_name(ChannelSource::GForceX) == s@);
            return Ok(ChannelSource::GForceX);
        }
        if str_eq(s, "g_force_y") {
            assert(channel_source_name(ChannelSource::GForceY) == s@);
            return Ok(ChannelSource::GForceY);
        }
        if str_eq(s, "g_force_total") {
            assert(channel_source_name(ChannelSource::GForceTotal) == s@);
            return Ok(ChannelSource::GForceTotal);
        }
        if str_eq(s, "engine_rotation") {
            assert(channel_source_name(ChannelSource::EngineRotation) == s@);
            return Ok(ChannelSource::EngineRotation);
        }
        if str_eq(s, "gear_ok") {
            assert(channel_source_name(ChannelSource::GearOk) == s@);
            return Ok(ChannelSource::GearOk);
        }
        if str_eq(s, "brake_status") {
            assert(channel_source_name(ChannelSource::BrakeStatus) == s@);
            return Ok(ChannelSource::BrakeStatus);
        }
        if str_eq(s, "suspension_travel_fl") {
            assert(channel_source_name(ChannelSource::SuspensionTravelFl) == s@);
            return Ok(ChannelSource::SuspensionTravelFl);
        }
        if str_eq(s, "suspension_travel_fr") {
            assert(channel_source_name(ChannelSource::SuspensionTravelFr) == s@);
            return Ok(ChannelSource::SuspensionTravelFr);
        }
        if str_eq(s, "suspension_travel_rl") {
            assert(channel_source_name(ChannelSource::SuspensionTravelRl) == s@);
            return Ok(ChannelSource::SuspensionTravelRl);
        }
        if str_eq(s, "suspension_travel_rr") {
            assert(channel_source_name(ChannelSource::SuspensionTravelRr) == s@);
            return Ok(ChannelSource::SuspensionTravelRr);
        }
        if str_eq(s, "suspension_travel_mm_fl") {
            assert(channel_source_name(ChannelSource::SuspensionTravelMmFl) == s@);
            return Ok(ChannelSource::SuspensionTravelMmFl);
        }
        if str_eq(s, "suspension_travel_mm_fr") {
            assert(channel_source_name(ChannelSource::SuspensionTravelMmFr) == s@);
            return Ok(ChannelSource::SuspensionTravelMmFr);
        }
        if str_eq(s, "suspension_travel_mm_rl") {
            assert(channel_source_name(ChannelSource::SuspensionTravelMmRl) == s@);
            return Ok(ChannelSource::SuspensionTravelMmRl);
        }
        if str_eq(s, "suspension_travel_mm_rr") {
            assert(channel_source_name(ChannelSource::SuspensionTravelMmRr) == s@);
            return Ok(ChannelSource::SuspensionTravelMmRr);
        }
        if str_eq(s, "car_pos_x") {
            assert(channel_source_name(ChannelSource::CarPosX) == s@);
            return Ok(ChannelSource::CarPosX);
        }
        if str_eq(s, "car_pos_y") {
            assert(channel_source_name(ChannelSource::CarPosY) == s@);
            return Ok(ChannelSource::CarPosY);
        }
        if str_eq(s, "car_pos_z") {
            assert(channel_source_name(ChannelSource::CarPosZ) == s@);
            return Ok(ChannelSource::CarPosZ);
        }
        if str_eq(s, "tyre_contact_x_fl") {
            assert(channel_source_name(ChannelSource::TyreContactXFl) == s@);
            return Ok(ChannelSource::TyreContactXFl);
        }
        if str_eq(s, "tyre_contact_y_fl") {
            assert(channel_source_name(ChannelSource::TyreContactYFl) == s@);
            return Ok(ChannelSource::TyreContactYFl);
        }
        if str_eq(s, "tyre_contact_z_fl") {
            assert(channel_source_name(ChannelSource::TyreContactZFl) == s@);
            return Ok(ChannelSource::TyreContactZFl);
        }
        if str_eq(s, "tyre_contact_x_fr") {
            assert(channel_source_name(ChannelSource::TyreContactXFr) == s@);
            return Ok(ChannelSource::TyreContactXFr);
        }
        if str_eq(s, "tyre_contact_y_fr") {
            assert(channel_source_name(ChannelSource::TyreContactYFr) == s@);
            return Ok(ChannelSource::TyreContactYFr);
        }
        if str_eq(s, "tyre_contact_z_fr") {
            assert(channel_source_name(ChannelSource::TyreContactZFr) == s@);
            return Ok(ChannelSource::TyreContactZFr);
        }
        if str_eq(s, "tyre_contact_x_rl") {
            assert(channel_source_name(ChannelSource::TyreContactXRl) == s@);
            return Ok(ChannelSource::TyreContactXRl);
        }
        if str_eq(s, "tyre_contact_y_rl") {
            assert(channel_source_name(ChannelSource::TyreContactYRl) == s@);
            return Ok(ChannelSource::TyreContactYRl);
        }
        if str_eq(s, "tyre_contact_z_rl") {
            assert(channel_source_name(ChannelSource::TyreContactZRl) == s@);
            return Ok(ChannelSource::TyreContactZRl);
        }
        if str_eq(s, "tyre_contact_x_rr") {
            assert(channel_source_name(ChannelSource::TyreContactXRr) == s@);
            return Ok(ChannelSource::TyreContactXRr);
        }
        if str_eq(s, "tyre_contact_y_rr") {
            assert(channel_source_name(ChannelSource::TyreContactYRr) == s@);
            return Ok(ChannelSource::TyreContactYRr);
        }
        if str_eq(s, "tyre_contact_z_rr") {
            assert(channel_source_name(ChannelSource::TyreContactZRr) == s@);
            return Ok(ChannelSource::TyreContactZRr);
        }
        if str_eq(s, "tyre_temp_c_fl") {
            assert(channel_source_name(ChannelSource::TyreTempCFl) == s@);
            return Ok(ChannelSource::TyreTempCFl);
        }
        if str_eq(s, "tyre_temp_c_fr") {
            assert(channel_source_name(ChannelSource::TyreTempCFr) == s@);
            return Ok(ChannelSource::TyreTempCFr);
        }
        if str_eq(s, "tyre_temp_c_rl") {
            assert(channel_source_name(ChannelSource::TyreTempCRl) == s@);
            return Ok(ChannelSource::TyreTempCRl);
        }
        if str_eq(s, "tyre_temp_c_rr") {
            assert(channel_source_name(ChannelSource::TyreTempCRr) == s@);
            return Ok(ChannelSource::TyreTempCRr);
        }
        if str_eq(s, "wheel_pressure_bar_fl") {
            assert(channel_source_name(ChannelSource::WheelPressureBarFl) == s@);
            return Ok(ChannelSource::WheelPressureBarFl);
        }
        if str_eq(s, "wheel_pressure_bar_fr") {
            assert(channel_source_name(ChannelSource::WheelPressureBarFr) == s@);
            return Ok(ChannelSource::WheelPressureBarFr);
        }
        if str_eq(s, "wheel_pressure_bar_rl") {
            assert(channel_source_name(ChannelSource::WheelPressureBarRl) == s@);
            return Ok(ChannelSource::WheelPressureBarRl);
        }
        if str_eq(s, "wheel_pressure_bar_rr") {
            assert(channel_source_name(ChannelSource::WheelPressureBarRr) == s@);
            return Ok(ChannelSource::WheelPressureBarRr);
        }
        if str_eq(s, "brake_temp_c_fl") {
            assert(channel_source_name(ChannelSource::BrakeTempCFl) == s@);
            return Ok(ChannelSource::BrakeTempCFl);
        }
        if str_eq(s, "brake_temp_c_fr") {
            assert(channel_source_name(ChannelSource::BrakeTempCFr) == s@);
            return Ok(ChannelSource::BrakeTempCFr);
        }
        if str_eq(s, "brake_temp_c_rl") {
            assert(channel_source_name(ChannelSource::BrakeTempCRl) == s@);
            return Ok(ChannelSource::BrakeTempCRl);
        }
        if str_eq(s, "brake_temp_c_rr") {
            assert(channel_source_name(ChannelSource::BrakeTempCRr) == s@);
            return Ok(ChannelSource::BrakeTempCRr);
        }
        if str_eq(s, "tyre_wear_pct_fl") {
            assert(channel_source_name(ChannelSource::TyreWearPctFl) == s@);
            return Ok(ChannelSource::TyreWearPctFl);
        }
        if str_eq(s, "tyre_wear_pct_fr") {
            assert(channel_source_name(ChannelSource::TyreWearPctFr) == s@);
            return Ok(ChannelSource::TyreWearPctFr);
        }
        if str_eq(s, "tyre_wear_pct_rl") {
            assert(channel_source_name(ChannelSource::TyreWearPctRl) == s@);
            return Ok(ChannelSource::TyreWearPctRl);
        }
        if str_eq(s, "tyre_wear_pct_rr") {
            assert(channel_source_name(ChannelSource::TyreWearPctRr) == s@);
            return Ok(ChannelSource::TyreWearPctRr);
        }
        if str_eq(s, "wheel_speed_kmh_fl") {
            assert(channel_source_name(ChannelSource::WheelSpeedKmhFl) == s@);
            return Ok(ChannelSource::WheelSpeedKmhFl);
        }
        if str_eq(s, "wheel_speed_kmh_fr") {
            assert(channel_source_name(ChannelSource::WheelSpeedKmhFr) == s@);
            return Ok(ChannelSource::WheelSpeedKmhFr);
        }
        if str_eq(s, "wheel_speed_kmh_rl") {
            assert(channel_source_name(ChannelSource::WheelSpeedKmhRl) == s@);
            return Ok(ChannelSource::WheelSpeedKmhRl);
        }
        if str_eq(s, "wheel_speed_kmh_rr") {
            assert(channel_source_name(ChannelSource::WheelSpeedKmhRr) == s@);
            return Ok(ChannelSource::WheelSpeedKmhRr);
        }
        if str_eq(s, "wheel_speed_kmh_front") {
            assert(channel_source_name(ChannelSource::WheelSpeedKmhFront) == s@);
            return Ok(ChannelSource::WheelSpeedKmhFront);
        }
        if str_eq(s, "wheel_speed_kmh_rear") {
            assert(channel_source_name(ChannelSource::WheelSpeedKmhRear) == s@);
            return Ok(ChannelSource::WheelSpeedKmhRear);
        }
        if str_eq(s, "wheel_slip_max") {
            assert(channel_source_name(ChannelSource::WheelSlipMax) == s@);
            return Ok(ChannelSource::WheelSlipMax);
        }
        if str_eq(s, "graphics_pos_x") {
            assert(channel_source_name(ChannelSource::GraphicsPosX) == s@);
            return Ok(ChannelSource::GraphicsPosX);
        }
        if str_eq(s, "graphics_pos_y") {
            assert(channel_source_name(ChannelSource::GraphicsPosY) == s@);
            return Ok(ChannelSource::GraphicsPosY);
        }
        if str_eq(s, "graphics_pos_z") {
            assert(channel_source_name(ChannelSource::GraphicsPosZ) == s@);
            return Ok(ChannelSource::GraphicsPosZ);
        }
        if str_eq(s, "clutch") {
            assert(channel_source_name(ChannelSource::Clutch) == s@);
            return Ok(ChannelSource::Clutch);
        }
        if str_eq(s, "fuel") {
            assert(channel_source_name(ChannelSource::Fuel) == s@);
            return Ok(ChannelSource::Fuel);
        }
        if str_eq(s, "tc") {
            assert(channel_source_name(ChannelSource::Tc) == s@);
            return Ok(ChannelSource::Tc);
        }
        if str_eq(s, "abs") {
            assert(channel_source_name(ChannelSource::Abs) == s@);
            return Ok(ChannelSource::Abs);
        }
        if str_eq(s, "turbo_boost") {
            assert(channel_source_name(ChannelSource::TurboBoost) == s@);
            return Ok(ChannelSource::TurboBoost);
        }
        if str_eq(s, "air_temp") {
            assert(channel_source_name(ChannelSource::AirTemp) == s@);
            return Ok(ChannelSource::AirTemp);
        }
        if str_eq(s, "road_temp") {
            assert(channel_source_name(ChannelSource::RoadTemp) == s@);
            return Ok(ChannelSource::RoadTemp);
        }
        if str_eq(s, "water_temp") {
            assert(channel_source_name(ChannelSource::WaterTemp) == s@);
            return Ok(ChannelSource::WaterTemp);
        }
        if str_eq(s, "heading") {
            assert(channel_source_name(ChannelSource::Heading) == s@);
            return Ok(ChannelSource::Heading);
        }
        if str_eq(s, "pitch") {
            assert(channel_source_name(ChannelSource::Pitch) == s@);
            return Ok(ChannelSource::Pitch);
        }
        if str_eq(s, "roll") {
            assert(channel_source_name(ChannelSource::Roll) == s@);
            return Ok(ChannelSource::Roll);
        }
        if str_eq(s, "brake_pressure_fl") {
            assert(channel_source_name(ChannelSource::BrakePressureFl) == s@);
            return Ok(ChannelSource::BrakePressureFl);
        }
        if str_eq(s, "brake_pressure_fr") {
            assert(channel_source_name(ChannelSource::BrakePressureFr) == s@);
            return Ok(ChannelSource::BrakePressureFr);
        }
        if str_eq(s, "brake_pressure_rl") {
            assert(channel_source_name(ChannelSource::BrakePressureRl) == s@);
            return Ok(ChannelSource::BrakePressureRl);
        }
        if str_eq(s, "brake_pressure_rr") {
            assert(channel_source_name(ChannelSource::BrakePressureRr) == s@);
            return Ok(ChannelSource::BrakePressureRr);
        }
        if str_eq(s, "slip_angle_fl") {
            assert(channel_source_name(ChannelSource::SlipAngleFl) == s@);
            return Ok(ChannelSource::SlipAngleFl);
        }
        if str_eq(s, "slip_angle_fr") {
            assert(channel_source_name(ChannelSource::SlipAngleFr) == s@);
            return Ok(ChannelSource::SlipAngleFr);
        }
        if str_eq(s, "slip_angle_rl") {
            assert(channel_source_name(ChannelSource::SlipAngleRl) == s@);
            return Ok(ChannelSource::SlipAngleRl);
        }
        if str_eq(s, "slip_angle_rr") {
            assert(channel_source_name(ChannelSource::SlipAngleRr) == s@);
            return Ok(ChannelSource::SlipAngleRr);
        }
        if str_eq(s, "ride_height_front") {
            assert(channel_source_name(ChannelSource::RideHeightFront) == s@);
            return Ok(ChannelSource::RideHeightFront);
        }
        if str_eq(s, "ride_height_rear") {
            assert(channel_source_name(ChannelSource::RideHeightRear) == s@);
            return Ok(ChannelSource::RideHeightRear);
        }
        if str_eq(s, "car_damage_front") {
            assert(channel_source_name(ChannelSource::CarDamageFront) == s@);
            return Ok(ChannelSource::CarDamageFront);
        }
        if str_eq(s, "car_damage_rear") {
            assert(channel_source_name(ChannelSource::CarDamageRear) == s@);
            return Ok(ChannelSource::CarDamageRear);
        }
        if str_eq(s, "car_damage_left") {
            assert(channel_source_name(ChannelSource::CarDamageLeft) == s@);
            return Ok(ChannelSource::CarDamageLeft);
        }
        if str_eq(s, "car_damage_right") {
            assert(channel_source_name(ChannelSource::CarDamageRight) == s@);
            return Ok(ChannelSource::CarDamageRight);
        }
        if str_eq(s, "car_damage_center") {
            assert(channel_source_name(ChannelSource::CarDamageCenter) == s@);
            return Ok(ChannelSource::CarDamageCenter);
        }
        if str_eq(s, "wheel_load_fl") {
            assert(channel_source_name(ChannelSource::WheelLoadFl) == s@);
            return Ok(ChannelSource::WheelLoadFl);
        }
        if str_eq(s, "wheel_load_fr") {
            assert(channel_source_name(ChannelSource::WheelLoadFr) == s@);
            return Ok(ChannelSource::WheelLoadFr);
        }
        if str_eq(s, "wheel_load_rl") {
            assert(channel_source_name(ChannelSource::WheelLoadRl) == s@);
            return Ok(ChannelSource::WheelLoadRl);
        }
        if str_eq(s, "wheel_load_rr") {
            assert(channel_source_name(ChannelSource::WheelLoadRr) == s@);
            return Ok(ChannelSource::WheelLoadRr);
        }
        if str_eq(s, "wheel_slip_fl") {
            assert(channel_source_name(ChannelSource::WheelSlipFl) == s@);
            return Ok(ChannelSource::WheelSlipFl);
        }
        if str_eq(s, "wheel_slip_fr") {
            assert(channel_source_name(ChannelSource::WheelSlipFr) == s@);
            return Ok(ChannelSource::WheelSlipFr);
        }
        if str_eq(s, "wheel_slip_rl") {
            assert(channel_source_name(ChannelSource::WheelSlipRl) == s@);
            return Ok(ChannelSource::WheelSlipRl);
        }
        if str_eq(s, "wheel_slip_rr") {
            assert(channel_source_name(ChannelSource::WheelSlipRr) == s@);
            return Ok(ChannelSource::WheelSlipRr);
        }
        if str_eq(s, "camber_rad_fl") {
            assert(channel_source_name(ChannelSource::CamberRadFl) == s@);
            return Ok(ChannelSource::CamberRadFl);
        }
        if str_eq(s, "camber_rad_fr") {
            assert(channel_source_name(ChannelSource::CamberRadFr) == s@);
            return Ok(ChannelSource::CamberRadFr);
        }
        if str_eq(s, "camber_rad_rl") {
            assert(channel_source_name(ChannelSource::CamberRadRl) == s@);
            return Ok(ChannelSource::CamberRadRl);
        }
        if str_eq(s, "camber_rad_rr") {
            assert(channel_source_name(ChannelSource::CamberRadRr) == s@);
            return Ok(ChannelSource::CamberRadRr);
        }
        if str_eq(s, "suspension_damage_fl") {
            assert(channel_source_name(ChannelSource::SuspensionDamageFl) == s@);
            return Ok(ChannelSource::SuspensionDamageFl);
        }
        if str_eq(s, "suspension_damage_fr") {
            assert(channel_source_name(ChannelSource::SuspensionDamageFr) == s@);
            return Ok(ChannelSource::SuspensionDamageFr);
        }
        if str_eq(s, "suspension_damage_rl") {
            assert(channel_source_name(ChannelSource::SuspensionDamageRl) == s@);
            return Ok(ChannelSource::SuspensionDamageRl);
        }
        if str_eq(s, "suspension_damage_rr") {
            assert(channel_source_name(ChannelSource::SuspensionDamageRr) == s@);
            return Ok(ChannelSource::SuspensionDamageRr);
        }
        if str_eq(s, "slip_ratio_fl") {
            assert(channel_source_name(ChannelSource::SlipRatioFl) == s@);
            return Ok(ChannelSource::SlipRatioFl);
        }
        if str_eq(s, "slip_ratio_fr") {
            assert(channel_source_name(ChannelSource::SlipRatioFr) == s@);
            return Ok(ChannelSource::SlipRatioFr);
        }
        if str_eq(s, "slip_ratio_rl") {
            assert(channel_source_name(ChannelSource::SlipRatioRl) == s@);
            return Ok(ChannelSource::SlipRatioRl);
        }
        if str_eq(s, "slip_ratio_rr") {
            assert(channel_source_name(ChannelSource::SlipRatioRr) == s@);
            return Ok(ChannelSource::SlipRatioRr);
        }
        if str_eq(s, "pad_life_fl") {
            assert(channel_source_name(ChannelSource::PadLifeFl) == s@);
            return Ok(ChannelSource::PadLifeFl);
        }
        if str_eq(s, "pad_life_fr") {
            assert(channel_source_name(ChannelSource::PadLifeFr) == s@);
            return Ok(ChannelSource::PadLifeFr);
        }
        if str_eq(s, "pad_life_rl") {
            assert(channel_source_name(ChannelSource::PadLifeRl) == s@);
            return Ok(ChannelSource::PadLifeRl);
        }
        if str_eq(s, "pad_life_rr") {
            assert(channel_source_name(ChannelSource::PadLifeRr) == s@);
            return Ok(ChannelSource::PadLifeRr);
        }
        if str_eq(s, "disc_life_fl") {
            assert(channel_source_name(ChannelSource::DiscLifeFl) == s@);
            return Ok(ChannelSource::DiscLifeFl);
        }
        if str_eq(s, "disc_life_fr") {
            assert(channel_source_name(ChannelSource::DiscLifeFr) == s@);
            return Ok(ChannelSource::DiscLifeFr);
        }
        if str_eq(s, "disc_life_rl") {
            assert(channel_source_name(ChannelSource::DiscLifeRl) == s@);
            return Ok(ChannelSource::DiscLifeRl);
        }
        if str_eq(s, "disc_life_rr") {
            assert(channel_source_name(ChannelSource::DiscLifeRr) == s@);
            return Ok(ChannelSource::DiscLifeRr);
        }
        if str_eq(s, "front_brake_compound") {
            assert(channel_source_name(ChannelSource::FrontBrakeCompound) == s@);
            return Ok(ChannelSource::FrontBrakeCompound);
        }
        if str_eq(s, "rear_brake_compound") {
            assert(channel_source_name(ChannelSource::RearBrakeCompound) == s@);
            return Ok(ChannelSource::RearBrakeCompound);
        }
        if str_eq(s, "tyre_dirty_level_fl") {
            assert(channel_source_name(ChannelSource::TyreDirtyLevelFl) == s@);
            return Ok(ChannelSource::TyreDirtyLevelFl);
        }
        if str_eq(s, "tyre_dirty_level_fr") {
            assert(channel_source_name(ChannelSource::TyreDirtyLevelFr) == s@);
            return Ok(ChannelSource::TyreDirtyLevelFr);
        }
        if str_eq(s, "tyre_dirty_level_rl") {
            assert(channel_source_name(ChannelSource::TyreDirtyLevelRl) == s@);
            return Ok(ChannelSource::TyreDirtyLevelRl);
        }
        if str_eq(s, "tyre_dirty_level_rr") {
            assert(channel_source_name(ChannelSource::TyreDirtyLevelRr) == s@);
            return Ok(ChannelSource::TyreDirtyLevelRr);
        }
        if str_eq(s, "tyre_temp_i_fl") {
            assert(channel_source_name(ChannelSource::TyreTempIFl) == s@);
            return Ok(ChannelSource::TyreTempIFl);
        }
        if str_eq(s, "tyre_temp_i_fr") {
            assert(channel_source_name(ChannelSource::TyreTempIFr) == s@);
            return Ok(ChannelSource::TyreTempIFr);
        }
        if str_eq(s, "tyre_temp_i_rl") {
            assert(channel_source_name(ChannelSource::TyreTempIRl) == s@);
            return Ok(ChannelSource::TyreTempIRl);
        }
        if str_eq(s, "tyre_temp_i_rr") {
            assert(channel_source_name(ChannelSource::TyreTempIRr) == s@);
            return Ok(ChannelSource::TyreTempIRr);
        }
        if str_eq(s, "tyre_temp_m_fl") {
            assert(channel_source_name(ChannelSource::TyreTempMFl) == s@);
            return Ok(ChannelSource::TyreTempMFl);
        }
        if str_eq(s, "tyre_temp_m_fr") {
            assert(channel_source_name(ChannelSource::TyreTempMFr) == s@);
            return Ok(ChannelSource::TyreTempMFr);
        }
        if str_eq(s, "tyre_temp_m_rl") {
            assert(channel_source_name(ChannelSource::TyreTempMRl) == s@);
            return Ok(ChannelSource::TyreTempMRl);
        }
        if str_eq(s, "tyre_temp_m_rr") {
            assert(channel_source_name(ChannelSource::TyreTempMRr) == s@);
            return Ok(ChannelSource::TyreTempMRr);
        }
        if str_eq(s, "tyre_temp_o_fl") {
            assert(channel_source_name(ChannelSource::TyreTempOFl) == s@);
            return Ok(ChannelSource::TyreTempOFl);
        }
        if str_eq(s, "tyre_temp_o_fr") {
            assert(channel_source_name(ChannelSource::TyreTempOFr) == s@);
            return Ok(ChannelSource::TyreTempOFr);
        }
        if str_eq(s, "tyre_temp_o_rl") {
            assert(channel_source_name(ChannelSource::TyreTempORl) == s@);
            return Ok(ChannelSource::TyreTempORl);
        }
        if str_eq(s, "tyre_temp_o_rr") {
            assert(channel_source_name(ChannelSource::TyreTempORr) == s@);
            return Ok(ChannelSource::TyreTempORr);
        }
        if str_eq(s, "tyre_temp_extra_fl") {
            assert(channel_source_name(ChannelSource::TyreTempExtraFl) == s@);
            return Ok(ChannelSource::TyreTempExtraFl);
        }
        if str_eq(s, "tyre_temp_extra_fr") {
            assert(channel_source_name(ChannelSource::TyreTempExtraFr) == s@);
            return Ok(ChannelSource::TyreTempExtraFr);
        }
        if str_eq(s, "tyre_temp_extra_rl") {
            assert(channel_source_name(ChannelSource::TyreTempExtraRl) == s@);
            return Ok(ChannelSource::TyreTempExtraRl);
        }
        if str_eq(s, "tyre_temp_extra_rr") {
            assert(channel_source_name(ChannelSource::TyreTempExtraRr) == s@);
            return Ok(ChannelSource::TyreTempExtraRr);
        }
        if str_eq(s, "tyre_contact_normal_x_fl") {
            assert(channel_source_name(ChannelSource::TyreContactNormalXFl) == s@);
            return Ok(ChannelSource::TyreContactNormalXFl);
        }
        if str_eq(s, "tyre_contact_normal_y_fl") {
            assert(channel_source_name(ChannelSource::TyreContactNormalYFl) == s@);
            return Ok(ChannelSource::TyreContactNormalYFl);
        }
        if str_eq(s, "tyre_contact_normal_z_fl") {
            assert(channel_source_name(ChannelSource::TyreContactNormalZFl) == s@);
            return Ok(ChannelSource::TyreContactNormalZFl);
        }
        if str_eq(s, "tyre_contact_normal_x_fr") {
            assert(channel_source_name(ChannelSource::TyreContactNormalXFr) == s@);
            return Ok(ChannelSource::TyreContactNormalXFr);
        }
        if str_eq(s, "tyre_contact_normal_y_fr") {
            assert(channel_source_name(ChannelSource::TyreContactNormalYFr) == s@);
            return Ok(ChannelSource::TyreContactNormalYFr);
        }
        if str_eq(s, "tyre_contact_normal_z_fr") {
            assert(channel_source_name(ChannelSource::TyreContactNormalZFr) == s@);
            return Ok(ChannelSource::TyreContactNormalZFr);
        }
        if str_eq(s, "tyre_contact_normal_x_rl") {
            assert(channel_source_name(ChannelSource::TyreContactNormalXRl) == s@);
            return Ok(ChannelSource::TyreContactNormalXRl);
        }
        if str_eq(s, "tyre_contact_normal_y_rl") {
            assert(channel_source_name(ChannelSource::TyreContactNormalYRl) == s@);
            return Ok(ChannelSource::TyreContactNormalYRl);
        }
        if str_eq(s, "tyre_contact_normal_z_rl") {
            assert(channel_source_name(ChannelSource::TyreContactNormalZRl) == s@);
            return Ok(ChannelSource::TyreContactNormalZRl);
        }
        if str_eq(s, "tyre_contact_normal_x_rr") {
            assert(channel_source_name(ChannelSource::TyreContactNormalXRr) == s@);
            return Ok(ChannelSource::TyreContactNormalXRr);
        }
        if str_eq(s, "tyre_contact_normal_y_rr") {
            assert(channel_source_name(ChannelSource::TyreContactNormalYRr) == s@);
            return Ok(ChannelSource::TyreContactNormalYRr);
        }
        if str_eq(s, "tyre_contact_normal_z_rr") {
            assert(channel_source_name(ChannelSource::TyreContactNormalZRr) == s@);
            return Ok(ChannelSource::TyreContactNormalZRr);
        }
        if str_eq(s, "tyre_contact_heading_x_fl") {
            assert(channel_source_name(ChannelSource::TyreContactHeadingXFl) == s@);
            return Ok(ChannelSource::TyreContactHeadingXFl);
        }
        if str_eq(s, "tyre_contact_heading_y_fl") {
            assert(channel_source_name(ChannelSource::TyreContactHeadingYFl) == s@);
            return Ok(ChannelSource::TyreContactHeadingYFl);
        }
        if str_eq(s, "tyre_contact_heading_z_fl") {
            assert(channel_source_name(ChannelSource::TyreContactHeadingZFl) == s@);
            return Ok(ChannelSource::TyreContactHeadingZFl);
        }
        if str_eq(s, "tyre_contact_heading_x_fr") {
            assert(channel_source_name(ChannelSource::TyreContactHeadingXFr) == s@);
            return Ok(ChannelSource::TyreContactHeadingXFr);
        }
        if str_eq(s, "tyre_contact_heading_y_fr") {
            assert(channel_source_name(ChannelSource::TyreContactHeadingYFr) == s@);
            return Ok(ChannelSource::TyreContactHeadingYFr);
        }
        if str_eq(s, "tyre_contact_heading_z_fr") {
            assert(channel_source_name(ChannelSource::TyreContactHeadingZFr) == s@);
            return Ok(ChannelSource::TyreContactHeadingZFr);
        }
        if str_eq(s, "tyre_contact_heading_x_rl") {
            assert(channel_source_name(ChannelSource::TyreContactHeadingXRl) == s@);
            return Ok(ChannelSource::TyreContactHeadingXRl);
        }
        if str_eq(s, "tyre_contact_heading_y_rl") {
            assert(channel_source_name(ChannelSource::TyreContactHeadingYRl) == s@);
            return Ok(ChannelSource::TyreContactHeadingYRl);
        }
        if str_eq(s, "tyre_contact_heading_z_rl") {
            assert(channel_source_name(ChannelSource::TyreContactHeadingZRl) == s@);
            return Ok(ChannelSource::TyreContactHeadingZRl);
        }
        if str_eq(s, "tyre_contact_heading_x_rr") {
            assert(channel_source_name(ChannelSource::TyreContactHeadingXRr) == s@);
            return Ok(ChannelSource::TyreContactHeadingXRr);
        }
        if str_eq(s, "tyre_contact_heading_y_rr") {
            assert(channel_source_name(ChannelSource::TyreContactHeadingYRr) == s@);
            return Ok(ChannelSource::TyreContactHeadingYRr);
        }
        if str_eq(s, "tyre_contact_heading_z_rr") {
            assert(channel_source_name(ChannelSource::TyreContactHeadingZRr) == s@);
            return Ok(ChannelSource::TyreContactHeadingZRr);
        }
        if str_eq(s, "velocity_x") {
            assert(channel_source_name(ChannelSource::VelocityX) == s@);
            return Ok(ChannelSource::VelocityX);
        }
        if str_eq(s, "velocity_y") {
            assert(channel_source_name(ChannelSource::VelocityY) == s@);
            return Ok(ChannelSource::VelocityY);
        }
        if str_eq(s, "velocity_z") {
            assert(channel_source_name(ChannelSource::VelocityZ) == s@);
            return Ok(ChannelSource::VelocityZ);
        }
        if str_eq(s, "local_velocity_x") {
            assert(channel_source_name(ChannelSource::LocalVelocityX) == s@);
            return Ok(ChannelSource::LocalVelocityX);
        }
        if str_eq(s, "local_velocity_y") {
            assert(channel_source_name(ChannelSource::LocalVelocityY) == s@);
            return Ok(ChannelSource::LocalVelocityY);
        }
        if str_eq(s, "local_velocity_z") {
            assert(channel_source_name(ChannelSource::LocalVelocityZ) == s@);
            return Ok(ChannelSource::LocalVelocityZ);
        }
        if str_eq(s, "local_angular_vel_x") {
            assert(channel_source_name(ChannelSource::LocalAngularVelX) == s@);
            return Ok(ChannelSource::LocalAngularVelX);
        }
        if str_eq(s, "local_angular_vel_y") {
            assert(channel_source_name(ChannelSource::LocalAngularVelY) == s@);
            return Ok(ChannelSource::LocalAngularVelY);
        }
        if str_eq(s, "local_angular_vel_z") {
            assert(channel_source_name(ChannelSource::LocalAngularVelZ) == s@);
            return Ok(ChannelSource::LocalAngularVelZ);
        }
        if str_eq(s, "final_ff") {
            assert(channel_source_name(ChannelSource::FinalFf) == s@);
            return Ok(ChannelSource::FinalFf);
        }
        if str_eq(s, "brake_bias") {
            assert(channel_source_name(ChannelSource::BrakeBias) == s@);
            return Ok(ChannelSource::BrakeBias);
        }
        if str_eq(s, "tc_in_action") {
            assert(channel_source_name(ChannelSource::TcInAction) == s@);
            return Ok(ChannelSource::TcInAction);
        }
        if str_eq(s, "abs_in_action") {
            assert(channel_source_name(ChannelSource::AbsInAction) == s@);
            return Ok(ChannelSource::AbsInAction);
        }
        if str_eq(s, "pit_limiter_on") {
            assert(channel_source_name(ChannelSource::PitLimiterOn) == s@);
            return Ok(ChannelSource::PitLimiterOn);
        }
        if str_eq(s, "is_ai_controlled") {
            assert(channel_source_name(ChannelSource::IsAiControlled) == s@);
            return Ok(ChannelSource::IsAiControlled);
        }
        if str_eq(s, "drs") {
            assert(channel_source_name(ChannelSource::Drs) == s@);
            return Ok(ChannelSource::Drs);
        }
        if str_eq(s, "cg_height") {
            assert(channel_source_name(ChannelSource::CgHeight) == s@);
            return Ok(ChannelSource::CgHeight);
        }
        if str_eq(s, "number_of_tyres_out") {
            assert(channel_source_name(ChannelSource::NumberOfTyresOut) == s@);
            return Ok(ChannelSource::NumberOfTyresOut);
        }
        if str_eq(s, "kers_charge") {
            assert(channel_source_name(ChannelSource::KersCharge) == s@);
            return Ok(ChannelSource::KersCharge);
        }
        if str_eq(s, "kers_input") {
            assert(channel_source_name(ChannelSource::KersInput) == s@);
            return Ok(ChannelSource::KersInput);
        }
        if str_eq(s, "kers_current_kj") {
            assert(channel_source_name(ChannelSource::KersCurrentKj) == s@);
            return Ok(ChannelSource::KersCurrentKj);
        }
        if str_eq(s, "ballast") {
            assert(channel_source_name(ChannelSource::Ballast) == s@);
            return Ok(ChannelSource::Ballast);
        }
        if str_eq(s, "air_density") {
            assert(channel_source_name(ChannelSource::AirDensity) == s@);
            return Ok(ChannelSource::AirDensity);
        }
        if str_eq(s, "performance_meter") {
            assert(channel_source_name(ChannelSource::PerformanceMeter) == s@);
            return Ok(ChannelSource::PerformanceMeter);
        }
        if str_eq(s, "engine_brake") {
            assert(channel_source_name(ChannelSource::EngineBrake) == s@);
            return Ok(ChannelSource::EngineBrake);
        }
        if str_eq(s, "ers_recovery_level") {
            assert(channel_source_name(ChannelSource::ErsRecoveryLevel) == s@);
            return Ok(ChannelSource::ErsRecoveryLevel);
        }
        if str_eq(s, "ers_power_level") {
            assert(channel_source_name(ChannelSource::ErsPowerLevel) == s@);
            return Ok(ChannelSource::ErsPowerLevel);
        }
        if str_eq(s, "ers_heat_charging") {
            assert(channel_source_name(ChannelSource::ErsHeatCharging) == s@);
            return Ok(ChannelSource::ErsHeatCharging);
        }
        if str_eq(s, "ers_is_charging") {
            assert(channel_source_name(ChannelSource::ErsIsCharging) == s@);
            return Ok(ChannelSource::ErsIsCharging);
        }
        if str_eq(s, "drs_available") {
            assert(channel_source_name(ChannelSource::DrsAvailable) == s@);
            return Ok(ChannelSource::DrsAvailable);
        }
        if str_eq(s, "drs_enabled") {
            assert(channel_source_name(ChannelSource::DrsEnabled) == s@);
            return Ok(ChannelSource::DrsEnabled);
        }
        if str_eq(s, "p2p_activation") {
            assert(channel_source_name(ChannelSource::P2pActivation) == s@);
            return Ok(ChannelSource::P2pActivation);
        }
        if str_eq(s, "p2p_status") {
            assert(channel_source_name(ChannelSource::P2pStatus) == s@);
            return Ok(ChannelSource::P2pStatus);
        }
        if str_eq(s, "current_max_rpm") {
            assert(channel_source_name(ChannelSource::CurrentMaxRpm) == s@);
            return Ok(ChannelSource::CurrentMaxRpm);
        }
        if str_eq(s, "mz_fl") {
            assert(channel_source_name(ChannelSource::MzFl) == s@);
            return Ok(ChannelSource::MzFl);
        }
        if str_eq(s, "mz_fr") {
            assert(channel_source_name(ChannelSource::MzFr) == s@);
            return Ok(ChannelSource::MzFr);
        }
        if str_eq(s, "mz_rl") {
            assert(channel_source_name(ChannelSource::MzRl) == s@);
            return Ok(ChannelSource::MzRl);
        }
        if str_eq(s, "mz_rr") {
            assert(channel_source_name(ChannelSource::MzRr) == s@);
            return Ok(ChannelSource::MzRr);
        }
        if str_eq(s, "fz_fl") {
            assert(channel_source_name(ChannelSource::FzFl) == s@);
            return Ok(ChannelSource::FzFl);
        }
        if str_eq(s, "fz_fr") {
            assert(channel_source_name(ChannelSource::FzFr) == s@);
            return Ok(ChannelSource::FzFr);
        }
        if str_eq(s, "fz_rl") {
            assert(channel_source_name(ChannelSource::FzRl) == s@);
            return Ok(ChannelSource::FzRl);
        }
        if str_eq(s, "fz_rr") {
            assert(channel_source_name(ChannelSource::FzRr) == s@);
            return Ok(ChannelSource::FzRr);
        }
        if str_eq(s, "my_fl") {
            assert(channel_source_name(ChannelSource::MyFl) == s@);
            return Ok(ChannelSource::MyFl);
        }
        if str_eq(s, "my_fr") {
            assert(channel_source_name(ChannelSource::MyFr) == s@);
            return Ok(ChannelSource::MyFr);
        }
        if str_eq(s, "my_rl") {
            assert(channel_source_name(ChannelSource::MyRl) == s@);
            return Ok(ChannelSource::MyRl);
        }
        if str_eq(s, "my_rr") {
            assert(channel_source_name(ChannelSource::MyRr) == s@);
            return Ok(ChannelSource::MyRr);
        }
        if str_eq(s, "kerb_vibration") {
            assert(channel_source_name(ChannelSource::KerbVibration) == s@);
            return Ok(ChannelSource::KerbVibration);
        }
        if str_eq(s, "slip_vibration") {
            assert(channel_source_name(ChannelSource::SlipVibration) == s@);
            return Ok(ChannelSource::SlipVibration);
        }
        if str_eq(s, "g_vibration") {
            assert(channel_source_name(ChannelSource::GVibration) == s@);
            return Ok(ChannelSource::GVibration);
        }
        if str_eq(s, "abs_vibration") {
            assert(channel_source_name(ChannelSource::AbsVibration) == s@);
            return Ok(ChannelSource::AbsVibration);
        }
        if str_eq(s, "autoshifter_on") {
            assert(channel_source_name(ChannelSource::AutoshifterOn) == s@);
            return Ok(ChannelSource::AutoshifterOn);
        }
        if str_eq(s, "ignition_on") {
            assert(channel_source_name(ChannelSource::IgnitionOn) == s@);
            return Ok(ChannelSource::IgnitionOn);
        }
        if str_eq(s, "starter_engine_on") {
            assert(channel_source_name(ChannelSource::StarterEngineOn) == s@);
            return Ok(ChannelSource::StarterEngineOn);
        }
        if str_eq(s, "is_engine_running") {
            assert(channel_source_name(ChannelSource::IsEngineRunning) == s@);
            return Ok(ChannelSource::IsEngineRunning);
        }
        if str_eq(s, "packet_id") {
            assert(channel_source_name(ChannelSource::PacketId) == s@);
            return Ok(ChannelSource::PacketId);
        }
        let mut m = String::from_str("unknown MoTeC channel source '");
        m.append(s);
        m.append("'");
        Err(m)
    }
}

/// Whether some channel source is named `t`.
pub open spec fn is_source_name(t: Seq<char>) -> bool {
    exists|v: ChannelSource| channel_source_name(v) == t
}

/// One `[[channels]]` entry of a profile file: the channel name and unit, the name of its
/// source, the scale and offset (the bits of `f32` values) and whether it needs graphics.
pub struct ChannelSpec {
    pub name: String,
    pub unit: String,
    pub source: String,
    pub scale_bits: u32,
    pub offset_bits: u32,
    pub graphics: bool,
}

/// A channel of a loaded profile; scale and offset are the bits of `f32` values.
pub struct ProfileChannel {
    pub name: String,
    pub unit: String,
    pub source: ChannelSource,
    pub scale_bits: u32,
    pub offset_bits: u32,
    pub graphics_only: bool,
}

/// A MoTeC channel profile.
pub struct MotecProfile {
    pub id: String,
    pub description: String,
    pub channels: Vec<ProfileChannel>,
}

/// The message for a profile without channels.
pub open spec fn no_channels_message(id: Seq<char>) -> Seq<char> {
    "profile '"@ + id + "' has no [[channels]]"@
}

/// A channel profile shipped with the recorder.
pub enum BuiltinProfile {
    Rbr,
    Rally,
    AllData,
}

/// The message for a profile that is neither a file nor shipped with the recorder.
pub open spec fn missing_profile_message(id: Seq<char>) -> Seq<char> {
    "MoTeC profile '"@ + id + "' not found in motec_profiles/ and no built-in profile"@
}

/// The shipped profile named `profile_id` (`rbr`, `rally` or `all_data`); any other name
/// is refused.
pub fn builtin_profile(profile_id: &str) -> (r: Result<BuiltinProfile, String>)
    ensures
        profile_id@ == "rbr"@ <==> r matches Ok(BuiltinProfile::Rbr),
        profile_id@ == "rally"@ <==> r matches Ok(BuiltinProfile::Rally),
        profile_id@ == "all_data"@ <==> r matches Ok(BuiltinProfile::AllData),
        r matches Err(m) ==> m@ == missing_profile_message(profile_id@),
{
    proof {
        reveal_strlit("rbr");
        reveal_strlit("rally");
        reveal_strlit("all_data");
        assert("rbr"@.len() == 3 && "rally"@.len() == 5 && "all_data"@.len() == 8);
        assert("rbr"@ != "rally"@ && "rbr"@ != "all_data"@ && "rally"@ != "all_data"@);
    }
    if str_eq(profile_id, "rbr") {
        Ok(BuiltinProfile::Rbr)
    } else if str_eq(profile_id, "rally") {
        Ok(BuiltinProfile::Rally)
    } else if str_eq(profile_id, "all_data") {
        Ok(BuiltinProfile::AllData)
    } else {
        let mut m = String::from_str("MoTeC profile '");
        m.append(profile_id);
        m.append("' not found in motec_profiles/ and no built-in profile");
        Err(m)
    }
}

/// The profile directory the configuration names: none when the setting is blank.
pub fn default_profiles_dir(configured: &str) -> (r: Option<String>)
    ensures
        trimmed(configured@).len() == 0 <==> r is None,
        r matches Some(d) ==> d@ == configured@,
{
    let t = trim(configured);
    if t.as_str().is_empty() {
        None
    } else {
        Some(configured.to_owned())
    }
}

/// The message for a profile name that is blank.
pub open spec fn empty_profile_name_message() -> Seq<char> {
    "MoTeC profile name is empty"@
}

/// The profile id given by the user, without surrounding whitespace; a blank name is
/// refused.
pub fn checked_profile_id(profile_id: &str) -> (r: Result<String, String>)
    ensures
        r is Err <==> trimmed(profile_id@).len() == 0,
        r matches Ok(id) ==> id@ == trimmed(profile_id@),
        r matches Err(m) ==> m@ == empty_profile_name_message(),
{
    let id = trim(profile_id);
    if id.as_str().is_empty() {
        return Err(String::from_str("MoTeC profile name is empty"));
    }
    Ok(id)
}

/// Builds a profile from the entries of its file: refused when there are no entries or
/// when an entry names no channel source (the first such entry is reported).
pub fn profile_from_specs(id: &str, description: String, specs: &Vec<ChannelSpec>) -> (r: Result<
    MotecProfile,
    String,
>)
    ensures
        r is Ok <==> specs@.len() > 0 && forall|i: int|
            0 <= i < specs@.len() ==> is_source_name(#[trigger] specs@[i].source@),
        specs@.len() == 0 ==> (r matches Err(m) && m@ == no_channels_message(id@)),
        r matches Err(m) ==> specs@.len() == 0 || exists|i: int|
            0 <= i < specs@.len() && !is_source_name(#[trigger] specs@[i].source@) && (forall|j: int|
                0 <= j < i ==> is_source_name(#[trigger] specs@[j].source@)) && m@
                == unknown_source_message(specs@[i].source@),
        r matches Ok(p) ==> {
            &&& p.id@ == id@
            &&& p.description == description
            &&& p.channels@.len() == specs@.len()
            &&& forall|i: int|
                0 <= i < specs@.len() ==> {
                    let c = #[trigger] p.channels@[i];
                    let e = specs@[i];
                    &&& c.name == e.name
                    &&& c.unit == e.unit
                    &&& channel_source_name(c.source) == e.source@
                    &&& c.scale_bits == e.scale_bits
                    &&& c.offset_bits == e.offset_bits
                    &&& c.graphics_only == e.graphics
                }
        },
{
    if specs.len() == 0 {
        let mut m = String::from_str("profile '");
        m.append(id);
        m.append("' has no [[channels]]");
        return Err(m);
    }
    let mut channels: Vec<ProfileChannel> = Vec::new();
    let mut i: usize = 0;
    while i < specs.len()
        invariant
            i <= specs@.len(),
            channels@.len() == i,
            forall|j: int| 0 <= j < i ==> is_source_name(#[trigger] specs@[j].source@),
            forall|j: int|
                0 <= j < i ==> {
                    let c = #[trigger] channels@[j];
                    let e = specs@[j];
                    &&& c.name == e.name
                    &&& c.unit == e.unit
                    &&& channel_source_name(c.source) == e.source@
                    &&& c.scale_bits == e.scale_bits
                    &&& c.offset_bits == e.offset_bits
                    &&& c.graphics_only == e.graphics
                },
        decreases specs@.len() - i,
    {
        let e = &specs[i];
        match ChannelSource::parse(e.source.as_str()) {
            Ok(source) => {
                channels.push(
                    ProfileChannel {
                        name: e.name.clone(),
                        unit: e.unit.clone(),
                        source,
                        scale_bits: e.scale_bits,
                        offset_bits: e.offset_bits,
                        graphics_only: e.graphics,
                    },
                );
            },
            Err(m) => {
                assert(!is_source_name(specs@[i as int].source@));
                return Err(m);
            },
        }
        i = i + 1;
    }
    let mut pid = String::new();
    pid.append(id);
    Ok(MotecProfile { id: pid, description, channels })
}

// ---------------------------------------------------------------- channels of a file

/// The channels of the first `n` profile entries that go into a `.ld` file: an entry
/// that needs graphics is left out when there is no graphics stream.
pub open spec fn ld_selected(
    chs: Seq<ProfileChannel>,
    samples: Seq<Vec<u32>>,
    has_graphics: bool,
    n: int,
) -> Seq<LdChannelView>
    decreases n,
{
    if n <= 0 {
        Seq::empty()
    } else {
        let prev = ld_selected(chs, samples, has_graphics, n - 1);
        if chs[n - 1].graphics_only && !has_graphics {
            prev
        } else {
            prev.push(
                LdChannelView {
                    name: chs[n - 1].name@,
                    unit: chs[n - 1].unit@,
                    samples: samples[n - 1]@,
                },
            )
        }
    }
}

/// The channels of a profile that go into a `.ld` file.
pub open spec fn ld_profile_channels(
    profile: MotecProfile,
    samples: Seq<Vec<u32>>,
    has_graphics: bool,
) -> Seq<LdChannelView> {
    ld_selected(profile.channels@, samples, has_graphics, profile.channels@.len() as int)
}

/// The message for a profile none of whose channels goes into the file.
pub open spec fn no_ld_channels_message(id: Seq<char>) -> Seq<char> {
    "MoTeC profile '"@ + id + "' produced no channels"@
}

fn copy_words(v: &Vec<u32>) -> (r: Vec<u32>)
    ensures
        r@ == v@,
{
    let mut out: Vec<u32> = Vec::new();
    let mut i: usize = 0;
    while i < v.len()
        invariant
            i <= v@.len(),
            out@ == v@.take(i as int),
        decreases v@.len() - i,
    {
        out.push(v[i]);
        i = i + 1;
        assert(out@ =~= v@.take(i as int));
    }
    assert(v@.take(v@.len() as int) =~= v@);
    out
}

fn select_ld_channels(profile: &MotecProfile, samples: &Vec<Vec<u32>>, has_graphics: bool) -> (r: Vec<
    LdChannel,
>)
    requires
        samples@.len() == profile.channels@.len(),
    ensures
        ld_views(r@) == ld_profile_channels(*profile, samples@, has_graphics),
{
    let mut out: Vec<LdChannel> = Vec::new();
    let mut i: usize = 0;
    let n = profile.channels.len();
    while i < n
        invariant
            n == profile.channels@.len(),
            samples@.len() == n,
            i <= n,
            ld_views(out@) == ld_selected(profile.channels@, samples@, has_graphics, i as int),
        decreases n - i,
    {
        let ch = &profile.channels[i];
        if !(ch.graphics_only && !has_graphics) {
            let c = LdChannel {
                name: ch.name.clone(),
                unit: ch.unit.clone(),
                samples: copy_words(&samples[i]),
            };
            let ghost before = out@;
            out.push(c);
            assert(ld_views(out@) =~= ld_views(before).push(c@));
        }
        i = i + 1;
    }
    out
}

/// Whether the channels a profile puts into a `.ld` file fit the file format.
pub fn ld_profile_fits(profile: &MotecProfile, samples: &Vec<Vec<u32>>, has_graphics: bool) -> (r:
    bool)
    requires
        samples@.len() == profile.channels@.len(),
    ensures
        r == ld_fits(ld_profile_channels(*profile, samples@, has_graphics)),
{
    let chs = select_ld_channels(profile, samples, has_graphics);
    crate::motec_ld::ld_channels_fit(&chs)
}

/// The bytes written, or the message of the refusal.
pub open spec fn ld_outcome(r: Result<Vec<u8>, String>) -> Result<Seq<u8>, Seq<char>> {
    match r {
        Ok(b) => Ok(b@),
        Err(m) => Err(m@),
    }
}

/// What writing the `.ld` file of `profile` gives, with or without graphics channels:
/// the refusal naming the profile when no channel goes into the file, else the file of
/// the channels that do.
pub open spec fn ld_profile_file(
    profile: MotecProfile,
    samples: Seq<Vec<u32>>,
    sample_rate_hz: int,
    has_graphics: bool,
    now_secs: nat,
) -> Result<Seq<u8>, Seq<char>> {
    let chs = ld_profile_channels(profile, samples, has_graphics);
    if chs.len() == 0 {
        Err(no_ld_channels_message(profile.id@))
    } else {
        Ok(ld_file(chs, sample_rate_hz, profile.id@, profile.description@, now_secs))
    }
}

/// The `.ld` file for a profile whose channels were filled from a recording with a
/// graphics stream (`has_graphics`) or without one: `samples[i]` holds the sample words
/// of the profile's channel `i`. Refused when no channel goes into the file.
pub fn write_ld_with_graphics(
    profile: &MotecProfile,
    samples: &Vec<Vec<u32>>,
    sample_rate_hz: u32,
    has_graphics: bool,
    now_secs: u64,
) -> (r: Result<Vec<u8>, String>)
    requires
        samples@.len() == profile.channels@.len(),
        ld_fits(ld_profile_channels(*profile, samples@, has_graphics)),
    ensures
        ld_outcome(r) == ld_profile_file(*profile, samples@, sample_rate_hz as int, has_graphics, now_secs as nat),
{
    let chs = select_ld_channels(profile, samples, has_graphics);
    if chs.len() == 0 {
        let mut m = String::from_str("MoTeC profile '");
        m.append(profile.id.as_str());
        m.append("' produced no channels");
        return Err(m);
    }
    Ok(encode_ld(&chs, sample_rate_hz, profile.id.as_str(), profile.description.as_str(), now_secs))
}

/// The `.ld` file for a profile whose channels were filled from a recording without a
/// graphics stream (channels that need graphics are left out): what
/// `write_ld_with_graphics` writes without graphics channels.
pub fn write_ld(profile: &MotecProfile, samples: &Vec<Vec<u32>>, sample_rate_hz: u32, now_secs: u64) -> (r:
    Result<Vec<u8>, String>)
    requires
        samples@.len() == profile.channels@.len(),
        ld_fits(ld_profile_channels(*profile, samples@, false)),
    ensures
        ld_outcome(r) == ld_profile_file(*profile, samples@, sample_rate_hz as int, false, now_secs as nat),
{
    write_ld_with_graphics(profile, samples, sample_rate_hz, false, now_secs)
}

// ---------------------------------------------------------------- resampling

/// Index of the graphics sample used for output sample `i` when `src_len` graphics
/// samples are stretched over `target_len` output samples.
pub open spec fn resample_index(i: int, src_len: int, target_len: int) -> int {
    if target_len == 1 || src_len == 1 {
        0
    } else {
        i * (src_len - 1) / (target_len - 1)
    }
}

/// Number of output samples of a resampling.
pub open spec fn resample_len(src_len: int, target_len: int) -> int {
    if target_len == 0 || src_len == 0 {
        0
    } else {
        target_len
    }
}

/// The graphics sample indices for stretching `src_len` graphics samples over
/// `target_len` physics samples (first maps to first, last to last, evenly between).
pub fn resample_indices(src_len: usize, target_len: usize) -> (r: Vec<usize>)
    requires
        target_len <= 1 || src_len <= 1 || (target_len - 1) * (src_len - 1) <= usize::MAX,
    ensures
        r@.len() == resample_len(src_len as int, target_len as int),
        forall|i: int|
            0 <= i < r@.len() ==> #[trigger] r@[i] == resample_index(
                i,
                src_len as int,
                target_len as int,
            ),
        forall|i: int| 0 <= i < r@.len() ==> #[trigger] r@[i] < src_len,
{
    let mut out: Vec<usize> = Vec::new();
    if target_len == 0 || src_len == 0 {
        return out;
    }
    let mut i: usize = 0;
    while i < target_len
        invariant
            0 < target_len,
            0 < src_len,
            target_len <= 1 || src_len <= 1 || (target_len - 1) * (src_len - 1) <= usize::MAX,
            i <= target_len,
            out@.len() == i,
            forall|k: int|
                0 <= k < i ==> #[trigger] out@[k] == resample_index(
                    k,
                    src_len as int,
                    target_len as int,
                ),
            forall|k: int| 0 <= k < i ==> #[trigger] out@[k] < src_len,
        decreases target_len - i,
    {
        if target_len == 1 || src_len == 1 {
            out.push(0);
        } else {
            assert(i * (src_len - 1) <= (target_len - 1) * (src_len - 1)) by (nonlinear_arith)
                requires
                    i < target_len,
                    src_len >= 1,
            ;
            let v = i * (src_len - 1) / (target_len - 1);
            assert(v <= src_len - 1) by (nonlinear_arith)
                requires
                    v == i * (src_len - 1) / (target_len - 1),
                    i <= target_len - 1,
                    target_len >= 2,
                    src_len >= 2,
            {
                vstd::arithmetic::div_mod::lemma_div_is_ordered(
                    i * (src_len - 1),
                    (target_len - 1) * (src_len - 1),
                    (target_len - 1) as int,
                );
                vstd::arithmetic::div_mod::lemma_div_multiples_vanish(
                    (src_len - 1) as int,
                    (target_len - 1) as int,
                );
            }
            out.push(v);
        }
        i = i + 1;
    }
    out
}

/// Stretching keeps order: a later output sample never uses an earlier graphics sample,
/// the first output sample uses the first graphics sample and, with at least two output
/// samples, the last uses the last.
pub proof fn lemma_resample_index_order(i: int, j: int, src_len: int, target_len: int)
    requires
        0 <= i <= j < target_len,
        1 <= src_len,
    ensures
        resample_index(i, src_len, target_len) <= resample_index(j, src_len, target_len),
        resample_index(0, src_len, target_len) == 0,
        target_len >= 2 ==> resample_index(target_len - 1, src_len, target_len) == src_len - 1,
{
    if target_len != 1 && src_len != 1 {
        assert(i * (src_len - 1) <= j * (src_len - 1)) by (nonlinear_arith)
            requires
                i <= j,
                src_len >= 1,
        ;
        vstd::arithmetic::div_mod::lemma_div_is_ordered(
            i * (src_len - 1),
            j * (src_len - 1),
            target_len - 1,
        );
        vstd::arithmetic::div_mod::lemma_div_multiples_vanish(src_len - 1, target_len - 1);
        assert((target_len - 1) * (src_len - 1) == (src_len - 1) * (target_len - 1)) by (nonlinear_arith);
    }
}

} // verus!
