//! The command payload union and its byte-level specification.
//!
//! `spec_body` gives the exact wire bytes of every payload; `spec_cmd_decode`
//! gives the exact result of parsing, including which error a malformed
//! input produces. `lemma_cmd_roundtrip` proves that decoding an encoding
//! returns the original payload.

use vstd::prelude::*;

use crate::DecodeError;
use crate::EnumField;
use crate::bits::{
    lemma_b2w8, lemma_b2w32,
    u16_le, u16_from_le, u16_lo, u16_hi, u32_le, u32_from_le, u64_le, u64_from_le,
    u16_be, u16_from_be, u32_be, u32_from_be, b2w8, b2w32, u8_of_i8, i8_of_u8,
    u16_of_i16, i16_of_u16, lemma_u16_le_roundtrip, lemma_u32_le_roundtrip,
    lemma_u64_le_roundtrip, lemma_u16_be_roundtrip, lemma_u32_be_roundtrip,
    lemma_i8_wire_roundtrip, lemma_i16_wire_roundtrip,
};
use crate::enums::{
    RobotID, EndpointId, GameType, GameProgress, GameResult, RefereeWarningLevel,
    OccupyType, DartTarget, DartSelectionTarget, HpDeductionReason, BulletType,
    ShooterNumber,
};

verus! {

/// One command payload: the closed tagged union carried after the frame header.
///
/// Fields that the wire stores as IEEE-754 words are held as their 32-bit
/// bit patterns, so the codec is bit-exact without floating-point logic.
#[derive(Debug, Clone, PartialEq)]
pub enum RefereeFrameCmdData {
    GameStatus {
        game_type: GameType,
        game_progress: GameProgress,
        stage_remain_time: u16,
        sync_time_stamp: u64,
    },
    GameResult {
        result: GameResult,
    },
    GameRobotHP {
        red_1_robot_hp: u16,
        red_2_robot_hp: u16,
        red_3_robot_hp: u16,
        red_4_robot_hp: u16,
        red_7_robot_hp: u16,
        red_outpost_hp: u16,
        red_base_hp: u16,
        blue_1_robot_hp: u16,
        blue_2_robot_hp: u16,
        blue_3_robot_hp: u16,
        blue_4_robot_hp: u16,
        blue_7_robot_hp: u16,
        blue_outpost_hp: u16,
        blue_base_hp: u16,
    },
    EventData {
        supply_no_overlap_occupied: bool,
        supply_overlap_occupied: bool,
        supply_occupied_rmul: bool,
        small_energy_mechanism_active: bool,
        large_energy_mechanism_active: bool,
        center_highland_occupy: OccupyType,
        trapezoid_highland_occupy: OccupyType,
        dart_last_hit_time_s: u16,
        dart_last_hit_target: DartTarget,
        center_buff_occupy: OccupyType,
        fortress_buff_occupy: OccupyType,
    },
    RefereeWarning {
        level: RefereeWarningLevel,
        offending_robot_id: RobotID,
        count: u8,
    },
    DartInfo {
        dart_remaining_time: u8,
        dart_last_hit_target: DartTarget,
        opponent_target_hit_count: u8,
        dart_selected_target: DartSelectionTarget,
    },
    RobotStatus {
        robot_id: RobotID,
        robot_level: u8,
        current_hp: u16,
        maximum_hp: u16,
        shooter_barrel_cooling_value: u16,
        shooter_barrel_heat_limit: u16,
        chassis_power_limit: u16,
        power_management_gimbal_output: bool,
        power_management_chassis_output: bool,
        power_management_shooter_output: bool,
    },
    PowerHeatData {
        buffer_energy: u16,
        shooter_17mm_1_barrel_heat: u16,
        shooter_17mm_2_barrel_heat: u16,
        shooter_42mm_barrel_heat: u16,
    },
    RobotPos {
        x: u32,
        y: u32,
        angle: u32,
    },
    Buff {
        recovery_buff: u8,
        cooling_buff: u8,
        defense_buff: u8,
        vulnerability_buff: u8,
        attack_buff: u16,
        energy_ge_50: bool,
        energy_ge_30: bool,
        energy_ge_15: bool,
        energy_ge_5: bool,
        energy_ge_1: bool,
    },
    HurtData {
        armor_id: u8,
        hp_deduction_reason: HpDeductionReason,
    },
    ShootData {
        bullet_type: BulletType,
        shooter_number: ShooterNumber,
        launching_frequency: u8,
        initial_speed: u32,
    },
    ProjectileAllowance {
        projectile_allowance_17mm: u16,
        projectile_allowance_42mm: u16,
        remaining_gold_coin: u16,
        projectile_allowance_fortress: u16,
    },
    RFIDStatus {
        our_base_buff: bool,
        our_center_highland_buff: bool,
        enemy_center_highland_buff: bool,
        our_trapezoid_highland_buff: bool,
        enemy_trapezoid_highland_buff: bool,
        our_ramp_near_front: bool,
        our_ramp_near_back: bool,
        enemy_ramp_near_front: bool,
        enemy_ramp_near_back: bool,
        our_cross_center_lower: bool,
        our_cross_center_upper: bool,
        enemy_cross_center_lower: bool,
        enemy_cross_center_upper: bool,
        our_cross_road_lower: bool,
        our_cross_road_upper: bool,
        enemy_cross_road_lower: bool,
        enemy_cross_road_upper: bool,
        our_fortress_buff: bool,
        our_outpost_buff: bool,
        our_supply_nonoverlap_or_rmul: bool,
        our_supply_overlap: bool,
        our_big_island_buff: bool,
        enemy_big_island_buff: bool,
        center_buff_rmul_only: bool,
        enemy_fortress_buff: bool,
    },
    DartClientCmd {
        dart_launch_opening_status: u8,
        target_change_time: u16,
        latest_launch_cmd_time: u16,
    },
    GroundRobotPosition {
        hero_x: u32,
        hero_y: u32,
        engineer_x: u32,
        engineer_y: u32,
        standard_3_x: u32,
        standard_3_y: u32,
        standard_4_x: u32,
        standard_4_y: u32,
    },
    RadarMarkData {
        enemy_hero_vulnerable: bool,
        enemy_engineer_vulnerable: bool,
        enemy_infantry3_vulnerable: bool,
        enemy_infantry4_vulnerable: bool,
        enemy_sentry_vulnerable: bool,
    },
    SentryInfo {
        sentry_info: u32,
        sentry_info_2: u16,
    },
    RadarInfo {
        double_vulnerability_chance: u8,
        enemy_in_double_vulnerability: bool,
    },
    RobotInteractionData {
        data_cmd_id: u16,
        sender_id: EndpointId,
        receiver_id: EndpointId,
        user_data: Vec<u8>,
    },
    CustomRobotData {
        data: Vec<u8>,
    },
    MapCommand {
        target_position_x: u32,
        target_position_y: u32,
        cmd_keyboard: u8,
        target_robot_id: RobotID,
        cmd_source: EndpointId,
    },
    RemoteControl {
        mouse_x: i16,
        mouse_y: i16,
        mouse_z: i16,
        left_button_down: u8,
        right_button_down: u8,
        keyboard_value: u16,
        reserved: u16,
    },
    MapRobotData {
        hero_position_x: u16,
        hero_position_y: u16,
        engineer_position_x: u16,
        engineer_position_y: u16,
        infantry_3_position_x: u16,
        infantry_3_position_y: u16,
        infantry_4_position_x: u16,
        infantry_4_position_y: u16,
        infantry_5_position_x: u16,
        infantry_5_position_y: u16,
        sentry_position_x: u16,
        sentry_position_y: u16,
    },
    SimulateControl {
        keyboard_value: u16,
        mouse_x_pos: u16,
        mouse_left_state: u8,
        mouse_y_pos: u16,
        mouse_right_state: u8,
        reserved: u16,
    },
    MapPathData {
        intention: u8,
        start_position_x: u16,
        start_position_y: u16,
        delta_x: Vec<i8>,
        delta_y: Vec<i8>,
        sender_id: EndpointId,
    },
    CustomInfo {
        sender_id: EndpointId,
        receiver_id: EndpointId,
        data: Vec<u8>,
    },
    RobotCustomData {
        data: Vec<u8>,
    },
}

/// The mathematical image of a command payload: identical shape, with
/// sequences in place of vectors.
pub enum CmdView {
    GameStatus {
        game_type: GameType,
        game_progress: GameProgress,
        stage_remain_time: u16,
        sync_time_stamp: u64,
    },
    GameResult {
        result: GameResult,
    },
    GameRobotHP {
        red_1_robot_hp: u16,
        red_2_robot_hp: u16,
        red_3_robot_hp: u16,
        red_4_robot_hp: u16,
        red_7_robot_hp: u16,
        red_outpost_hp: u16,
        red_base_hp: u16,
        blue_1_robot_hp: u16,
        blue_2_robot_hp: u16,
        blue_3_robot_hp: u16,
        blue_4_robot_hp: u16,
        blue_7_robot_hp: u16,
        blue_outpost_hp: u16,
        blue_base_hp: u16,
    },
    EventData {
        supply_no_overlap_occupied: bool,
        supply_overlap_occupied: bool,
        supply_occupied_rmul: bool,
        small_energy_mechanism_active: bool,
        large_energy_mechanism_active: bool,
        center_highland_occupy: OccupyType,
        trapezoid_highland_occupy: OccupyType,
        dart_last_hit_time_s: u16,
        dart_last_hit_target: DartTarget,
        center_buff_occupy: OccupyType,
        fortress_buff_occupy: OccupyType,
    },
    RefereeWarning {
        level: RefereeWarningLevel,
        offending_robot_id: RobotID,
        count: u8,
    },
    DartInfo {
        dart_remaining_time: u8,
        dart_last_hit_target: DartTarget,
        opponent_target_hit_count: u8,
        dart_selected_target: DartSelectionTarget,
    },
    RobotStatus {
        robot_id: RobotID,
        robot_level: u8,
        current_hp: u16,
        maximum_hp: u16,
        shooter_barrel_cooling_value: u16,
        shooter_barrel_heat_limit: u16,
        chassis_power_limit: u16,
        power_management_gimbal_output: bool,
        power_management_chassis_output: bool,
        power_management_shooter_output: bool,
    },
    PowerHeatData {
        buffer_energy: u16,
        shooter_17mm_1_barrel_heat: u16,
        shooter_17mm_2_barrel_heat: u16,
        shooter_42mm_barrel_heat: u16,
    },
    RobotPos {
        x: u32,
        y: u32,
        angle: u32,
    },
    Buff {
        recovery_buff: u8,
        cooling_buff: u8,
        defense_buff: u8,
        vulnerability_buff: u8,
        attack_buff: u16,
        energy_ge_50: bool,
        energy_ge_30: bool,
        energy_ge_15: bool,
        energy_ge_5: bool,
        energy_ge_1: bool,
    },
    HurtData {
        armor_id: u8,
        hp_deduction_reason: HpDeductionReason,
    },
    ShootData {
        bullet_type: BulletType,
        shooter_number: ShooterNumber,
        launching_frequency: u8,
        initial_speed: u32,
    },
    ProjectileAllowance {
        projectile_allowance_17mm: u16,
        projectile_allowance_42mm: u16,
        remaining_gold_coin: u16,
        projectile_allowance_fortress: u16,
    },
    RFIDStatus {
        our_base_buff: bool,
        our_center_highland_buff: bool,
        enemy_center_highland_buff: bool,
        our_trapezoid_highland_buff: bool,
        enemy_trapezoid_highland_buff: bool,
        our_ramp_near_front: bool,
        our_ramp_near_back: bool,
        enemy_ramp_near_front: bool,
        enemy_ramp_near_back: bool,
        our_cross_center_lower: bool,
        our_cross_center_upper: bool,
        enemy_cross_center_lower: bool,
        enemy_cross_center_upper: bool,
        our_cross_road_lower: bool,
        our_cross_road_upper: bool,
        enemy_cross_road_lower: bool,
        enemy_cross_road_upper: bool,
        our_fortress_buff: bool,
        our_outpost_buff: bool,
        our_supply_nonoverlap_or_rmul: bool,
        our_supply_overlap: bool,
        our_big_island_buff: bool,
        enemy_big_island_buff: bool,
        center_buff_rmul_only: bool,
        enemy_fortress_buff: bool,
    },
    DartClientCmd {
        dart_launch_opening_status: u8,
        target_change_time: u16,
        latest_launch_cmd_time: u16,
    },
    GroundRobotPosition {
        hero_x: u32,
        hero_y: u32,
        engineer_x: u32,
        engineer_y: u32,
        standard_3_x: u32,
        standard_3_y: u32,
        standard_4_x: u32,
        standard_4_y: u32,
    },
    RadarMarkData {
        enemy_hero_vulnerable: bool,
        enemy_engineer_vulnerable: bool,
        enemy_infantry3_vulnerable: bool,
        enemy_infantry4_vulnerable: bool,
        enemy_sentry_vulnerable: bool,
    },
    SentryInfo {
        sentry_info: u32,
        sentry_info_2: u16,
    },
    RadarInfo {
        double_vulnerability_chance: u8,
        enemy_in_double_vulnerability: bool,
    },
    RobotInteractionData {
        data_cmd_id: u16,
        sender_id: EndpointId,
        receiver_id: EndpointId,
        user_data: Seq<u8>,
    },
    CustomRobotData {
        data: Seq<u8>,
    },
    MapCommand {
        target_position_x: u32,
        target_position_y: u32,
        cmd_keyboard: u8,
        target_robot_id: RobotID,
        cmd_source: EndpointId,
    },
    RemoteControl {
        mouse_x: i16,
        mouse_y: i16,
        mouse_z: i16,
        left_button_down: u8,
        right_button_down: u8,
        keyboard_value: u16,
        reserved: u16,
    },
    MapRobotData {
        hero_position_x: u16,
        hero_position_y: u16,
        engineer_position_x: u16,
        engineer_position_y: u16,
        infantry_3_position_x: u16,
        infantry_3_position_y: u16,
        infantry_4_position_x: u16,
        infantry_4_position_y: u16,
        infantry_5_position_x: u16,
        infantry_5_position_y: u16,
        sentry_position_x: u16,
        sentry_position_y: u16,
    },
    SimulateControl {
        keyboard_value: u16,
        mouse_x_pos: u16,
        mouse_left_state: u8,
        mouse_y_pos: u16,
        mouse_right_state: u8,
        reserved: u16,
    },
    MapPathData {
        intention: u8,
        start_position_x: u16,
        start_position_y: u16,
        delta_x: Seq<i8>,
        delta_y: Seq<i8>,
        sender_id: EndpointId,
    },
    CustomInfo {
        sender_id: EndpointId,
        receiver_id: EndpointId,
        data: Seq<u8>,
    },
    RobotCustomData {
        data: Seq<u8>,
    },
}

impl View for RefereeFrameCmdData {
    type V = CmdView;

    open spec fn view(&self) -> CmdView {
        match self {
            RefereeFrameCmdData::GameStatus { game_type, game_progress, stage_remain_time, sync_time_stamp } => CmdView::GameStatus {
                game_type: *game_type,
                game_progress: *game_progress,
                stage_remain_time: *stage_remain_time,
                sync_time_stamp: *sync_time_stamp,
            },
            RefereeFrameCmdData::GameResult { result } => CmdView::GameResult {
                result: *result,
            },
            RefereeFrameCmdData::GameRobotHP { red_1_robot_hp, red_2_robot_hp, red_3_robot_hp, red_4_robot_hp, red_7_robot_hp, red_outpost_hp, red_base_hp, blue_1_robot_hp, blue_2_robot_hp, blue_3_robot_hp, blue_4_robot_hp, blue_7_robot_hp, blue_outpost_hp, blue_base_hp } => CmdView::GameRobotHP {
                red_1_robot_hp: *red_1_robot_hp,
                red_2_robot_hp: *red_2_robot_hp,
                red_3_robot_hp: *red_3_robot_hp,
                red_4_robot_hp: *red_4_robot_hp,
                red_7_robot_hp: *red_7_robot_hp,
                red_outpost_hp: *red_outpost_hp,
                red_base_hp: *red_base_hp,
                blue_1_robot_hp: *blue_1_robot_hp,
                blue_2_robot_hp: *blue_2_robot_hp,
                blue_3_robot_hp: *blue_3_robot_hp,
                blue_4_robot_hp: *blue_4_robot_hp,
                blue_7_robot_hp: *blue_7_robot_hp,
                blue_outpost_hp: *blue_outpost_hp,
                blue_base_hp: *blue_base_hp,
            },
            RefereeFrameCmdData::EventData { supply_no_overlap_occupied, supply_overlap_occupied, supply_occupied_rmul, small_energy_mechanism_active, large_energy_mechanism_active, center_highland_occupy, trapezoid_highland_occupy, dart_last_hit_time_s, dart_last_hit_target, center_buff_occupy, fortress_buff_occupy } => CmdView::EventData {
                supply_no_overlap_occupied: *supply_no_overlap_occupied,
                supply_overlap_occupied: *supply_overlap_occupied,
                supply_occupied_rmul: *supply_occupied_rmul,
                small_energy_mechanism_active: *small_energy_mechanism_active,
                large_energy_mechanism_active: *large_energy_mechanism_active,
                center_highland_occupy: *center_highland_occupy,
                trapezoid_highland_occupy: *trapezoid_highland_occupy,
                dart_last_hit_time_s: *dart_last_hit_time_s,
                dart_last_hit_target: *dart_last_hit_target,
                center_buff_occupy: *center_buff_occupy,
                fortress_buff_occupy: *fortress_buff_occupy,
            },
            RefereeFrameCmdData::RefereeWarning { level, offending_robot_id, count } => CmdView::RefereeWarning {
                level: *level,
                offending_robot_id: *offending_robot_id,
                count: *count,
            },
            RefereeFrameCmdData::DartInfo { dart_remaining_time, dart_last_hit_target, opponent_target_hit_count, dart_selected_target } => CmdView::DartInfo {
                dart_remaining_time: *dart_remaining_time,
                dart_last_hit_target: *dart_last_hit_target,
                opponent_target_hit_count: *opponent_target_hit_count,
                dart_selected_target: *dart_selected_target,
            },
            RefereeFrameCmdData::RobotStatus { robot_id, robot_level, current_hp, maximum_hp, shooter_barrel_cooling_value, shooter_barrel_heat_limit, chassis_power_limit, power_management_gimbal_output, power_management_chassis_output, power_management_shooter_output } => CmdView::RobotStatus {
                robot_id: *robot_id,
                robot_level: *robot_level,
                current_hp: *current_hp,
                maximum_hp: *maximum_hp,
                shooter_barrel_cooling_value: *shooter_barrel_cooling_value,
                shooter_barrel_heat_limit: *shooter_barrel_heat_limit,
                chassis_power_limit: *chassis_power_limit,
                power_management_gimbal_output: *power_management_gimbal_output,
                power_management_chassis_output: *power_management_chassis_output,
                power_management_shooter_output: *power_management_shooter_output,
            },
            RefereeFrameCmdData::PowerHeatData { buffer_energy, shooter_17mm_1_barrel_heat, shooter_17mm_2_barrel_heat, shooter_42mm_barrel_heat } => CmdView::PowerHeatData {
                buffer_energy: *buffer_energy,
                shooter_17mm_1_barrel_heat: *shooter_17mm_1_barrel_heat,
                shooter_17mm_2_barrel_heat: *shooter_17mm_2_barrel_heat,
                shooter_42mm_barrel_heat: *shooter_42mm_barrel_heat,
            },
            RefereeFrameCmdData::RobotPos { x, y, angle } => CmdView::RobotPos {
                x: *x,
                y: *y,
                angle: *angle,
            },
            RefereeFrameCmdData::Buff { recovery_buff, cooling_buff, defense_buff, vulnerability_buff, attack_buff, energy_ge_50, energy_ge_30, energy_ge_15, energy_ge_5, energy_ge_1 } => CmdView::Buff {
                recovery_buff: *recovery_buff,
                cooling_buff: *cooling_buff,
                defense_buff: *defense_buff,
                vulnerability_buff: *vulnerability_buff,
                attack_buff: *attack_buff,
                energy_ge_50: *energy_ge_50,
                energy_ge_30: *energy_ge_30,
                energy_ge_15: *energy_ge_15,
                energy_ge_5: *energy_ge_5,
                energy_ge_1: *energy_ge_1,
            },
            RefereeFrameCmdData::HurtData { armor_id, hp_deduction_reason } => CmdView::HurtData {
                armor_id: *armor_id,
                hp_deduction_reason: *hp_deduction_reason,
            },
            RefereeFrameCmdData::ShootData { bullet_type, shooter_number, launching_frequency, initial_speed } => CmdView::ShootData {
                bullet_type: *bullet_type,
                shooter_number: *shooter_number,
                launching_frequency: *launching_frequency,
                initial_speed: *initial_speed,
            },
            RefereeFrameCmdData::ProjectileAllowance { projectile_allowance_17mm, projectile_allowance_42mm, remaining_gold_coin, projectile_allowance_fortress } => CmdView::ProjectileAllowance {
                projectile_allowance_17mm: *projectile_allowance_17mm,
                projectile_allowance_42mm: *projectile_allowance_42mm,
                remaining_gold_coin: *remaining_gold_coin,
                projectile_allowance_fortress: *projectile_allowance_fortress,
            },
            RefereeFrameCmdData::RFIDStatus { our_base_buff, our_center_highland_buff, enemy_center_highland_buff, our_trapezoid_highland_buff, enemy_trapezoid_highland_buff, our_ramp_near_front, our_ramp_near_back, enemy_ramp_near_front, enemy_ramp_near_back, our_cross_center_lower, our_cross_center_upper, enemy_cross_center_lower, enemy_cross_center_upper, our_cross_road_lower, our_cross_road_upper, enemy_cross_road_lower, enemy_cross_road_upper, our_fortress_buff, our_outpost_buff, our_supply_nonoverlap_or_rmul, our_supply_overlap, our_big_island_buff, enemy_big_island_buff, center_buff_rmul_only, enemy_fortress_buff } => CmdView::RFIDStatus {
                our_base_buff: *our_base_buff,
                our_center_highland_buff: *our_center_highland_buff,
                enemy_center_highland_buff: *enemy_center_highland_buff,
                our_trapezoid_highland_buff: *our_trapezoid_highland_buff,
                enemy_trapezoid_highland_buff: *enemy_trapezoid_highland_buff,
                our_ramp_near_front: *our_ramp_near_front,
                our_ramp_near_back: *our_ramp_near_back,
                enemy_ramp_near_front: *enemy_ramp_near_front,
                enemy_ramp_near_back: *enemy_ramp_near_back,
                our_cross_center_lower: *our_cross_center_lower,
                our_cross_center_upper: *our_cross_center_upper,
                enemy_cross_center_lower: *enemy_cross_center_lower,
                enemy_cross_center_upper: *enemy_cross_center_upper,
                our_cross_road_lower: *our_cross_road_lower,
                our_cross_road_upper: *our_cross_road_upper,
                enemy_cross_road_lower: *enemy_cross_road_lower,
                enemy_cross_road_upper: *enemy_cross_road_upper,
                our_fortress_buff: *our_fortress_buff,
                our_outpost_buff: *our_outpost_buff,
                our_supply_nonoverlap_or_rmul: *our_supply_nonoverlap_or_rmul,
                our_supply_overlap: *our_supply_overlap,
                our_big_island_buff: *our_big_island_buff,
                enemy_big_island_buff: *enemy_big_island_buff,
                center_buff_rmul_only: *center_buff_rmul_only,
                enemy_fortress_buff: *enemy_fortress_buff,
            },
            RefereeFrameCmdData::DartClientCmd { dart_launch_opening_status, target_change_time, latest_launch_cmd_time } => CmdView::DartClientCmd {
                dart_launch_opening_status: *dart_launch_opening_status,
                target_change_time: *target_change_time,
                latest_launch_cmd_time: *latest_launch_cmd_time,
            },
            RefereeFrameCmdData::GroundRobotPosition { hero_x, hero_y, engineer_x, engineer_y, standard_3_x, standard_3_y, standard_4_x, standard_4_y } => CmdView::GroundRobotPosition {
                hero_x: *hero_x,
                hero_y: *hero_y,
                engineer_x: *engineer_x,
                engineer_y: *engineer_y,
                standard_3_x: *standard_3_x,
                standard_3_y: *standard_3_y,
                standard_4_x: *standard_4_x,
                standard_4_y: *standard_4_y,
            },
            RefereeFrameCmdData::RadarMarkData { enemy_hero_vulnerable, enemy_engineer_vulnerable, enemy_infantry3_vulnerable, enemy_infantry4_vulnerable, enemy_sentry_vulnerable } => CmdView::RadarMarkData {
                enemy_hero_vulnerable: *enemy_hero_vulnerable,
                enemy_engineer_vulnerable: *enemy_engineer_vulnerable,
                enemy_infantry3_vulnerable: *enemy_infantry3_vulnerable,
                enemy_infantry4_vulnerable: *enemy_infantry4_vulnerable,
                enemy_sentry_vulnerable: *enemy_sentry_vulnerable,
            },
            RefereeFrameCmdData::SentryInfo { sentry_info, sentry_info_2 } => CmdView::SentryInfo {
                sentry_info: *sentry_info,
                sentry_info_2: *sentry_info_2,
            },
            RefereeFrameCmdData::RadarInfo { double_vulnerability_chance, enemy_in_double_vulnerability } => CmdView::RadarInfo {
                double_vulnerability_chance: *double_vulnerability_chance,
                enemy_in_double_vulnerability: *enemy_in_double_vulnerability,
            },
            RefereeFrameCmdData::RobotInteractionData { data_cmd_id, sender_id, receiver_id, user_data } => CmdView::RobotInteractionData {
                data_cmd_id: *data_cmd_id,
                sender_id: *sender_id,
                receiver_id: *receiver_id,
                user_data: user_data@,
            },
            RefereeFrameCmdData::CustomRobotData { data } => CmdView::CustomRobotData {
                data: data@,
            },
            RefereeFrameCmdData::MapCommand { target_position_x, target_position_y, cmd_keyboard, target_robot_id, cmd_source } => CmdView::MapCommand {
                target_position_x: *target_position_x,
                target_position_y: *target_position_y,
                cmd_keyboard: *cmd_keyboard,
                target_robot_id: *target_robot_id,
                cmd_source: *cmd_source,
            },
            RefereeFrameCmdData::RemoteControl { mouse_x, mouse_y, mouse_z, left_button_down, right_button_down, keyboard_value, reserved } => CmdView::RemoteControl {
                mouse_x: *mouse_x,
                mouse_y: *mouse_y,
                mouse_z: *mouse_z,
                left_button_down: *left_button_down,
                right_button_down: *right_button_down,
                keyboard_value: *keyboard_value,
                reserved: *reserved,
            },
            RefereeFrameCmdData::MapRobotData { hero_position_x, hero_position_y, engineer_position_x, engineer_position_y, infantry_3_position_x, infantry_3_position_y, infantry_4_position_x, infantry_4_position_y, infantry_5_position_x, infantry_5_position_y, sentry_position_x, sentry_position_y } => CmdView::MapRobotData {
                hero_position_x: *hero_position_x,
                hero_position_y: *hero_position_y,
                engineer_position_x: *engineer_position_x,
                engineer_position_y: *engineer_position_y,
                infantry_3_position_x: *infantry_3_position_x,
                infantry_3_position_y: *infantry_3_position_y,
                infantry_4_position_x: *infantry_4_position_x,
                infantry_4_position_y: *infantry_4_position_y,
                infantry_5_position_x: *infantry_5_position_x,
                infantry_5_position_y: *infantry_5_position_y,
                sentry_position_x: *sentry_position_x,
                sentry_position_y: *sentry_position_y,
            },
            RefereeFrameCmdData::SimulateControl { keyboard_value, mouse_x_pos, mouse_left_state, mouse_y_pos, mouse_right_state, reserved } => CmdView::SimulateControl {
                keyboard_value: *keyboard_value,
                mouse_x_pos: *mouse_x_pos,
                mouse_left_state: *mouse_left_state,
                mouse_y_pos: *mouse_y_pos,
                mouse_right_state: *mouse_right_state,
                reserved: *reserved,
            },
            RefereeFrameCmdData::MapPathData { intention, start_position_x, start_position_y, delta_x, delta_y, sender_id } => CmdView::MapPathData {
                intention: *intention,
                start_position_x: *start_position_x,
                start_position_y: *start_position_y,
                delta_x: delta_x@,
                delta_y: delta_y@,
                sender_id: *sender_id,
            },
            RefereeFrameCmdData::CustomInfo { sender_id, receiver_id, data } => CmdView::CustomInfo {
                sender_id: *sender_id,
                receiver_id: *receiver_id,
                data: data@,
            },
            RefereeFrameCmdData::RobotCustomData { data } => CmdView::RobotCustomData {
                data: data@,
            },
        }
    }
}

/// The 16-bit command tag that selects each payload shape.
pub open spec fn spec_tag(c: CmdView) -> u16 {
    match c {
        CmdView::GameStatus { .. } => 0x0001,
        CmdView::GameResult { .. } => 0x0002,
        CmdView::GameRobotHP { .. } => 0x0003,
        CmdView::EventData { .. } => 0x0101,
        CmdView::RefereeWarning { .. } => 0x0104,
        CmdView::DartInfo { .. } => 0x0105,
        CmdView::RobotStatus { .. } => 0x0201,
        CmdView::PowerHeatData { .. } => 0x0202,
        CmdView::RobotPos { .. } => 0x0203,
        CmdView::Buff { .. } => 0x0204,
        CmdView::HurtData { .. } => 0x0206,
        CmdView::ShootData { .. } => 0x0207,
        CmdView::ProjectileAllowance { .. } => 0x0208,
        CmdView::RFIDStatus { .. } => 0x0209,
        CmdView::DartClientCmd { .. } => 0x020a,
        CmdView::GroundRobotPosition { .. } => 0x020b,
        CmdView::RadarMarkData { .. } => 0x020c,
        CmdView::SentryInfo { .. } => 0x020d,
        CmdView::RadarInfo { .. } => 0x020e,
        CmdView::RobotInteractionData { .. } => 0x0301,
        CmdView::CustomRobotData { .. } => 0x0302,
        CmdView::MapCommand { .. } => 0x0303,
        CmdView::RemoteControl { .. } => 0x0304,
        CmdView::MapRobotData { .. } => 0x0305,
        CmdView::SimulateControl { .. } => 0x0306,
        CmdView::MapPathData { .. } => 0x0307,
        CmdView::CustomInfo { .. } => 0x0308,
        CmdView::RobotCustomData { .. } => 0x0309,
    }
}

/// A payload the encoder promises to lay out: every sub-byte field within
/// its declared bit width and every length-determined array at its exact
/// length.
pub open spec fn cmd_wf(c: CmdView) -> bool {
    match c {
        CmdView::GameStatus { .. } => true,
        CmdView::GameResult { .. } => true,
        CmdView::GameRobotHP { .. } => true,
        CmdView::EventData { supply_no_overlap_occupied: _, supply_overlap_occupied: _, supply_occupied_rmul: _, small_energy_mechanism_active: _, large_energy_mechanism_active: _, center_highland_occupy: _, trapezoid_highland_occupy: _, dart_last_hit_time_s, dart_last_hit_target: _, center_buff_occupy: _, fortress_buff_occupy: _ } => {
            dart_last_hit_time_s < 0x200
        },
        CmdView::RefereeWarning { .. } => true,
        CmdView::DartInfo { dart_remaining_time: _, dart_last_hit_target: _, opponent_target_hit_count, dart_selected_target: _ } => {
            opponent_target_hit_count < 8
        },
        CmdView::RobotStatus { .. } => true,
        CmdView::PowerHeatData { .. } => true,
        CmdView::RobotPos { .. } => true,
        CmdView::Buff { .. } => true,
        CmdView::HurtData { armor_id, hp_deduction_reason: _ } => {
            armor_id < 16
        },
        CmdView::ShootData { .. } => true,
        CmdView::ProjectileAllowance { .. } => true,
        CmdView::RFIDStatus { .. } => true,
        CmdView::DartClientCmd { .. } => true,
        CmdView::GroundRobotPosition { .. } => true,
        CmdView::RadarMarkData { .. } => true,
        CmdView::SentryInfo { .. } => true,
        CmdView::RadarInfo { double_vulnerability_chance, enemy_in_double_vulnerability: _ } => {
            double_vulnerability_chance < 4
        },
        CmdView::RobotInteractionData { data_cmd_id: _, sender_id: _, receiver_id: _, user_data } => {
            user_data.len() + 6 <= 0xffff
        },
        CmdView::CustomRobotData { data } => {
            data.len() == 30
        },
        CmdView::MapCommand { .. } => true,
        CmdView::RemoteControl { .. } => true,
        CmdView::MapRobotData { .. } => true,
        CmdView::SimulateControl { keyboard_value: _, mouse_x_pos, mouse_left_state, mouse_y_pos, mouse_right_state, reserved: _ } => {
            mouse_x_pos < 0x1000
                && mouse_left_state < 16
                && mouse_y_pos < 0x1000
                && mouse_right_state < 16
        },
        CmdView::MapPathData { intention: _, start_position_x: _, start_position_y: _, delta_x, delta_y, sender_id: _ } => {
            delta_x.len() == 49
                && delta_y.len() == 49
        },
        CmdView::CustomInfo { sender_id: _, receiver_id: _, data } => {
            data.len() == 30
        },
        CmdView::RobotCustomData { data } => {
            data.len() == 30
        },
    }
}
// ---------------------------------------------------------------------------
// Bit-field group words
// ---------------------------------------------------------------------------

/// The 32-bit site/event word: five flags, four occupation states, the dart
/// hit time (nine bits, low byte first on the wire) and the dart hit target.
pub open spec fn event_word(
    a: u32, b: u32, c: u32, d: u32, e: u32, ch: u32, th: u32, t: u32, tg: u32,
    cb: u32, fb: u32,
) -> u32 {
    (a << 31) | (b << 30) | (c << 29) | (d << 28) | (e << 27) | (ch << 25)
        | (th << 23) | ((t & 0xff) << 15) | (((t >> 8) & 1) << 14) | (tg << 11)
        | (cb << 9) | (fb << 7)
}

/// The nine-bit dart hit time read back from the event word.
pub open spec fn event_time(w: u32) -> u16 {
    ((((w >> 15) & 0xff) | (((w >> 14) & 1) << 8)) & 0xffff) as u16
}

/// The 32-bit RFID word: twenty-five presence flags, first flag at bit 31.
#[verifier::opaque]
pub open spec fn rfid_word(
    a0: u32, a1: u32, a2: u32, a3: u32, a4: u32, a5: u32, a6: u32, a7: u32,
    a8: u32, a9: u32, a10: u32, a11: u32, a12: u32, a13: u32, a14: u32,
    a15: u32, a16: u32, a17: u32, a18: u32, a19: u32, a20: u32, a21: u32,
    a22: u32, a23: u32, a24: u32,
) -> u32 {
    (a0 << 31) | (a1 << 30) | (a2 << 29) | (a3 << 28) | (a4 << 27) | (a5 << 26)
        | (a6 << 25) | (a7 << 24) | (a8 << 23) | (a9 << 22) | (a10 << 21)
        | (a11 << 20) | (a12 << 19) | (a13 << 18) | (a14 << 17) | (a15 << 16)
        | (a16 << 15) | (a17 << 14) | (a18 << 13) | (a19 << 12) | (a20 << 11)
        | (a21 << 10) | (a22 << 9) | (a23 << 8) | (a24 << 7)
}

/// One half of the simulated mouse layout: a twelve-bit position (low byte
/// first on the wire, then its top four bits) packed with a four-bit button
/// state.
pub open spec fn sim_half(pos: u16, st: u16) -> u16 {
    ((pos & 0xff) << 8) | (((pos >> 8) & 0xf) << 4) | (st & 0xf)
}

/// The twelve-bit position read back from a mouse half-word.
pub open spec fn sim_pos(h: u16) -> u16 {
    ((h >> 8) & 0xff) | (((h >> 4) & 0xf) << 8)
}

/// The four-bit button state read back from a mouse half-word.
pub open spec fn sim_state(h: u16) -> u8 {
    (h & 0xf) as u8
}


/// Two four-bit fields in one byte, first field in the high nibble.
pub proof fn lemma_nibbles(hi: u8, lo: u8)
    by (bit_vector)
    requires
        hi < 16,
        lo < 16,
    ensures
        ((hi << 4) | lo) >> 4 == hi,
        ((hi << 4) | lo) & 0xf == lo,
{
}

// ---------------------------------------------------------------------------
// Wire bytes of each payload
// ---------------------------------------------------------------------------

/// The exact wire bytes of a payload body, everything after the two tag
/// bytes. Reserved fields are zero.
#[verifier::opaque]
pub open spec fn spec_body(c: CmdView) -> Seq<u8> {
    match c {
        CmdView::GameStatus { game_type, game_progress, stage_remain_time, sync_time_stamp } => {
            seq![(game_type.spec_raw() << 4) | game_progress.spec_raw()]
                + u16_le(stage_remain_time) + u64_le(sync_time_stamp)
        },
        CmdView::GameResult { result } => seq![result.spec_raw()],
        CmdView::GameRobotHP {
            red_1_robot_hp, red_2_robot_hp, red_3_robot_hp, red_4_robot_hp,
            red_7_robot_hp, red_outpost_hp, red_base_hp, blue_1_robot_hp,
            blue_2_robot_hp, blue_3_robot_hp, blue_4_robot_hp, blue_7_robot_hp,
            blue_outpost_hp, blue_base_hp,
        } => {
            u16_le(red_1_robot_hp) + u16_le(red_2_robot_hp) + u16_le(red_3_robot_hp)
                + u16_le(red_4_robot_hp) + u16_le(0) + u16_le(red_7_robot_hp)
                + u16_le(red_outpost_hp) + u16_le(red_base_hp)
                + u16_le(blue_1_robot_hp) + u16_le(blue_2_robot_hp)
                + u16_le(blue_3_robot_hp) + u16_le(blue_4_robot_hp) + u16_le(0)
                + u16_le(blue_7_robot_hp) + u16_le(blue_outpost_hp)
                + u16_le(blue_base_hp)
        },
        CmdView::EventData {
            supply_no_overlap_occupied, supply_overlap_occupied, supply_occupied_rmul,
            small_energy_mechanism_active, large_energy_mechanism_active,
            center_highland_occupy, trapezoid_highland_occupy, dart_last_hit_time_s,
            dart_last_hit_target, center_buff_occupy, fortress_buff_occupy,
        } => {
            u32_be(event_word(
                b2w32(supply_no_overlap_occupied),
                b2w32(supply_overlap_occupied),
                b2w32(supply_occupied_rmul),
                b2w32(small_energy_mechanism_active),
                b2w32(large_energy_mechanism_active),
                center_highland_occupy.spec_raw() as u32,
                trapezoid_highland_occupy.spec_raw() as u32,
                dart_last_hit_time_s as u32,
                dart_last_hit_target.spec_raw() as u32,
                center_buff_occupy.spec_raw() as u32,
                fortress_buff_occupy.spec_raw() as u32,
            ))
        },
        CmdView::RefereeWarning { level, offending_robot_id, count } => {
            seq![level.spec_raw(), offending_robot_id.spec_raw(), count]
        },
        CmdView::DartInfo {
            dart_remaining_time, dart_last_hit_target, opponent_target_hit_count,
            dart_selected_target,
        } => {
            seq![
                dart_remaining_time,
                (dart_last_hit_target.spec_raw() << 5)
                    | ((opponent_target_hit_count & 7) << 2)
                    | dart_selected_target.spec_raw(),
                0,
            ]
        },
        CmdView::RobotStatus {
            robot_id, robot_level, current_hp, maximum_hp,
            shooter_barrel_cooling_value, shooter_barrel_heat_limit,
            chassis_power_limit, power_management_gimbal_output,
            power_management_chassis_output, power_management_shooter_output,
        } => {
            seq![robot_id.spec_raw(), robot_level] + u16_le(current_hp)
                + u16_le(maximum_hp) + u16_le(shooter_barrel_cooling_value)
                + u16_le(shooter_barrel_heat_limit) + u16_le(chassis_power_limit)
                + seq![
                    (b2w8(power_management_gimbal_output) << 7)
                        | (b2w8(power_management_chassis_output) << 6)
                        | (b2w8(power_management_shooter_output) << 5),
                ]
        },
        CmdView::PowerHeatData {
            buffer_energy, shooter_17mm_1_barrel_heat, shooter_17mm_2_barrel_heat,
            shooter_42mm_barrel_heat,
        } => {
            u16_le(0) + u16_le(0) + u32_le(0) + u16_le(buffer_energy)
                + u16_le(shooter_17mm_1_barrel_heat)
                + u16_le(shooter_17mm_2_barrel_heat)
                + u16_le(shooter_42mm_barrel_heat)
        },
        CmdView::RobotPos { x, y, angle } => u32_le(x) + u32_le(y) + u32_le(angle),
        CmdView::Buff {
            recovery_buff, cooling_buff, defense_buff, vulnerability_buff,
            attack_buff, energy_ge_50, energy_ge_30, energy_ge_15, energy_ge_5,
            energy_ge_1,
        } => {
            seq![recovery_buff, cooling_buff, defense_buff, vulnerability_buff]
                + u16_le(attack_buff)
                + seq![
                    (b2w8(energy_ge_50) << 7) | (b2w8(energy_ge_30) << 6)
                        | (b2w8(energy_ge_15) << 5) | (b2w8(energy_ge_5) << 4)
                        | (b2w8(energy_ge_1) << 3),
                ]
        },
        CmdView::HurtData { armor_id, hp_deduction_reason } => {
            seq![(armor_id << 4) | hp_deduction_reason.spec_raw()]
        },
        CmdView::ShootData {
            bullet_type, shooter_number, launching_frequency, initial_speed,
        } => {
            seq![bullet_type.spec_raw(), shooter_number.spec_raw(), launching_frequency]
                + u32_le(initial_speed)
        },
        CmdView::ProjectileAllowance {
            projectile_allowance_17mm, projectile_allowance_42mm,
            remaining_gold_coin, projectile_allowance_fortress,
        } => {
            u16_le(projectile_allowance_17mm) + u16_le(projectile_allowance_42mm)
                + u16_le(remaining_gold_coin) + u16_le(projectile_allowance_fortress)
        },
        CmdView::RFIDStatus { .. } => {
            u32_be(rfid_word_of(c))
        },
        CmdView::DartClientCmd {
            dart_launch_opening_status, target_change_time, latest_launch_cmd_time,
        } => {
            seq![dart_launch_opening_status, 0] + u16_le(target_change_time)
                + u16_le(latest_launch_cmd_time)
        },
        CmdView::GroundRobotPosition {
            hero_x, hero_y, engineer_x, engineer_y, standard_3_x, standard_3_y,
            standard_4_x, standard_4_y,
        } => {
            u32_le(hero_x) + u32_le(hero_y) + u32_le(engineer_x) + u32_le(engineer_y)
                + u32_le(standard_3_x) + u32_le(standard_3_y) + u32_le(standard_4_x)
                + u32_le(standard_4_y) + u32_le(0) + u32_le(0)
        },
        CmdView::RadarMarkData {
            enemy_hero_vulnerable, enemy_engineer_vulnerable,
            enemy_infantry3_vulnerable, enemy_infantry4_vulnerable,
            enemy_sentry_vulnerable,
        } => {
            seq![
                (b2w8(enemy_hero_vulnerable) << 7) | (b2w8(enemy_engineer_vulnerable) << 6)
                    | (b2w8(enemy_infantry3_vulnerable) << 5)
                    | (b2w8(enemy_infantry4_vulnerable) << 4)
                    | (b2w8(enemy_sentry_vulnerable) << 3),
            ]
        },
        CmdView::SentryInfo { sentry_info, sentry_info_2 } => {
            u32_le(sentry_info) + u16_le(sentry_info_2)
        },
        CmdView::RadarInfo { double_vulnerability_chance, enemy_in_double_vulnerability } => {
            seq![
                ((double_vulnerability_chance & 3) << 6)
                    | (b2w8(enemy_in_double_vulnerability) << 5),
            ]
        },
        CmdView::RobotInteractionData { data_cmd_id, sender_id, receiver_id, user_data } => {
            u16_le(data_cmd_id) + u16_le(sender_id.spec_raw())
                + u16_le(receiver_id.spec_raw()) + user_data
        },
        CmdView::CustomRobotData { data } => data,
        CmdView::MapCommand {
            target_position_x, target_position_y, cmd_keyboard, target_robot_id,
            cmd_source,
        } => {
            u32_le(target_position_x) + u32_le(target_position_y)
                + seq![cmd_keyboard, target_robot_id.spec_raw()]
                + u16_le(cmd_source.spec_raw())
        },
        CmdView::RemoteControl {
            mouse_x, mouse_y, mouse_z, left_button_down, right_button_down,
            keyboard_value, reserved,
        } => {
            u16_le(u16_of_i16(mouse_x)) + u16_le(u16_of_i16(mouse_y))
                + u16_le(u16_of_i16(mouse_z)) + seq![left_button_down, right_button_down]
                + u16_le(keyboard_value) + u16_le(reserved)
        },
        CmdView::MapRobotData {
            hero_position_x, hero_position_y, engineer_position_x,
            engineer_position_y, infantry_3_position_x, infantry_3_position_y,
            infantry_4_position_x, infantry_4_position_y, infantry_5_position_x,
            infantry_5_position_y, sentry_position_x, sentry_position_y,
        } => {
            u16_le(hero_position_x) + u16_le(hero_position_y)
                + u16_le(engineer_position_x) + u16_le(engineer_position_y)
                + u16_le(infantry_3_position_x) + u16_le(infantry_3_position_y)
                + u16_le(infantry_4_position_x) + u16_le(infantry_4_position_y)
                + u16_le(infantry_5_position_x) + u16_le(infantry_5_position_y)
                + u16_le(sentry_position_x) + u16_le(sentry_position_y)
        },
        CmdView::SimulateControl {
            keyboard_value, mouse_x_pos, mouse_left_state, mouse_y_pos,
            mouse_right_state, reserved,
        } => {
            u16_le(keyboard_value)
                + u16_be(sim_half(mouse_x_pos, mouse_left_state as u16))
                + u16_be(sim_half(mouse_y_pos, mouse_right_state as u16))
                + u16_le(reserved)
        },
        CmdView::MapPathData {
            intention, start_position_x, start_position_y, delta_x, delta_y,
            sender_id,
        } => {
            seq![intention] + u16_le(start_position_x) + u16_le(start_position_y)
                + delta_x.map_values(|v: i8| u8_of_i8(v))
                + delta_y.map_values(|v: i8| u8_of_i8(v))
                + u16_le(sender_id.spec_raw())
        },
        CmdView::CustomInfo { sender_id, receiver_id, data } => {
            u16_le(sender_id.spec_raw()) + u16_le(receiver_id.spec_raw()) + data
        },
        CmdView::RobotCustomData { data } => data,
    }
}

/// The full wire bytes of a payload: little-endian tag, then the body.
pub open spec fn spec_cmd_bytes(c: CmdView) -> Seq<u8> {
    u16_le(spec_tag(c)) + spec_body(c)
}

// ---------------------------------------------------------------------------
// Exact parse results, variant by variant
// ---------------------------------------------------------------------------

#[verifier::opaque]
pub open spec fn dec_game_status(b: Seq<u8>) -> Result<CmdView, DecodeError> {
    if b.len() < 11 {
        Err(DecodeError::TruncatedPayload)
    } else if b.len() > 11 {
        Err(DecodeError::TrailingBytes)
    } else {
        match GameType::spec_from_raw(b[0] >> 4) {
            None => Err(DecodeError::InvalidEnumValue(EnumField::GameType, (b[0] >> 4) as u16)),
            Some(game_type) => match GameProgress::spec_from_raw(b[0] & 0xf) {
                None => Err(DecodeError::InvalidEnumValue(EnumField::GameProgress, (b[0] & 0xf) as u16)),
                Some(game_progress) => Ok(CmdView::GameStatus {
                    game_type,
                    game_progress,
                    stage_remain_time: u16_from_le(b[1], b[2]),
                    sync_time_stamp: u64_from_le(b[3], b[4], b[5], b[6], b[7], b[8], b[9], b[10]),
                }),
            },
        }
    }
}

#[verifier::opaque]
pub open spec fn dec_game_result(b: Seq<u8>) -> Result<CmdView, DecodeError> {
    if b.len() < 1 {
        Err(DecodeError::TruncatedPayload)
    } else if b.len() > 1 {
        Err(DecodeError::TrailingBytes)
    } else {
        match GameResult::spec_from_raw(b[0]) {
            None => Err(DecodeError::InvalidEnumValue(EnumField::GameResult, b[0] as u16)),
            Some(result) => Ok(CmdView::GameResult { result }),
        }
    }
}

#[verifier::opaque]
pub open spec fn dec_game_robot_hp(b: Seq<u8>) -> Result<CmdView, DecodeError> {
    if b.len() < 32 {
        Err(DecodeError::TruncatedPayload)
    } else if b.len() > 32 {
        Err(DecodeError::TrailingBytes)
    } else {
        Ok(CmdView::GameRobotHP {
            red_1_robot_hp: u16_from_le(b[0], b[1]),
            red_2_robot_hp: u16_from_le(b[2], b[3]),
            red_3_robot_hp: u16_from_le(b[4], b[5]),
            red_4_robot_hp: u16_from_le(b[6], b[7]),
            red_7_robot_hp: u16_from_le(b[10], b[11]),
            red_outpost_hp: u16_from_le(b[12], b[13]),
            red_base_hp: u16_from_le(b[14], b[15]),
            blue_1_robot_hp: u16_from_le(b[16], b[17]),
            blue_2_robot_hp: u16_from_le(b[18], b[19]),
            blue_3_robot_hp: u16_from_le(b[20], b[21]),
            blue_4_robot_hp: u16_from_le(b[22], b[23]),
            blue_7_robot_hp: u16_from_le(b[26], b[27]),
            blue_outpost_hp: u16_from_le(b[28], b[29]),
            blue_base_hp: u16_from_le(b[30], b[31]),
        })
    }
}

#[verifier::opaque]
pub open spec fn dec_event_data(b: Seq<u8>) -> Result<CmdView, DecodeError> {
    if b.len() < 4 {
        Err(DecodeError::TruncatedPayload)
    } else if b.len() > 4 {
        Err(DecodeError::TrailingBytes)
    } else {
        let w = u32_from_be(b[0], b[1], b[2], b[3]);
        match OccupyType::spec_from_raw(((w >> 25) & 3) as u8) {
            None => Err(DecodeError::InvalidEnumValue(EnumField::OccupyType, (((w >> 25) & 3) as u8) as u16)),
            Some(center_highland_occupy) => match OccupyType::spec_from_raw(((w >> 23) & 3) as u8) {
                None => Err(DecodeError::InvalidEnumValue(EnumField::OccupyType, (((w >> 23) & 3) as u8) as u16)),
                Some(trapezoid_highland_occupy) => match DartTarget::spec_from_raw(((w >> 11) & 7) as u8) {
                    None => Err(DecodeError::InvalidEnumValue(EnumField::DartTarget, (((w >> 11) & 7) as u8) as u16)),
                    Some(dart_last_hit_target) => match OccupyType::spec_from_raw(((w >> 9) & 3) as u8) {
                        None => Err(DecodeError::InvalidEnumValue(EnumField::OccupyType, (((w >> 9) & 3) as u8) as u16)),
                        Some(center_buff_occupy) => match OccupyType::spec_from_raw(((w >> 7) & 3) as u8) {
                            None => Err(DecodeError::InvalidEnumValue(EnumField::OccupyType, (((w >> 7) & 3) as u8) as u16)),
                            Some(fortress_buff_occupy) => Ok(CmdView::EventData {
                                supply_no_overlap_occupied: (w >> 31) & 1 == 1,
                                supply_overlap_occupied: (w >> 30) & 1 == 1,
                                supply_occupied_rmul: (w >> 29) & 1 == 1,
                                small_energy_mechanism_active: (w >> 28) & 1 == 1,
                                large_energy_mechanism_active: (w >> 27) & 1 == 1,
                                center_highland_occupy,
                                trapezoid_highland_occupy,
                                dart_last_hit_time_s: event_time(w),
                                dart_last_hit_target,
                                center_buff_occupy,
                                fortress_buff_occupy,
                            }),
                        },
                    },
                },
            },
        }
    }
}

#[verifier::opaque]
pub open spec fn dec_referee_warning(b: Seq<u8>) -> Result<CmdView, DecodeError> {
    if b.len() < 3 {
        Err(DecodeError::TruncatedPayload)
    } else if b.len() > 3 {
        Err(DecodeError::TrailingBytes)
    } else {
        match RefereeWarningLevel::spec_from_raw(b[0]) {
            None => Err(DecodeError::InvalidEnumValue(EnumField::RefereeWarningLevel, b[0] as u16)),
            Some(level) => match RobotID::spec_from_raw(b[1]) {
                None => Err(DecodeError::InvalidEnumValue(EnumField::RobotId, b[1] as u16)),
                Some(offending_robot_id) => Ok(CmdView::RefereeWarning {
                    level,
                    offending_robot_id,
                    count: b[2],
                }),
            },
        }
    }
}

#[verifier::opaque]
pub open spec fn dec_dart_info(b: Seq<u8>) -> Result<CmdView, DecodeError> {
    if b.len() < 3 {
        Err(DecodeError::TruncatedPayload)
    } else if b.len() > 3 {
        Err(DecodeError::TrailingBytes)
    } else {
        match DartTarget::spec_from_raw(b[1] >> 5) {
            None => Err(DecodeError::InvalidEnumValue(EnumField::DartTarget, (b[1] >> 5) as u16)),
            Some(dart_last_hit_target) => match DartSelectionTarget::spec_from_raw(b[1] & 3) {
                None => Err(DecodeError::InvalidEnumValue(EnumField::DartSelectionTarget, (b[1] & 3) as u16)),
                Some(dart_selected_target) => Ok(CmdView::DartInfo {
                    dart_remaining_time: b[0],
                    dart_last_hit_target,
                    opponent_target_hit_count: (b[1] >> 2) & 7,
                    dart_selected_target,
                }),
            },
        }
    }
}

#[verifier::opaque]
pub open spec fn dec_robot_status(b: Seq<u8>) -> Result<CmdView, DecodeError> {
    if b.len() < 13 {
        Err(DecodeError::TruncatedPayload)
    } else if b.len() > 13 {
        Err(DecodeError::TrailingBytes)
    } else {
        match RobotID::spec_from_raw(b[0]) {
            None => Err(DecodeError::InvalidEnumValue(EnumField::RobotId, b[0] as u16)),
            Some(robot_id) => Ok(CmdView::RobotStatus {
                robot_id,
                robot_level: b[1],
                current_hp: u16_from_le(b[2], b[3]),
                maximum_hp: u16_from_le(b[4], b[5]),
                shooter_barrel_cooling_value: u16_from_le(b[6], b[7]),
                shooter_barrel_heat_limit: u16_from_le(b[8], b[9]),
                chassis_power_limit: u16_from_le(b[10], b[11]),
                power_management_gimbal_output: (b[12] >> 7) & 1 == 1,
                power_management_chassis_output: (b[12] >> 6) & 1 == 1,
                power_management_shooter_output: (b[12] >> 5) & 1 == 1,
            }),
        }
    }
}

#[verifier::opaque]
pub open spec fn dec_power_heat(b: Seq<u8>) -> Result<CmdView, DecodeError> {
    if b.len() < 16 {
        Err(DecodeError::TruncatedPayload)
    } else if b.len() > 16 {
        Err(DecodeError::TrailingBytes)
    } else {
        Ok(CmdView::PowerHeatData {
            buffer_energy: u16_from_le(b[8], b[9]),
            shooter_17mm_1_barrel_heat: u16_from_le(b[10], b[11]),
            shooter_17mm_2_barrel_heat: u16_from_le(b[12], b[13]),
            shooter_42mm_barrel_heat: u16_from_le(b[14], b[15]),
        })
    }
}

#[verifier::opaque]
pub open spec fn dec_robot_pos(b: Seq<u8>) -> Result<CmdView, DecodeError> {
    if b.len() < 12 {
        Err(DecodeError::TruncatedPayload)
    } else if b.len() > 12 {
        Err(DecodeError::TrailingBytes)
    } else {
        Ok(CmdView::RobotPos {
            x: u32_from_le(b[0], b[1], b[2], b[3]),
            y: u32_from_le(b[4], b[5], b[6], b[7]),
            angle: u32_from_le(b[8], b[9], b[10], b[11]),
        })
    }
}

#[verifier::opaque]
pub open spec fn dec_buff(b: Seq<u8>) -> Result<CmdView, DecodeError> {
    if b.len() < 7 {
        Err(DecodeError::TruncatedPayload)
    } else if b.len() > 7 {
        Err(DecodeError::TrailingBytes)
    } else {
        Ok(CmdView::Buff {
            recovery_buff: b[0],
            cooling_buff: b[1],
            defense_buff: b[2],
            vulnerability_buff: b[3],
            attack_buff: u16_from_le(b[4], b[5]),
            energy_ge_50: (b[6] >> 7) & 1 == 1,
            energy_ge_30: (b[6] >> 6) & 1 == 1,
            energy_ge_15: (b[6] >> 5) & 1 == 1,
            energy_ge_5: (b[6] >> 4) & 1 == 1,
            energy_ge_1: (b[6] >> 3) & 1 == 1,
        })
    }
}

#[verifier::opaque]
pub open spec fn dec_hurt_data(b: Seq<u8>) -> Result<CmdView, DecodeError> {
    if b.len() < 1 {
        Err(DecodeError::TruncatedPayload)
    } else if b.len() > 1 {
        Err(DecodeError::TrailingBytes)
    } else {
        match HpDeductionReason::spec_from_raw(b[0] & 0xf) {
            None => Err(DecodeError::InvalidEnumValue(EnumField::HpDeductionReason, (b[0] & 0xf) as u16)),
            Some(hp_deduction_reason) => Ok(CmdView::HurtData {
                armor_id: b[0] >> 4,
                hp_deduction_reason,
            }),
        }
    }
}

#[verifier::opaque]
pub open spec fn dec_shoot_data(b: Seq<u8>) -> Result<CmdView, DecodeError> {
    if b.len() < 7 {
        Err(DecodeError::TruncatedPayload)
    } else if b.len() > 7 {
        Err(DecodeError::TrailingBytes)
    } else {
        match BulletType::spec_from_raw(b[0]) {
            None => Err(DecodeError::InvalidEnumValue(EnumField::BulletType, b[0] as u16)),
            Some(bullet_type) => match ShooterNumber::spec_from_raw(b[1]) {
                None => Err(DecodeError::InvalidEnumValue(EnumField::ShooterNumber, b[1] as u16)),
                Some(shooter_number) => Ok(CmdView::ShootData {
                    bullet_type,
                    shooter_number,
                    launching_frequency: b[2],
                    initial_speed: u32_from_le(b[3], b[4], b[5], b[6]),
                }),
            },
        }
    }
}

#[verifier::opaque]
pub open spec fn dec_projectile_allowance(b: Seq<u8>) -> Result<CmdView, DecodeError> {
    if b.len() < 8 {
        Err(DecodeError::TruncatedPayload)
    } else if b.len() > 8 {
        Err(DecodeError::TrailingBytes)
    } else {
        Ok(CmdView::ProjectileAllowance {
            projectile_allowance_17mm: u16_from_le(b[0], b[1]),
            projectile_allowance_42mm: u16_from_le(b[2], b[3]),
            remaining_gold_coin: u16_from_le(b[4], b[5]),
            projectile_allowance_fortress: u16_from_le(b[6], b[7]),
        })
    }
}

/// The twenty-five presence flags read back from one big-endian word,
/// first flag at bit 31.
/// Bit `k` of the presence word, as the flag it carries.
pub open spec fn rfid_flag(w: u32, k: u32) -> bool {
    (w >> k) & 1 == 1
}

pub open spec fn rfid_flags_view(w: u32) -> CmdView {
    CmdView::RFIDStatus {
        our_base_buff: rfid_flag(w, 31),
        our_center_highland_buff: rfid_flag(w, 30),
        enemy_center_highland_buff: rfid_flag(w, 29),
        our_trapezoid_highland_buff: rfid_flag(w, 28),
        enemy_trapezoid_highland_buff: rfid_flag(w, 27),
        our_ramp_near_front: rfid_flag(w, 26),
        our_ramp_near_back: rfid_flag(w, 25),
        enemy_ramp_near_front: rfid_flag(w, 24),
        enemy_ramp_near_back: rfid_flag(w, 23),
        our_cross_center_lower: rfid_flag(w, 22),
        our_cross_center_upper: rfid_flag(w, 21),
        enemy_cross_center_lower: rfid_flag(w, 20),
        enemy_cross_center_upper: rfid_flag(w, 19),
        our_cross_road_lower: rfid_flag(w, 18),
        our_cross_road_upper: rfid_flag(w, 17),
        enemy_cross_road_lower: rfid_flag(w, 16),
        enemy_cross_road_upper: rfid_flag(w, 15),
        our_fortress_buff: rfid_flag(w, 14),
        our_outpost_buff: rfid_flag(w, 13),
        our_supply_nonoverlap_or_rmul: rfid_flag(w, 12),
        our_supply_overlap: rfid_flag(w, 11),
        our_big_island_buff: rfid_flag(w, 10),
        enemy_big_island_buff: rfid_flag(w, 9),
        center_buff_rmul_only: rfid_flag(w, 8),
        enemy_fortress_buff: rfid_flag(w, 7),
    }
}

/// The packed presence word of a flag payload, first flag at bit 31.
pub open spec fn rfid_word_of(c: CmdView) -> u32
    recommends
        c is RFIDStatus,
{
    rfid_word(
        b2w32(c->RFIDStatus_our_base_buff),
        b2w32(c->RFIDStatus_our_center_highland_buff),
        b2w32(c->RFIDStatus_enemy_center_highland_buff),
        b2w32(c->RFIDStatus_our_trapezoid_highland_buff),
        b2w32(c->RFIDStatus_enemy_trapezoid_highland_buff),
        b2w32(c->RFIDStatus_our_ramp_near_front),
        b2w32(c->RFIDStatus_our_ramp_near_back),
        b2w32(c->RFIDStatus_enemy_ramp_near_front),
        b2w32(c->RFIDStatus_enemy_ramp_near_back),
        b2w32(c->RFIDStatus_our_cross_center_lower),
        b2w32(c->RFIDStatus_our_cross_center_upper),
        b2w32(c->RFIDStatus_enemy_cross_center_lower),
        b2w32(c->RFIDStatus_enemy_cross_center_upper),
        b2w32(c->RFIDStatus_our_cross_road_lower),
        b2w32(c->RFIDStatus_our_cross_road_upper),
        b2w32(c->RFIDStatus_enemy_cross_road_lower),
        b2w32(c->RFIDStatus_enemy_cross_road_upper),
        b2w32(c->RFIDStatus_our_fortress_buff),
        b2w32(c->RFIDStatus_our_outpost_buff),
        b2w32(c->RFIDStatus_our_supply_nonoverlap_or_rmul),
        b2w32(c->RFIDStatus_our_supply_overlap),
        b2w32(c->RFIDStatus_our_big_island_buff),
        b2w32(c->RFIDStatus_enemy_big_island_buff),
        b2w32(c->RFIDStatus_center_buff_rmul_only),
        b2w32(c->RFIDStatus_enemy_fortress_buff),
    )
}

#[verifier::opaque]
pub open spec fn dec_rfid_status(b: Seq<u8>) -> Result<CmdView, DecodeError> {
    if b.len() < 4 {
        Err(DecodeError::TruncatedPayload)
    } else if b.len() > 4 {
        Err(DecodeError::TrailingBytes)
    } else {
        Ok(rfid_flags_view(u32_from_be(b[0], b[1], b[2], b[3])))
    }
}

#[verifier::opaque]
pub open spec fn dec_dart_client_cmd(b: Seq<u8>) -> Result<CmdView, DecodeError> {
    if b.len() < 6 {
        Err(DecodeError::TruncatedPayload)
    } else if b.len() > 6 {
        Err(DecodeError::TrailingBytes)
    } else {
        Ok(CmdView::DartClientCmd {
            dart_launch_opening_status: b[0],
            target_change_time: u16_from_le(b[2], b[3]),
            latest_launch_cmd_time: u16_from_le(b[4], b[5]),
        })
    }
}

#[verifier::opaque]
pub open spec fn dec_ground_robot_position(b: Seq<u8>) -> Result<CmdView, DecodeError> {
    if b.len() < 40 {
        Err(DecodeError::TruncatedPayload)
    } else if b.len() > 40 {
        Err(DecodeError::TrailingBytes)
    } else {
        Ok(CmdView::GroundRobotPosition {
            hero_x: u32_from_le(b[0], b[1], b[2], b[3]),
            hero_y: u32_from_le(b[4], b[5], b[6], b[7]),
            engineer_x: u32_from_le(b[8], b[9], b[10], b[11]),
            engineer_y: u32_from_le(b[12], b[13], b[14], b[15]),
            standard_3_x: u32_from_le(b[16], b[17], b[18], b[19]),
            standard_3_y: u32_from_le(b[20], b[21], b[22], b[23]),
            standard_4_x: u32_from_le(b[24], b[25], b[26], b[27]),
            standard_4_y: u32_from_le(b[28], b[29], b[30], b[31]),
        })
    }
}

#[verifier::opaque]
pub open spec fn dec_radar_mark(b: Seq<u8>) -> Result<CmdView, DecodeError> {
    if b.len() < 1 {
        Err(DecodeError::TruncatedPayload)
    } else if b.len() > 1 {
        Err(DecodeError::TrailingBytes)
    } else {
        Ok(CmdView::RadarMarkData {
            enemy_hero_vulnerable: (b[0] >> 7) & 1 == 1,
            enemy_engineer_vulnerable: (b[0] >> 6) & 1 == 1,
            enemy_infantry3_vulnerable: (b[0] >> 5) & 1 == 1,
            enemy_infantry4_vulnerable: (b[0] >> 4) & 1 == 1,
            enemy_sentry_vulnerable: (b[0] >> 3) & 1 == 1,
        })
    }
}

#[verifier::opaque]
pub open spec fn dec_sentry_info(b: Seq<u8>) -> Result<CmdView, DecodeError> {
    if b.len() < 6 {
        Err(DecodeError::TruncatedPayload)
    } else if b.len() > 6 {
        Err(DecodeError::TrailingBytes)
    } else {
        Ok(CmdView::SentryInfo {
            sentry_info: u32_from_le(b[0], b[1], b[2], b[3]),
            sentry_info_2: u16_from_le(b[4], b[5]),
        })
    }
}

#[verifier::opaque]
pub open spec fn dec_radar_info(b: Seq<u8>) -> Result<CmdView, DecodeError> {
    if b.len() < 1 {
        Err(DecodeError::TruncatedPayload)
    } else if b.len() > 1 {
        Err(DecodeError::TrailingBytes)
    } else {
        Ok(CmdView::RadarInfo {
            double_vulnerability_chance: b[0] >> 6,
            enemy_in_double_vulnerability: (b[0] >> 5) & 1 == 1,
        })
    }
}

#[verifier::opaque]
pub open spec fn dec_robot_interaction(b: Seq<u8>) -> Result<CmdView, DecodeError> {
    if b.len() < 6 {
        Err(DecodeError::LengthUnderflow)
    } else {
        match EndpointId::spec_from_raw(u16_from_le(b[2], b[3])) {
            None => Err(DecodeError::InvalidEnumValue(EnumField::EndpointId, u16_from_le(b[2], b[3]))),
            Some(sender_id) => match EndpointId::spec_from_raw(u16_from_le(b[4], b[5])) {
                None => Err(DecodeError::InvalidEnumValue(EnumField::EndpointId, u16_from_le(b[4], b[5]))),
                Some(receiver_id) => Ok(CmdView::RobotInteractionData {
                    data_cmd_id: u16_from_le(b[0], b[1]),
                    sender_id,
                    receiver_id,
                    user_data: b.skip(6),
                }),
            },
        }
    }
}

#[verifier::opaque]
pub open spec fn dec_custom_robot_data(b: Seq<u8>) -> Result<CmdView, DecodeError> {
    if b.len() < 30 {
        Err(DecodeError::TruncatedPayload)
    } else if b.len() > 30 {
        Err(DecodeError::TrailingBytes)
    } else {
        Ok(CmdView::CustomRobotData { data: b })
    }
}

#[verifier::opaque]
pub open spec fn dec_map_command(b: Seq<u8>) -> Result<CmdView, DecodeError> {
    if b.len() < 12 {
        Err(DecodeError::TruncatedPayload)
    } else if b.len() > 12 {
        Err(DecodeError::TrailingBytes)
    } else {
        match RobotID::spec_from_raw(b[9]) {
            None => Err(DecodeError::InvalidEnumValue(EnumField::RobotId, b[9] as u16)),
            Some(target_robot_id) => match EndpointId::spec_from_raw(u16_from_le(b[10], b[11])) {
                None => Err(DecodeError::InvalidEnumValue(EnumField::EndpointId, u16_from_le(b[10], b[11]))),
                Some(cmd_source) => Ok(CmdView::MapCommand {
                    target_position_x: u32_from_le(b[0], b[1], b[2], b[3]),
                    target_position_y: u32_from_le(b[4], b[5], b[6], b[7]),
                    cmd_keyboard: b[8],
                    target_robot_id,
                    cmd_source,
                }),
            },
        }
    }
}

#[verifier::opaque]
pub open spec fn dec_remote_control(b: Seq<u8>) -> Result<CmdView, DecodeError> {
    if b.len() < 12 {
        Err(DecodeError::TruncatedPayload)
    } else if b.len() > 12 {
        Err(DecodeError::TrailingBytes)
    } else {
        Ok(CmdView::RemoteControl {
            mouse_x: i16_of_u16(u16_from_le(b[0], b[1])),
            mouse_y: i16_of_u16(u16_from_le(b[2], b[3])),
            mouse_z: i16_of_u16(u16_from_le(b[4], b[5])),
            left_button_down: b[6],
            right_button_down: b[7],
            keyboard_value: u16_from_le(b[8], b[9]),
            reserved: u16_from_le(b[10], b[11]),
        })
    }
}

#[verifier::opaque]
pub open spec fn dec_map_robot_data(b: Seq<u8>) -> Result<CmdView, DecodeError> {
    if b.len() < 24 {
        Err(DecodeError::TruncatedPayload)
    } else if b.len() > 24 {
        Err(DecodeError::TrailingBytes)
    } else {
        Ok(CmdView::MapRobotData {
            hero_position_x: u16_from_le(b[0], b[1]),
            hero_position_y: u16_from_le(b[2], b[3]),
            engineer_position_x: u16_from_le(b[4], b[5]),
            engineer_position_y: u16_from_le(b[6], b[7]),
            infantry_3_position_x: u16_from_le(b[8], b[9]),
            infantry_3_position_y: u16_from_le(b[10], b[11]),
            infantry_4_position_x: u16_from_le(b[12], b[13]),
            infantry_4_position_y: u16_from_le(b[14], b[15]),
            infantry_5_position_x: u16_from_le(b[16], b[17]),
            infantry_5_position_y: u16_from_le(b[18], b[19]),
            sentry_position_x: u16_from_le(b[20], b[21]),
            sentry_position_y: u16_from_le(b[22], b[23]),
        })
    }
}

#[verifier::opaque]
pub open spec fn dec_simulate_control(b: Seq<u8>) -> Result<CmdView, DecodeError> {
    if b.len() < 8 {
        Err(DecodeError::TruncatedPayload)
    } else if b.len() > 8 {
        Err(DecodeError::TrailingBytes)
    } else {
        Ok(CmdView::SimulateControl {
            keyboard_value: u16_from_le(b[0], b[1]),
            mouse_x_pos: sim_pos(u16_from_be(b[2], b[3])),
            mouse_left_state: sim_state(u16_from_be(b[2], b[3])),
            mouse_y_pos: sim_pos(u16_from_be(b[4], b[5])),
            mouse_right_state: sim_state(u16_from_be(b[4], b[5])),
            reserved: u16_from_le(b[6], b[7]),
        })
    }
}

#[verifier::opaque]
pub open spec fn dec_map_path_data(b: Seq<u8>) -> Result<CmdView, DecodeError> {
    if b.len() < 105 {
        Err(DecodeError::TruncatedPayload)
    } else if b.len() > 105 {
        Err(DecodeError::TrailingBytes)
    } else {
        match EndpointId::spec_from_raw(u16_from_le(b[103], b[104])) {
            None => Err(DecodeError::InvalidEnumValue(EnumField::EndpointId, u16_from_le(b[103], b[104]))),
            Some(sender_id) => Ok(CmdView::MapPathData {
                intention: b[0],
                start_position_x: u16_from_le(b[1], b[2]),
                start_position_y: u16_from_le(b[3], b[4]),
                delta_x: b.subrange(5, 54).map_values(|v: u8| i8_of_u8(v)),
                delta_y: b.subrange(54, 103).map_values(|v: u8| i8_of_u8(v)),
                sender_id,
            }),
        }
    }
}

#[verifier::opaque]
pub open spec fn dec_custom_info(b: Seq<u8>) -> Result<CmdView, DecodeError> {
    if b.len() < 34 {
        Err(DecodeError::TruncatedPayload)
    } else if b.len() > 34 {
        Err(DecodeError::TrailingBytes)
    } else {
        match EndpointId::spec_from_raw(u16_from_le(b[0], b[1])) {
            None => Err(DecodeError::InvalidEnumValue(EnumField::EndpointId, u16_from_le(b[0], b[1]))),
            Some(sender_id) => match EndpointId::spec_from_raw(u16_from_le(b[2], b[3])) {
                None => Err(DecodeError::InvalidEnumValue(EnumField::EndpointId, u16_from_le(b[2], b[3]))),
                Some(receiver_id) => Ok(CmdView::CustomInfo {
                    sender_id,
                    receiver_id,
                    data: b.skip(4),
                }),
            },
        }
    }
}

#[verifier::opaque]
pub open spec fn dec_robot_custom_data(b: Seq<u8>) -> Result<CmdView, DecodeError> {
    if b.len() < 30 {
        Err(DecodeError::TruncatedPayload)
    } else if b.len() > 30 {
        Err(DecodeError::TrailingBytes)
    } else {
        Ok(CmdView::RobotCustomData { data: b })
    }
}

/// Parse a payload body once the tag is known. An unknown tag is
/// `UnknownCommand`, a terminal decode result of its own.
#[verifier::opaque]
pub open spec fn spec_decode_body(tag: u16, b: Seq<u8>) -> Result<CmdView, DecodeError> {
    if tag == 0x0001 {
        dec_game_status(b)
    } else if tag == 0x0002 {
        dec_game_result(b)
    } else if tag == 0x0003 {
        dec_game_robot_hp(b)
    } else if tag == 0x0101 {
        dec_event_data(b)
    } else if tag == 0x0104 {
        dec_referee_warning(b)
    } else if tag == 0x0105 {
        dec_dart_info(b)
    } else if tag == 0x0201 {
        dec_robot_status(b)
    } else if tag == 0x0202 {
        dec_power_heat(b)
    } else if tag == 0x0203 {
        dec_robot_pos(b)
    } else if tag == 0x0204 {
        dec_buff(b)
    } else if tag == 0x0206 {
        dec_hurt_data(b)
    } else if tag == 0x0207 {
        dec_shoot_data(b)
    } else if tag == 0x0208 {
        dec_projectile_allowance(b)
    } else if tag == 0x0209 {
        dec_rfid_status(b)
    } else if tag == 0x020A {
        dec_dart_client_cmd(b)
    } else if tag == 0x020B {
        dec_ground_robot_position(b)
    } else if tag == 0x020C {
        dec_radar_mark(b)
    } else if tag == 0x020D {
        dec_sentry_info(b)
    } else if tag == 0x020E {
        dec_radar_info(b)
    } else if tag == 0x0301 {
        dec_robot_interaction(b)
    } else if tag == 0x0302 {
        dec_custom_robot_data(b)
    } else if tag == 0x0303 {
        dec_map_command(b)
    } else if tag == 0x0304 {
        dec_remote_control(b)
    } else if tag == 0x0305 {
        dec_map_robot_data(b)
    } else if tag == 0x0306 {
        dec_simulate_control(b)
    } else if tag == 0x0307 {
        dec_map_path_data(b)
    } else if tag == 0x0308 {
        dec_custom_info(b)
    } else if tag == 0x0309 {
        dec_robot_custom_data(b)
    } else {
        Err(DecodeError::UnknownCommand(tag))
    }
}

/// Parse a full command image: two little-endian tag bytes, then the body.
#[verifier::opaque]
pub open spec fn spec_cmd_decode(bytes: Seq<u8>) -> Result<CmdView, DecodeError> {
    if bytes.len() < 2 {
        Err(DecodeError::TruncatedPayload)
    } else {
        spec_decode_body(u16_from_le(bytes[0], bytes[1]), bytes.skip(2))
    }
}

// ---------------------------------------------------------------------------
// Round-trip laws
// ---------------------------------------------------------------------------

/// Splitting off the two tag bytes: decoding `tag ++ body` dispatches on
/// `tag` with exactly `body` left over.
pub proof fn lemma_cmd_decode_frame(tag: u16, body: Seq<u8>)
    ensures
        spec_cmd_decode(u16_le(tag) + body) == spec_decode_body(tag, body),
{
    reveal(spec_cmd_decode);
    lemma_u16_le_roundtrip(tag);
    assert((u16_le(tag) + body).skip(2) =~= body);
}

/// Round trip for the game-status payload: decoding its encoding returns
/// the same fields.
pub proof fn lemma_game_status_roundtrip(
    game_type: GameType,
    game_progress: GameProgress,
    stage_remain_time: u16,
    sync_time_stamp: u64,
)
    ensures
        ({
            let c = CmdView::GameStatus {
                game_type, game_progress, stage_remain_time, sync_time_stamp,
            };
            spec_cmd_decode(spec_cmd_bytes(c)) == Ok::<CmdView, DecodeError>(c)
        }),
{
    let c = CmdView::GameStatus { game_type, game_progress, stage_remain_time, sync_time_stamp };
    let body = spec_body(c);
    lemma_cmd_decode_frame(spec_tag(c), body);
    reveal(spec_body);
    reveal(spec_decode_body);
    reveal(dec_game_status);
    game_type.lemma_raw_roundtrip();
    game_progress.lemma_raw_roundtrip();
    lemma_nibbles(game_type.spec_raw(), game_progress.spec_raw());
    lemma_u16_le_roundtrip(stage_remain_time);
    lemma_u64_le_roundtrip(sync_time_stamp);
    assert(dec_game_status(body) == Ok::<CmdView, DecodeError>(c));
}

/// Round trip for the length-driven interaction payload: decoding its
/// encoding returns the same sub-tag, endpoints and user bytes.
pub proof fn lemma_robot_interaction_roundtrip(
    data_cmd_id: u16,
    sender_id: EndpointId,
    receiver_id: EndpointId,
    user_data: Seq<u8>,
)
    requires
        user_data.len() + 6 <= 0xffff,
    ensures
        ({
            let c = CmdView::RobotInteractionData {
                data_cmd_id, sender_id, receiver_id, user_data,
            };
            spec_cmd_decode(spec_cmd_bytes(c)) == Ok::<CmdView, DecodeError>(c)
        }),
{
    let c = CmdView::RobotInteractionData { data_cmd_id, sender_id, receiver_id, user_data };
    let body = spec_body(c);
    lemma_cmd_decode_frame(spec_tag(c), body);
    reveal(spec_body);
    reveal(spec_decode_body);
    reveal(dec_robot_interaction);
    lemma_u16_le_roundtrip(data_cmd_id);
    lemma_u16_le_roundtrip(sender_id.spec_raw());
    lemma_u16_le_roundtrip(receiver_id.spec_raw());
    sender_id.lemma_raw_roundtrip();
    receiver_id.lemma_raw_roundtrip();
    assert(body.skip(6) =~= user_data);
    assert(dec_robot_interaction(body) == Ok::<CmdView, DecodeError>(c));
}

/// A robot-interaction payload that declares fewer than six bytes is
/// rejected with `LengthUnderflow`, never a wrap-around or a panic.
pub proof fn lemma_length_underflow(b: Seq<u8>)
    requires
        b.len() < 6,
    ensures
        spec_decode_body(0x0301, b) == Err::<CmdView, DecodeError>(DecodeError::LengthUnderflow),
{
    reveal(spec_decode_body);
    reveal(dec_robot_interaction);
}

/// Tag endianness: the first two wire bytes of a game-status payload are
/// 0x01, 0x00 — the tag 0x0001 little endian.
pub proof fn lemma_tag_little_endian(
    game_type: GameType,
    game_progress: GameProgress,
    stage_remain_time: u16,
    sync_time_stamp: u64,
)
    ensures
        ({
            let c = CmdView::GameStatus {
                game_type, game_progress, stage_remain_time, sync_time_stamp,
            };
            spec_cmd_bytes(c)[0] == 0x01 && spec_cmd_bytes(c)[1] == 0x00
        }),
{
    let c = CmdView::GameStatus { game_type, game_progress, stage_remain_time, sync_time_stamp };
    assert(u16_lo(0x0001) == 0x01 && u16_hi(0x0001) == 0x00) by (bit_vector);
}

/// A well-formed map-path payload encodes to exactly 105 body bytes after
/// the tag: three fixed fields, two 49-delta arrays, and the sender.
pub proof fn lemma_map_path_exact_length(
    intention: u8,
    start_position_x: u16,
    start_position_y: u16,
    delta_x: Seq<i8>,
    delta_y: Seq<i8>,
    sender_id: EndpointId,
)
    requires
        delta_x.len() == 49,
        delta_y.len() == 49,
    ensures
        ({
            let c = CmdView::MapPathData {
                intention, start_position_x, start_position_y, delta_x, delta_y, sender_id,
            };
            spec_body(c).len() == 105 && spec_cmd_bytes(c).len() == 107
        }),
{
    reveal(spec_body);
}

/// One half of the simulated mouse layout inverts exactly: the position and
/// button state extracted from a packed half-word are the packed values.
pub proof fn lemma_sim_half(pos: u16, st: u16)
    by (bit_vector)
    requires
        pos < 0x1000,
        st < 16,
    ensures
        sim_pos(sim_half(pos, st)) == pos,
        sim_state(sim_half(pos, st)) == st,
{
}

/// Bit-exact packing round trip for the simulated keyboard-and-mouse
/// payload: the two twelve-bit coordinates and the two four-bit button
/// states come back unchanged, with no cross-contamination between fields
/// sharing a byte.
pub proof fn lemma_simulate_control_roundtrip(
    keyboard_value: u16,
    mouse_x_pos: u16,
    mouse_left_state: u8,
    mouse_y_pos: u16,
    mouse_right_state: u8,
    reserved: u16,
)
    requires
        mouse_x_pos < 0x1000,
        mouse_left_state < 16,
        mouse_y_pos < 0x1000,
        mouse_right_state < 16,
    ensures
        ({
            let c = CmdView::SimulateControl {
                keyboard_value, mouse_x_pos, mouse_left_state, mouse_y_pos,
                mouse_right_state, reserved,
            };
            spec_cmd_decode(spec_cmd_bytes(c)) == Ok::<CmdView, DecodeError>(c)
        }),
{
    let c = CmdView::SimulateControl {
        keyboard_value, mouse_x_pos, mouse_left_state, mouse_y_pos,
        mouse_right_state, reserved,
    };
    let body = spec_body(c);
    lemma_cmd_decode_frame(spec_tag(c), body);
    reveal(spec_body);
    reveal(spec_decode_body);
    reveal(dec_simulate_control);
    lemma_u16_le_roundtrip(keyboard_value);
    lemma_u16_le_roundtrip(reserved);
    lemma_u16_be_roundtrip(sim_half(mouse_x_pos, mouse_left_state as u16));
    lemma_u16_be_roundtrip(sim_half(mouse_y_pos, mouse_right_state as u16));
    lemma_sim_half(mouse_x_pos, mouse_left_state as u16);
    lemma_sim_half(mouse_y_pos, mouse_right_state as u16);
    assert(dec_simulate_control(body) == Ok::<CmdView, DecodeError>(c));
}

} // verus!
