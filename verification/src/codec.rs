//! The executable codec for command payloads: encoding into wire bytes and
//! parsing from them, each function proved equal to the byte-level
//! specification in `cmd`.

use vstd::prelude::*;
use vstd::slice::slice_subrange;

use crate::DecodeError;
use crate::EnumField;
use crate::bits::{
    b8, b32, b2w32, mask8, mask8_16, low16_32, push_u16_le, push_u32_le, push_u64_le,
    push_u16_be, push_u32_be, push_bytes, push_i8s, get_u16_le, get_u32_le,
    get_u64_le, get_u16_be, get_u32_be, bytes_to_vec, bytes_to_i8_vec,
    i16_to_wire, wire_to_i16, u32_be,
};
use crate::cmd::{
    CmdView, RefereeFrameCmdData, spec_tag, spec_body, spec_cmd_bytes,
    spec_cmd_decode, spec_decode_body, cmd_wf, event_word, event_time,
    rfid_word, rfid_word_of, rfid_flag, rfid_flags_view, sim_half, sim_pos, sim_state,
    dec_game_status, dec_game_result, dec_game_robot_hp, dec_event_data,
    dec_referee_warning, dec_dart_info, dec_robot_status, dec_power_heat,
    dec_robot_pos, dec_buff, dec_hurt_data, dec_shoot_data,
    dec_projectile_allowance, dec_rfid_status, dec_dart_client_cmd,
    dec_ground_robot_position, dec_radar_mark, dec_sentry_info, dec_radar_info,
    dec_robot_interaction, dec_custom_robot_data, dec_map_command,
    dec_remote_control, dec_map_robot_data, dec_simulate_control,
    dec_map_path_data, dec_custom_info, dec_robot_custom_data,
};
use crate::enums::{
    RobotID, EndpointId, GameType, GameProgress, GameResult, RefereeWarningLevel,
    OccupyType, DartTarget, DartSelectionTarget, HpDeductionReason, BulletType,
    ShooterNumber,
};

verus! {

/// The spec image of a parse result: the payload replaced by its view.
pub open spec fn cmd_result_view(
    r: Result<RefereeFrameCmdData, DecodeError>,
) -> Result<CmdView, DecodeError> {
    match r {
        Ok(c) => Ok(c@),
        Err(e) => Err(e),
    }
}


fn enc_game_status(
    out: &mut Vec<u8>,
    game_type: GameType,
    game_progress: GameProgress,
    stage_remain_time: u16,
    sync_time_stamp: u64,
)
    ensures
        final(out)@ == old(out)@ + spec_body(CmdView::GameStatus { game_type, game_progress, stage_remain_time, sync_time_stamp }),
{
    proof {
        reveal(spec_body);
    }
    out.push((game_type.raw() << 4) | game_progress.raw());
    push_u16_le(out, stage_remain_time);
    push_u64_le(out, sync_time_stamp);
    assert(out@ =~= old(out)@ + spec_body(CmdView::GameStatus { game_type, game_progress, stage_remain_time, sync_time_stamp }));
}

fn enc_game_result(
    out: &mut Vec<u8>,
    result: GameResult,
)
    ensures
        final(out)@ == old(out)@ + spec_body(CmdView::GameResult { result }),
{
    proof {
        reveal(spec_body);
    }
    out.push(result.raw());
    assert(out@ =~= old(out)@ + spec_body(CmdView::GameResult { result }));
}

fn enc_game_robot_hp(
    out: &mut Vec<u8>,
    red_1_robot_hp: u16,
    red_2_robot_hp: u16,
    red_3_robot_hp: u16,
    red_4_robot_hp: u16,
    red_7_robot_hp: u16,
    red_outpost_hp: u16,
    red_base_hp: u16,
    blue_1_robot_hp: u16,
    blue_2_robot_hp: u16,
    blue_3_robot_hp: u16,
    blue_4_robot_hp: u16,
    blue_7_robot_hp: u16,
    blue_outpost_hp: u16,
    blue_base_hp: u16,
)
    ensures
        final(out)@ == old(out)@ + spec_body(CmdView::GameRobotHP { red_1_robot_hp, red_2_robot_hp, red_3_robot_hp, red_4_robot_hp, red_7_robot_hp, red_outpost_hp, red_base_hp, blue_1_robot_hp, blue_2_robot_hp, blue_3_robot_hp, blue_4_robot_hp, blue_7_robot_hp, blue_outpost_hp, blue_base_hp }),
{
    proof {
        reveal(spec_body);
    }
    push_u16_le(out, red_1_robot_hp);
    push_u16_le(out, red_2_robot_hp);
    push_u16_le(out, red_3_robot_hp);
    push_u16_le(out, red_4_robot_hp);
    push_u16_le(out, 0);
    push_u16_le(out, red_7_robot_hp);
    push_u16_le(out, red_outpost_hp);
    push_u16_le(out, red_base_hp);
    push_u16_le(out, blue_1_robot_hp);
    push_u16_le(out, blue_2_robot_hp);
    push_u16_le(out, blue_3_robot_hp);
    push_u16_le(out, blue_4_robot_hp);
    push_u16_le(out, 0);
    push_u16_le(out, blue_7_robot_hp);
    push_u16_le(out, blue_outpost_hp);
    push_u16_le(out, blue_base_hp);
    assert(out@ =~= old(out)@ + spec_body(CmdView::GameRobotHP { red_1_robot_hp, red_2_robot_hp, red_3_robot_hp, red_4_robot_hp, red_7_robot_hp, red_outpost_hp, red_base_hp, blue_1_robot_hp, blue_2_robot_hp, blue_3_robot_hp, blue_4_robot_hp, blue_7_robot_hp, blue_outpost_hp, blue_base_hp }));
}

fn enc_event_data(
    out: &mut Vec<u8>,
    supply_no_overlap_occupied: bool,
    supply_overlap_occupied: bool,
    supply_occupied_rmul: bool,
    small_energy_mechanism_active: bool,
    large_energy_mechanism_active: bool,
    center_highland_occupy: OccupyType,
    trapezoid_highland_occupy: OccupyType,
    dart_last_hit_time_s: u16,
    dart_last_hit_target: DartTarget,
    center_buff_occupy: OccupyType,
    fortress_buff_occupy: OccupyType,
)
    ensures
        final(out)@ == old(out)@ + spec_body(CmdView::EventData { supply_no_overlap_occupied, supply_overlap_occupied, supply_occupied_rmul, small_energy_mechanism_active, large_energy_mechanism_active, center_highland_occupy, trapezoid_highland_occupy, dart_last_hit_time_s, dart_last_hit_target, center_buff_occupy, fortress_buff_occupy }),
{
    proof {
        reveal(spec_body);
    }
    let w: u32 = (b32(supply_no_overlap_occupied) << 31) | (b32(supply_overlap_occupied) << 30)
        | (b32(supply_occupied_rmul) << 29) | (b32(small_energy_mechanism_active) << 28)
        | (b32(large_energy_mechanism_active) << 27)
        | ((center_highland_occupy.raw() as u32) << 25)
        | ((trapezoid_highland_occupy.raw() as u32) << 23)
        | (((dart_last_hit_time_s as u32) & 0xff) << 15)
        | ((((dart_last_hit_time_s as u32) >> 8) & 1) << 14)
        | ((dart_last_hit_target.raw() as u32) << 11)
        | ((center_buff_occupy.raw() as u32) << 9)
        | ((fortress_buff_occupy.raw() as u32) << 7);
    push_u32_be(out, w);
    assert(out@ =~= old(out)@ + spec_body(CmdView::EventData { supply_no_overlap_occupied, supply_overlap_occupied, supply_occupied_rmul, small_energy_mechanism_active, large_energy_mechanism_active, center_highland_occupy, trapezoid_highland_occupy, dart_last_hit_time_s, dart_last_hit_target, center_buff_occupy, fortress_buff_occupy }));
}

fn enc_referee_warning(
    out: &mut Vec<u8>,
    level: RefereeWarningLevel,
    offending_robot_id: RobotID,
    count: u8,
)
    ensures
        final(out)@ == old(out)@ + spec_body(CmdView::RefereeWarning { level, offending_robot_id, count }),
{
    proof {
        reveal(spec_body);
    }
    out.push(level.raw());
    out.push(offending_robot_id.raw());
    out.push(count);
    assert(out@ =~= old(out)@ + spec_body(CmdView::RefereeWarning { level, offending_robot_id, count }));
}

fn enc_dart_info(
    out: &mut Vec<u8>,
    dart_remaining_time: u8,
    dart_last_hit_target: DartTarget,
    opponent_target_hit_count: u8,
    dart_selected_target: DartSelectionTarget,
)
    ensures
        final(out)@ == old(out)@ + spec_body(CmdView::DartInfo { dart_remaining_time, dart_last_hit_target, opponent_target_hit_count, dart_selected_target }),
{
    proof {
        reveal(spec_body);
    }
    out.push(dart_remaining_time);
    out.push((dart_last_hit_target.raw() << 5) | ((opponent_target_hit_count & 7) << 2)
        | dart_selected_target.raw());
    out.push(0);
    assert(out@ =~= old(out)@ + spec_body(CmdView::DartInfo { dart_remaining_time, dart_last_hit_target, opponent_target_hit_count, dart_selected_target }));
}

fn enc_robot_status(
    out: &mut Vec<u8>,
    robot_id: RobotID,
    robot_level: u8,
    current_hp: u16,
    maximum_hp: u16,
    shooter_barrel_cooling_value: u16,
    shooter_barrel_heat_limit: u16,
    chassis_power_limit: u16,
    power_management_gimbal_output: bool,
    power_management_chassis_output: bool,
    power_management_shooter_output: bool,
)
    ensures
        final(out)@ == old(out)@ + spec_body(CmdView::RobotStatus { robot_id, robot_level, current_hp, maximum_hp, shooter_barrel_cooling_value, shooter_barrel_heat_limit, chassis_power_limit, power_management_gimbal_output, power_management_chassis_output, power_management_shooter_output }),
{
    proof {
        reveal(spec_body);
    }
    out.push(robot_id.raw());
    out.push(robot_level);
    push_u16_le(out, current_hp);
    push_u16_le(out, maximum_hp);
    push_u16_le(out, shooter_barrel_cooling_value);
    push_u16_le(out, shooter_barrel_heat_limit);
    push_u16_le(out, chassis_power_limit);
    out.push((b8(power_management_gimbal_output) << 7)
        | (b8(power_management_chassis_output) << 6)
        | (b8(power_management_shooter_output) << 5));
    assert(out@ =~= old(out)@ + spec_body(CmdView::RobotStatus { robot_id, robot_level, current_hp, maximum_hp, shooter_barrel_cooling_value, shooter_barrel_heat_limit, chassis_power_limit, power_management_gimbal_output, power_management_chassis_output, power_management_shooter_output }));
}

fn enc_power_heat_data(
    out: &mut Vec<u8>,
    buffer_energy: u16,
    shooter_17mm_1_barrel_heat: u16,
    shooter_17mm_2_barrel_heat: u16,
    shooter_42mm_barrel_heat: u16,
)
    ensures
        final(out)@ == old(out)@ + spec_body(CmdView::PowerHeatData { buffer_energy, shooter_17mm_1_barrel_heat, shooter_17mm_2_barrel_heat, shooter_42mm_barrel_heat }),
{
    proof {
        reveal(spec_body);
    }
    push_u16_le(out, 0);
    push_u16_le(out, 0);
    push_u32_le(out, 0);
    push_u16_le(out, buffer_energy);
    push_u16_le(out, shooter_17mm_1_barrel_heat);
    push_u16_le(out, shooter_17mm_2_barrel_heat);
    push_u16_le(out, shooter_42mm_barrel_heat);
    assert(out@ =~= old(out)@ + spec_body(CmdView::PowerHeatData { buffer_energy, shooter_17mm_1_barrel_heat, shooter_17mm_2_barrel_heat, shooter_42mm_barrel_heat }));
}

fn enc_robot_pos(
    out: &mut Vec<u8>,
    x: u32,
    y: u32,
    angle: u32,
)
    ensures
        final(out)@ == old(out)@ + spec_body(CmdView::RobotPos { x, y, angle }),
{
    proof {
        reveal(spec_body);
    }
    push_u32_le(out, x);
    push_u32_le(out, y);
    push_u32_le(out, angle);
    assert(out@ =~= old(out)@ + spec_body(CmdView::RobotPos { x, y, angle }));
}

fn enc_buff(
    out: &mut Vec<u8>,
    recovery_buff: u8,
    cooling_buff: u8,
    defense_buff: u8,
    vulnerability_buff: u8,
    attack_buff: u16,
    energy_ge_50: bool,
    energy_ge_30: bool,
    energy_ge_15: bool,
    energy_ge_5: bool,
    energy_ge_1: bool,
)
    ensures
        final(out)@ == old(out)@ + spec_body(CmdView::Buff { recovery_buff, cooling_buff, defense_buff, vulnerability_buff, attack_buff, energy_ge_50, energy_ge_30, energy_ge_15, energy_ge_5, energy_ge_1 }),
{
    proof {
        reveal(spec_body);
    }
    out.push(recovery_buff);
    out.push(cooling_buff);
    out.push(defense_buff);
    out.push(vulnerability_buff);
    push_u16_le(out, attack_buff);
    out.push((b8(energy_ge_50) << 7) | (b8(energy_ge_30) << 6) | (b8(energy_ge_15) << 5)
        | (b8(energy_ge_5) << 4) | (b8(energy_ge_1) << 3));
    assert(out@ =~= old(out)@ + spec_body(CmdView::Buff { recovery_buff, cooling_buff, defense_buff, vulnerability_buff, attack_buff, energy_ge_50, energy_ge_30, energy_ge_15, energy_ge_5, energy_ge_1 }));
}

fn enc_hurt_data(
    out: &mut Vec<u8>,
    armor_id: u8,
    hp_deduction_reason: HpDeductionReason,
)
    ensures
        final(out)@ == old(out)@ + spec_body(CmdView::HurtData { armor_id, hp_deduction_reason }),
{
    proof {
        reveal(spec_body);
    }
    out.push((armor_id << 4) | hp_deduction_reason.raw());
    assert(out@ =~= old(out)@ + spec_body(CmdView::HurtData { armor_id, hp_deduction_reason }));
}

fn enc_shoot_data(
    out: &mut Vec<u8>,
    bullet_type: BulletType,
    shooter_number: ShooterNumber,
    launching_frequency: u8,
    initial_speed: u32,
)
    ensures
        final(out)@ == old(out)@ + spec_body(CmdView::ShootData { bullet_type, shooter_number, launching_frequency, initial_speed }),
{
    proof {
        reveal(spec_body);
    }
    out.push(bullet_type.raw());
    out.push(shooter_number.raw());
    out.push(launching_frequency);
    push_u32_le(out, initial_speed);
    assert(out@ =~= old(out)@ + spec_body(CmdView::ShootData { bullet_type, shooter_number, launching_frequency, initial_speed }));
}

fn enc_projectile_allowance(
    out: &mut Vec<u8>,
    projectile_allowance_17mm: u16,
    projectile_allowance_42mm: u16,
    remaining_gold_coin: u16,
    projectile_allowance_fortress: u16,
)
    ensures
        final(out)@ == old(out)@ + spec_body(CmdView::ProjectileAllowance { projectile_allowance_17mm, projectile_allowance_42mm, remaining_gold_coin, projectile_allowance_fortress }),
{
    proof {
        reveal(spec_body);
    }
    push_u16_le(out, projectile_allowance_17mm);
    push_u16_le(out, projectile_allowance_42mm);
    push_u16_le(out, remaining_gold_coin);
    push_u16_le(out, projectile_allowance_fortress);
    assert(out@ =~= old(out)@ + spec_body(CmdView::ProjectileAllowance { projectile_allowance_17mm, projectile_allowance_42mm, remaining_gold_coin, projectile_allowance_fortress }));
}

/// Pack the twenty-five RFID presence flags into their 32-bit word.
fn rfid_word_exec(
    our_base_buff: bool,
    our_center_highland_buff: bool,
    enemy_center_highland_buff: bool,
    our_trapezoid_highland_buff: bool,
    enemy_trapezoid_highland_buff: bool,
    our_ramp_near_front: bool,
    our_ramp_near_back: bool,
    enemy_ramp_near_front: bool,
    enemy_ramp_near_back: bool,
    our_cross_center_lower: bool,
    our_cross_center_upper: bool,
    enemy_cross_center_lower: bool,
    enemy_cross_center_upper: bool,
    our_cross_road_lower: bool,
    our_cross_road_upper: bool,
    enemy_cross_road_lower: bool,
    enemy_cross_road_upper: bool,
    our_fortress_buff: bool,
    our_outpost_buff: bool,
    our_supply_nonoverlap_or_rmul: bool,
    our_supply_overlap: bool,
    our_big_island_buff: bool,
    enemy_big_island_buff: bool,
    center_buff_rmul_only: bool,
    enemy_fortress_buff: bool,
) -> (w: u32)
    ensures
        w == rfid_word(
            b2w32(our_base_buff),
            b2w32(our_center_highland_buff),
            b2w32(enemy_center_highland_buff),
            b2w32(our_trapezoid_highland_buff),
            b2w32(enemy_trapezoid_highland_buff),
            b2w32(our_ramp_near_front),
            b2w32(our_ramp_near_back),
            b2w32(enemy_ramp_near_front),
            b2w32(enemy_ramp_near_back),
            b2w32(our_cross_center_lower),
            b2w32(our_cross_center_upper),
            b2w32(enemy_cross_center_lower),
            b2w32(enemy_cross_center_upper),
            b2w32(our_cross_road_lower),
            b2w32(our_cross_road_upper),
            b2w32(enemy_cross_road_lower),
            b2w32(enemy_cross_road_upper),
            b2w32(our_fortress_buff),
            b2w32(our_outpost_buff),
            b2w32(our_supply_nonoverlap_or_rmul),
            b2w32(our_supply_overlap),
            b2w32(our_big_island_buff),
            b2w32(enemy_big_island_buff),
            b2w32(center_buff_rmul_only),
            b2w32(enemy_fortress_buff),
        ),
{
    proof {
        reveal(rfid_word);
    }
    (b32(our_base_buff) << 31)
        | (b32(our_center_highland_buff) << 30)
        | (b32(enemy_center_highland_buff) << 29)
        | (b32(our_trapezoid_highland_buff) << 28)
        | (b32(enemy_trapezoid_highland_buff) << 27)
        | (b32(our_ramp_near_front) << 26)
        | (b32(our_ramp_near_back) << 25)
        | (b32(enemy_ramp_near_front) << 24)
        | (b32(enemy_ramp_near_back) << 23)
        | (b32(our_cross_center_lower) << 22)
        | (b32(our_cross_center_upper) << 21)
        | (b32(enemy_cross_center_lower) << 20)
        | (b32(enemy_cross_center_upper) << 19)
        | (b32(our_cross_road_lower) << 18)
        | (b32(our_cross_road_upper) << 17)
        | (b32(enemy_cross_road_lower) << 16)
        | (b32(enemy_cross_road_upper) << 15)
        | (b32(our_fortress_buff) << 14)
        | (b32(our_outpost_buff) << 13)
        | (b32(our_supply_nonoverlap_or_rmul) << 12)
        | (b32(our_supply_overlap) << 11)
        | (b32(our_big_island_buff) << 10)
        | (b32(enemy_big_island_buff) << 9)
        | (b32(center_buff_rmul_only) << 8)
        | (b32(enemy_fortress_buff) << 7)
}

/// The packed presence word of a flag payload.
fn rfid_word_from_flags(c: &RefereeFrameCmdData) -> (w: u32)
    requires
        c@ matches CmdView::RFIDStatus { .. },
    ensures
        w == rfid_word_of(c@),
{
    match c {
        RefereeFrameCmdData::RFIDStatus { our_base_buff, our_center_highland_buff, enemy_center_highland_buff, our_trapezoid_highland_buff, enemy_trapezoid_highland_buff, our_ramp_near_front, our_ramp_near_back, enemy_ramp_near_front, enemy_ramp_near_back, our_cross_center_lower, our_cross_center_upper, enemy_cross_center_lower, enemy_cross_center_upper, our_cross_road_lower, our_cross_road_upper, enemy_cross_road_lower, enemy_cross_road_upper, our_fortress_buff, our_outpost_buff, our_supply_nonoverlap_or_rmul, our_supply_overlap, our_big_island_buff, enemy_big_island_buff, center_buff_rmul_only, enemy_fortress_buff } => {
            rfid_word_exec(*our_base_buff, *our_center_highland_buff, *enemy_center_highland_buff, *our_trapezoid_highland_buff, *enemy_trapezoid_highland_buff, *our_ramp_near_front, *our_ramp_near_back, *enemy_ramp_near_front, *enemy_ramp_near_back, *our_cross_center_lower, *our_cross_center_upper, *enemy_cross_center_lower, *enemy_cross_center_upper, *our_cross_road_lower, *our_cross_road_upper, *enemy_cross_road_lower, *enemy_cross_road_upper, *our_fortress_buff, *our_outpost_buff, *our_supply_nonoverlap_or_rmul, *our_supply_overlap, *our_big_island_buff, *enemy_big_island_buff, *center_buff_rmul_only, *enemy_fortress_buff)
        },
        _ => {
            proof {
                assert(false);
            }
            0
        },
    }
}

/// Bit `k` of the presence word, as the flag it carries.
fn bit_flag(w: u32, k: u32) -> (r: bool)
    requires
        k < 32,
    ensures
        r == rfid_flag(w, k),
{
    (w >> k) & 1 == 1
}

/// Unpack one big-endian presence word into the flag payload; the view is
/// exactly `rfid_flags_view` of the word.
fn rfid_flags_from_word(w: u32) -> (r: RefereeFrameCmdData)
    ensures
        r@ == rfid_flags_view(w),
{
    RefereeFrameCmdData::RFIDStatus {
        our_base_buff: bit_flag(w, 31),
        our_center_highland_buff: bit_flag(w, 30),
        enemy_center_highland_buff: bit_flag(w, 29),
        our_trapezoid_highland_buff: bit_flag(w, 28),
        enemy_trapezoid_highland_buff: bit_flag(w, 27),
        our_ramp_near_front: bit_flag(w, 26),
        our_ramp_near_back: bit_flag(w, 25),
        enemy_ramp_near_front: bit_flag(w, 24),
        enemy_ramp_near_back: bit_flag(w, 23),
        our_cross_center_lower: bit_flag(w, 22),
        our_cross_center_upper: bit_flag(w, 21),
        enemy_cross_center_lower: bit_flag(w, 20),
        enemy_cross_center_upper: bit_flag(w, 19),
        our_cross_road_lower: bit_flag(w, 18),
        our_cross_road_upper: bit_flag(w, 17),
        enemy_cross_road_lower: bit_flag(w, 16),
        enemy_cross_road_upper: bit_flag(w, 15),
        our_fortress_buff: bit_flag(w, 14),
        our_outpost_buff: bit_flag(w, 13),
        our_supply_nonoverlap_or_rmul: bit_flag(w, 12),
        our_supply_overlap: bit_flag(w, 11),
        our_big_island_buff: bit_flag(w, 10),
        enemy_big_island_buff: bit_flag(w, 9),
        center_buff_rmul_only: bit_flag(w, 8),
        enemy_fortress_buff: bit_flag(w, 7),
    }
}

fn enc_dart_client_cmd(
    out: &mut Vec<u8>,
    dart_launch_opening_status: u8,
    target_change_time: u16,
    latest_launch_cmd_time: u16,
)
    ensures
        final(out)@ == old(out)@ + spec_body(CmdView::DartClientCmd { dart_launch_opening_status, target_change_time, latest_launch_cmd_time }),
{
    proof {
        reveal(spec_body);
    }
    out.push(dart_launch_opening_status);
    out.push(0);
    push_u16_le(out, target_change_time);
    push_u16_le(out, latest_launch_cmd_time);
    assert(out@ =~= old(out)@ + spec_body(CmdView::DartClientCmd { dart_launch_opening_status, target_change_time, latest_launch_cmd_time }));
}

fn enc_ground_robot_position(
    out: &mut Vec<u8>,
    hero_x: u32,
    hero_y: u32,
    engineer_x: u32,
    engineer_y: u32,
    standard_3_x: u32,
    standard_3_y: u32,
    standard_4_x: u32,
    standard_4_y: u32,
)
    ensures
        final(out)@ == old(out)@ + spec_body(CmdView::GroundRobotPosition { hero_x, hero_y, engineer_x, engineer_y, standard_3_x, standard_3_y, standard_4_x, standard_4_y }),
{
    proof {
        reveal(spec_body);
    }
    push_u32_le(out, hero_x);
    push_u32_le(out, hero_y);
    push_u32_le(out, engineer_x);
    push_u32_le(out, engineer_y);
    push_u32_le(out, standard_3_x);
    push_u32_le(out, standard_3_y);
    push_u32_le(out, standard_4_x);
    push_u32_le(out, standard_4_y);
    push_u32_le(out, 0);
    push_u32_le(out, 0);
    assert(out@ =~= old(out)@ + spec_body(CmdView::GroundRobotPosition { hero_x, hero_y, engineer_x, engineer_y, standard_3_x, standard_3_y, standard_4_x, standard_4_y }));
}

fn enc_radar_mark_data(
    out: &mut Vec<u8>,
    enemy_hero_vulnerable: bool,
    enemy_engineer_vulnerable: bool,
    enemy_infantry3_vulnerable: bool,
    enemy_infantry4_vulnerable: bool,
    enemy_sentry_vulnerable: bool,
)
    ensures
        final(out)@ == old(out)@ + spec_body(CmdView::RadarMarkData { enemy_hero_vulnerable, enemy_engineer_vulnerable, enemy_infantry3_vulnerable, enemy_infantry4_vulnerable, enemy_sentry_vulnerable }),
{
    proof {
        reveal(spec_body);
    }
    out.push((b8(enemy_hero_vulnerable) << 7) | (b8(enemy_engineer_vulnerable) << 6)
        | (b8(enemy_infantry3_vulnerable) << 5) | (b8(enemy_infantry4_vulnerable) << 4)
        | (b8(enemy_sentry_vulnerable) << 3));
    assert(out@ =~= old(out)@ + spec_body(CmdView::RadarMarkData { enemy_hero_vulnerable, enemy_engineer_vulnerable, enemy_infantry3_vulnerable, enemy_infantry4_vulnerable, enemy_sentry_vulnerable }));
}

fn enc_sentry_info(
    out: &mut Vec<u8>,
    sentry_info: u32,
    sentry_info_2: u16,
)
    ensures
        final(out)@ == old(out)@ + spec_body(CmdView::SentryInfo { sentry_info, sentry_info_2 }),
{
    proof {
        reveal(spec_body);
    }
    push_u32_le(out, sentry_info);
    push_u16_le(out, sentry_info_2);
    assert(out@ =~= old(out)@ + spec_body(CmdView::SentryInfo { sentry_info, sentry_info_2 }));
}

fn enc_radar_info(
    out: &mut Vec<u8>,
    double_vulnerability_chance: u8,
    enemy_in_double_vulnerability: bool,
)
    ensures
        final(out)@ == old(out)@ + spec_body(CmdView::RadarInfo { double_vulnerability_chance, enemy_in_double_vulnerability }),
{
    proof {
        reveal(spec_body);
    }
    out.push(((double_vulnerability_chance & 3) << 6) | (b8(enemy_in_double_vulnerability) << 5));
    assert(out@ =~= old(out)@ + spec_body(CmdView::RadarInfo { double_vulnerability_chance, enemy_in_double_vulnerability }));
}

fn enc_robot_interaction_data(
    out: &mut Vec<u8>,
    data_cmd_id: u16,
    sender_id: EndpointId,
    receiver_id: EndpointId,
    user_data: &Vec<u8>,
)
    ensures
        final(out)@ == old(out)@ + spec_body(CmdView::RobotInteractionData { data_cmd_id, sender_id, receiver_id, user_data: user_data@ }),
{
    proof {
        reveal(spec_body);
    }
    push_u16_le(out, data_cmd_id);
    push_u16_le(out, sender_id.raw());
    push_u16_le(out, receiver_id.raw());
    push_bytes(out, user_data);
    assert(out@ =~= old(out)@ + spec_body(CmdView::RobotInteractionData { data_cmd_id, sender_id, receiver_id, user_data: user_data@ }));
}

fn enc_custom_robot_data(
    out: &mut Vec<u8>,
    data: &Vec<u8>,
)
    ensures
        final(out)@ == old(out)@ + spec_body(CmdView::CustomRobotData { data: data@ }),
{
    proof {
        reveal(spec_body);
    }
    push_bytes(out, data);
    assert(out@ =~= old(out)@ + spec_body(CmdView::CustomRobotData { data: data@ }));
}

fn enc_map_command(
    out: &mut Vec<u8>,
    target_position_x: u32,
    target_position_y: u32,
    cmd_keyboard: u8,
    target_robot_id: RobotID,
    cmd_source: EndpointId,
)
    ensures
        final(out)@ == old(out)@ + spec_body(CmdView::MapCommand { target_position_x, target_position_y, cmd_keyboard, target_robot_id, cmd_source }),
{
    proof {
        reveal(spec_body);
    }
    push_u32_le(out, target_position_x);
    push_u32_le(out, target_position_y);
    out.push(cmd_keyboard);
    out.push(target_robot_id.raw());
    push_u16_le(out, cmd_source.raw());
    assert(out@ =~= old(out)@ + spec_body(CmdView::MapCommand { target_position_x, target_position_y, cmd_keyboard, target_robot_id, cmd_source }));
}

fn enc_remote_control(
    out: &mut Vec<u8>,
    mouse_x: i16,
    mouse_y: i16,
    mouse_z: i16,
    left_button_down: u8,
    right_button_down: u8,
    keyboard_value: u16,
    reserved: u16,
)
    ensures
        final(out)@ == old(out)@ + spec_body(CmdView::RemoteControl { mouse_x, mouse_y, mouse_z, left_button_down, right_button_down, keyboard_value, reserved }),
{
    proof {
        reveal(spec_body);
    }
    push_u16_le(out, i16_to_wire(mouse_x));
    push_u16_le(out, i16_to_wire(mouse_y));
    push_u16_le(out, i16_to_wire(mouse_z));
    out.push(left_button_down);
    out.push(right_button_down);
    push_u16_le(out, keyboard_value);
    push_u16_le(out, reserved);
    assert(out@ =~= old(out)@ + spec_body(CmdView::RemoteControl { mouse_x, mouse_y, mouse_z, left_button_down, right_button_down, keyboard_value, reserved }));
}

fn enc_map_robot_data(
    out: &mut Vec<u8>,
    hero_position_x: u16,
    hero_position_y: u16,
    engineer_position_x: u16,
    engineer_position_y: u16,
    infantry_3_position_x: u16,
    infantry_3_position_y: u16,
    infantry_4_position_x: u16,
    infantry_4_position_y: u16,
    infantry_5_position_x: u16,
    infantry_5_position_y: u16,
    sentry_position_x: u16,
    sentry_position_y: u16,
)
    ensures
        final(out)@ == old(out)@ + spec_body(CmdView::MapRobotData { hero_position_x, hero_position_y, engineer_position_x, engineer_position_y, infantry_3_position_x, infantry_3_position_y, infantry_4_position_x, infantry_4_position_y, infantry_5_position_x, infantry_5_position_y, sentry_position_x, sentry_position_y }),
{
    proof {
        reveal(spec_body);
    }
    push_u16_le(out, hero_position_x);
    push_u16_le(out, hero_position_y);
    push_u16_le(out, engineer_position_x);
    push_u16_le(out, engineer_position_y);
    push_u16_le(out, infantry_3_position_x);
    push_u16_le(out, infantry_3_position_y);
    push_u16_le(out, infantry_4_position_x);
    push_u16_le(out, infantry_4_position_y);
    push_u16_le(out, infantry_5_position_x);
    push_u16_le(out, infantry_5_position_y);
    push_u16_le(out, sentry_position_x);
    push_u16_le(out, sentry_position_y);
    assert(out@ =~= old(out)@ + spec_body(CmdView::MapRobotData { hero_position_x, hero_position_y, engineer_position_x, engineer_position_y, infantry_3_position_x, infantry_3_position_y, infantry_4_position_x, infantry_4_position_y, infantry_5_position_x, infantry_5_position_y, sentry_position_x, sentry_position_y }));
}

fn enc_simulate_control(
    out: &mut Vec<u8>,
    keyboard_value: u16,
    mouse_x_pos: u16,
    mouse_left_state: u8,
    mouse_y_pos: u16,
    mouse_right_state: u8,
    reserved: u16,
)
    ensures
        final(out)@ == old(out)@ + spec_body(CmdView::SimulateControl { keyboard_value, mouse_x_pos, mouse_left_state, mouse_y_pos, mouse_right_state, reserved }),
{
    proof {
        reveal(spec_body);
    }
    push_u16_le(out, keyboard_value);
    push_u16_be(out, ((mouse_x_pos & 0xff) << 8) | (((mouse_x_pos >> 8) & 0xf) << 4)
        | ((mouse_left_state as u16) & 0xf));
    push_u16_be(out, ((mouse_y_pos & 0xff) << 8) | (((mouse_y_pos >> 8) & 0xf) << 4)
        | ((mouse_right_state as u16) & 0xf));
    push_u16_le(out, reserved);
    assert(out@ =~= old(out)@ + spec_body(CmdView::SimulateControl { keyboard_value, mouse_x_pos, mouse_left_state, mouse_y_pos, mouse_right_state, reserved }));
}

fn enc_map_path_data(
    out: &mut Vec<u8>,
    intention: u8,
    start_position_x: u16,
    start_position_y: u16,
    delta_x: &Vec<i8>,
    delta_y: &Vec<i8>,
    sender_id: EndpointId,
)
    ensures
        final(out)@ == old(out)@ + spec_body(CmdView::MapPathData { intention, start_position_x, start_position_y, delta_x: delta_x@, delta_y: delta_y@, sender_id }),
{
    proof {
        reveal(spec_body);
    }
    out.push(intention);
    push_u16_le(out, start_position_x);
    push_u16_le(out, start_position_y);
    push_i8s(out, delta_x);
    push_i8s(out, delta_y);
    push_u16_le(out, sender_id.raw());
    assert(out@ =~= old(out)@ + spec_body(CmdView::MapPathData { intention, start_position_x, start_position_y, delta_x: delta_x@, delta_y: delta_y@, sender_id }));
}

fn enc_custom_info(
    out: &mut Vec<u8>,
    sender_id: EndpointId,
    receiver_id: EndpointId,
    data: &Vec<u8>,
)
    ensures
        final(out)@ == old(out)@ + spec_body(CmdView::CustomInfo { sender_id, receiver_id, data: data@ }),
{
    proof {
        reveal(spec_body);
    }
    push_u16_le(out, sender_id.raw());
    push_u16_le(out, receiver_id.raw());
    push_bytes(out, data);
    assert(out@ =~= old(out)@ + spec_body(CmdView::CustomInfo { sender_id, receiver_id, data: data@ }));
}

fn enc_robot_custom_data(
    out: &mut Vec<u8>,
    data: &Vec<u8>,
)
    ensures
        final(out)@ == old(out)@ + spec_body(CmdView::RobotCustomData { data: data@ }),
{
    proof {
        reveal(spec_body);
    }
    push_bytes(out, data);
    assert(out@ =~= old(out)@ + spec_body(CmdView::RobotCustomData { data: data@ }));
}
fn dx_game_status(b: &[u8]) -> (r: Result<RefereeFrameCmdData, DecodeError>)
    ensures
        cmd_result_view(r) == dec_game_status(b@),
{
    proof {
        reveal(dec_game_status);
    }
    if b.len() < 11 {
        return Err(DecodeError::TruncatedPayload);
    }
    if b.len() > 11 {
        return Err(DecodeError::TrailingBytes);
    }
    let game_type = match GameType::from_raw(b[0] >> 4) {
        Some(v) => v,
        None => {
            return Err(DecodeError::InvalidEnumValue(EnumField::GameType, (b[0] >> 4) as u16));
        },
    };
    let game_progress = match GameProgress::from_raw(b[0] & 0xf) {
        Some(v) => v,
        None => {
            return Err(DecodeError::InvalidEnumValue(EnumField::GameProgress, (b[0] & 0xf) as u16));
        },
    };
    Ok(RefereeFrameCmdData::GameStatus {
        game_type,
        game_progress,
        stage_remain_time: get_u16_le(b, 1),
        sync_time_stamp: get_u64_le(b, 3),
    })
}

fn dx_game_result(b: &[u8]) -> (r: Result<RefereeFrameCmdData, DecodeError>)
    ensures
        cmd_result_view(r) == dec_game_result(b@),
{
    proof {
        reveal(dec_game_result);
    }
    if b.len() < 1 {
        return Err(DecodeError::TruncatedPayload);
    }
    if b.len() > 1 {
        return Err(DecodeError::TrailingBytes);
    }
    let result = match GameResult::from_raw(b[0]) {
        Some(v) => v,
        None => {
            return Err(DecodeError::InvalidEnumValue(EnumField::GameResult, b[0] as u16));
        },
    };
    Ok(RefereeFrameCmdData::GameResult {
        result,
    })
}

fn dx_game_robot_hp(b: &[u8]) -> (r: Result<RefereeFrameCmdData, DecodeError>)
    ensures
        cmd_result_view(r) == dec_game_robot_hp(b@),
{
    proof {
        reveal(dec_game_robot_hp);
    }
    if b.len() < 32 {
        return Err(DecodeError::TruncatedPayload);
    }
    if b.len() > 32 {
        return Err(DecodeError::TrailingBytes);
    }

    Ok(RefereeFrameCmdData::GameRobotHP {
        red_1_robot_hp: get_u16_le(b, 0),
        red_2_robot_hp: get_u16_le(b, 2),
        red_3_robot_hp: get_u16_le(b, 4),
        red_4_robot_hp: get_u16_le(b, 6),
        red_7_robot_hp: get_u16_le(b, 10),
        red_outpost_hp: get_u16_le(b, 12),
        red_base_hp: get_u16_le(b, 14),
        blue_1_robot_hp: get_u16_le(b, 16),
        blue_2_robot_hp: get_u16_le(b, 18),
        blue_3_robot_hp: get_u16_le(b, 20),
        blue_4_robot_hp: get_u16_le(b, 22),
        blue_7_robot_hp: get_u16_le(b, 26),
        blue_outpost_hp: get_u16_le(b, 28),
        blue_base_hp: get_u16_le(b, 30),
    })
}

fn dx_event_data(b: &[u8]) -> (r: Result<RefereeFrameCmdData, DecodeError>)
    ensures
        cmd_result_view(r) == dec_event_data(b@),
{
    proof {
        reveal(dec_event_data);
    }
    if b.len() < 4 {
        return Err(DecodeError::TruncatedPayload);
    }
    if b.len() > 4 {
        return Err(DecodeError::TrailingBytes);
    }
    let w = get_u32_be(b, 0);
    let center_highland_occupy = match OccupyType::from_raw(mask8(w >> 25, 3)) {
        Some(v) => v,
        None => {
            return Err(DecodeError::InvalidEnumValue(EnumField::OccupyType, mask8(w >> 25, 3) as u16));
        },
    };
    let trapezoid_highland_occupy = match OccupyType::from_raw(mask8(w >> 23, 3)) {
        Some(v) => v,
        None => {
            return Err(DecodeError::InvalidEnumValue(EnumField::OccupyType, mask8(w >> 23, 3) as u16));
        },
    };
    let dart_last_hit_target = match DartTarget::from_raw(mask8(w >> 11, 7)) {
        Some(v) => v,
        None => {
            return Err(DecodeError::InvalidEnumValue(EnumField::DartTarget, mask8(w >> 11, 7) as u16));
        },
    };
    let center_buff_occupy = match OccupyType::from_raw(mask8(w >> 9, 3)) {
        Some(v) => v,
        None => {
            return Err(DecodeError::InvalidEnumValue(EnumField::OccupyType, mask8(w >> 9, 3) as u16));
        },
    };
    let fortress_buff_occupy = match OccupyType::from_raw(mask8(w >> 7, 3)) {
        Some(v) => v,
        None => {
            return Err(DecodeError::InvalidEnumValue(EnumField::OccupyType, mask8(w >> 7, 3) as u16));
        },
    };
    Ok(RefereeFrameCmdData::EventData {
        supply_no_overlap_occupied: (w >> 31) & 1 == 1,
        supply_overlap_occupied: (w >> 30) & 1 == 1,
        supply_occupied_rmul: (w >> 29) & 1 == 1,
        small_energy_mechanism_active: (w >> 28) & 1 == 1,
        large_energy_mechanism_active: (w >> 27) & 1 == 1,
        center_highland_occupy,
        trapezoid_highland_occupy,
        dart_last_hit_time_s: low16_32(((w >> 15) & 0xff) | (((w >> 14) & 1) << 8)),
        dart_last_hit_target,
        center_buff_occupy,
        fortress_buff_occupy,
    })
}

fn dx_referee_warning(b: &[u8]) -> (r: Result<RefereeFrameCmdData, DecodeError>)
    ensures
        cmd_result_view(r) == dec_referee_warning(b@),
{
    proof {
        reveal(dec_referee_warning);
    }
    if b.len() < 3 {
        return Err(DecodeError::TruncatedPayload);
    }
    if b.len() > 3 {
        return Err(DecodeError::TrailingBytes);
    }
    let level = match RefereeWarningLevel::from_raw(b[0]) {
        Some(v) => v,
        None => {
            return Err(DecodeError::InvalidEnumValue(EnumField::RefereeWarningLevel, b[0] as u16));
        },
    };
    let offending_robot_id = match RobotID::from_raw(b[1]) {
        Some(v) => v,
        None => {
            return Err(DecodeError::InvalidEnumValue(EnumField::RobotId, b[1] as u16));
        },
    };
    Ok(RefereeFrameCmdData::RefereeWarning {
        level,
        offending_robot_id,
        count: b[2],
    })
}

fn dx_dart_info(b: &[u8]) -> (r: Result<RefereeFrameCmdData, DecodeError>)
    ensures
        cmd_result_view(r) == dec_dart_info(b@),
{
    proof {
        reveal(dec_dart_info);
    }
    if b.len() < 3 {
        return Err(DecodeError::TruncatedPayload);
    }
    if b.len() > 3 {
        return Err(DecodeError::TrailingBytes);
    }
    let dart_last_hit_target = match DartTarget::from_raw(b[1] >> 5) {
        Some(v) => v,
        None => {
            return Err(DecodeError::InvalidEnumValue(EnumField::DartTarget, (b[1] >> 5) as u16));
        },
    };
    let dart_selected_target = match DartSelectionTarget::from_raw(b[1] & 3) {
        Some(v) => v,
        None => {
            return Err(DecodeError::InvalidEnumValue(EnumField::DartSelectionTarget, (b[1] & 3) as u16));
        },
    };
    Ok(RefereeFrameCmdData::DartInfo {
        dart_remaining_time: b[0],
        dart_last_hit_target,
        opponent_target_hit_count: (b[1] >> 2) & 7,
        dart_selected_target,
    })
}

fn dx_robot_status(b: &[u8]) -> (r: Result<RefereeFrameCmdData, DecodeError>)
    ensures
        cmd_result_view(r) == dec_robot_status(b@),
{
    proof {
        reveal(dec_robot_status);
    }
    if b.len() < 13 {
        return Err(DecodeError::TruncatedPayload);
    }
    if b.len() > 13 {
        return Err(DecodeError::TrailingBytes);
    }
    let robot_id = match RobotID::from_raw(b[0]) {
        Some(v) => v,
        None => {
            return Err(DecodeError::InvalidEnumValue(EnumField::RobotId, b[0] as u16));
        },
    };
    Ok(RefereeFrameCmdData::RobotStatus {
        robot_id,
        robot_level: b[1],
        current_hp: get_u16_le(b, 2),
        maximum_hp: get_u16_le(b, 4),
        shooter_barrel_cooling_value: get_u16_le(b, 6),
        shooter_barrel_heat_limit: get_u16_le(b, 8),
        chassis_power_limit: get_u16_le(b, 10),
        power_management_gimbal_output: (b[12] >> 7) & 1 == 1,
        power_management_chassis_output: (b[12] >> 6) & 1 == 1,
        power_management_shooter_output: (b[12] >> 5) & 1 == 1,
    })
}

fn dx_power_heat_data(b: &[u8]) -> (r: Result<RefereeFrameCmdData, DecodeError>)
    ensures
        cmd_result_view(r) == dec_power_heat(b@),
{
    proof {
        reveal(dec_power_heat);
    }
    if b.len() < 16 {
        return Err(DecodeError::TruncatedPayload);
    }
    if b.len() > 16 {
        return Err(DecodeError::TrailingBytes);
    }

    Ok(RefereeFrameCmdData::PowerHeatData {
        buffer_energy: get_u16_le(b, 8),
        shooter_17mm_1_barrel_heat: get_u16_le(b, 10),
        shooter_17mm_2_barrel_heat: get_u16_le(b, 12),
        shooter_42mm_barrel_heat: get_u16_le(b, 14),
    })
}

fn dx_robot_pos(b: &[u8]) -> (r: Result<RefereeFrameCmdData, DecodeError>)
    ensures
        cmd_result_view(r) == dec_robot_pos(b@),
{
    proof {
        reveal(dec_robot_pos);
    }
    if b.len() < 12 {
        return Err(DecodeError::TruncatedPayload);
    }
    if b.len() > 12 {
        return Err(DecodeError::TrailingBytes);
    }

    Ok(RefereeFrameCmdData::RobotPos {
        x: get_u32_le(b, 0),
        y: get_u32_le(b, 4),
        angle: get_u32_le(b, 8),
    })
}

fn dx_buff(b: &[u8]) -> (r: Result<RefereeFrameCmdData, DecodeError>)
    ensures
        cmd_result_view(r) == dec_buff(b@),
{
    proof {
        reveal(dec_buff);
    }
    if b.len() < 7 {
        return Err(DecodeError::TruncatedPayload);
    }
    if b.len() > 7 {
        return Err(DecodeError::TrailingBytes);
    }

    Ok(RefereeFrameCmdData::Buff {
        recovery_buff: b[0],
        cooling_buff: b[1],
        defense_buff: b[2],
        vulnerability_buff: b[3],
        attack_buff: get_u16_le(b, 4),
        energy_ge_50: (b[6] >> 7) & 1 == 1,
        energy_ge_30: (b[6] >> 6) & 1 == 1,
        energy_ge_15: (b[6] >> 5) & 1 == 1,
        energy_ge_5: (b[6] >> 4) & 1 == 1,
        energy_ge_1: (b[6] >> 3) & 1 == 1,
    })
}

fn dx_hurt_data(b: &[u8]) -> (r: Result<RefereeFrameCmdData, DecodeError>)
    ensures
        cmd_result_view(r) == dec_hurt_data(b@),
{
    proof {
        reveal(dec_hurt_data);
    }
    if b.len() < 1 {
        return Err(DecodeError::TruncatedPayload);
    }
    if b.len() > 1 {
        return Err(DecodeError::TrailingBytes);
    }
    let hp_deduction_reason = match HpDeductionReason::from_raw(b[0] & 0xf) {
        Some(v) => v,
        None => {
            return Err(DecodeError::InvalidEnumValue(EnumField::HpDeductionReason, (b[0] & 0xf) as u16));
        },
    };
    Ok(RefereeFrameCmdData::HurtData {
        armor_id: b[0] >> 4,
        hp_deduction_reason,
    })
}

fn dx_shoot_data(b: &[u8]) -> (r: Result<RefereeFrameCmdData, DecodeError>)
    ensures
        cmd_result_view(r) == dec_shoot_data(b@),
{
    proof {
        reveal(dec_shoot_data);
    }
    if b.len() < 7 {
        return Err(DecodeError::TruncatedPayload);
    }
    if b.len() > 7 {
        return Err(DecodeError::TrailingBytes);
    }
    let bullet_type = match BulletType::from_raw(b[0]) {
        Some(v) => v,
        None => {
            return Err(DecodeError::InvalidEnumValue(EnumField::BulletType, b[0] as u16));
        },
    };
    let shooter_number = match ShooterNumber::from_raw(b[1]) {
        Some(v) => v,
        None => {
            return Err(DecodeError::InvalidEnumValue(EnumField::ShooterNumber, b[1] as u16));
        },
    };
    Ok(RefereeFrameCmdData::ShootData {
        bullet_type,
        shooter_number,
        launching_frequency: b[2],
        initial_speed: get_u32_le(b, 3),
    })
}

fn dx_projectile_allowance(b: &[u8]) -> (r: Result<RefereeFrameCmdData, DecodeError>)
    ensures
        cmd_result_view(r) == dec_projectile_allowance(b@),
{
    proof {
        reveal(dec_projectile_allowance);
    }
    if b.len() < 8 {
        return Err(DecodeError::TruncatedPayload);
    }
    if b.len() > 8 {
        return Err(DecodeError::TrailingBytes);
    }

    Ok(RefereeFrameCmdData::ProjectileAllowance {
        projectile_allowance_17mm: get_u16_le(b, 0),
        projectile_allowance_42mm: get_u16_le(b, 2),
        remaining_gold_coin: get_u16_le(b, 4),
        projectile_allowance_fortress: get_u16_le(b, 6),
    })
}

fn dx_rfid_status(b: &[u8]) -> (r: Result<RefereeFrameCmdData, DecodeError>)
    ensures
        cmd_result_view(r) == dec_rfid_status(b@),
{
    proof {
        reveal(dec_rfid_status);
    }
    if b.len() < 4 {
        return Err(DecodeError::TruncatedPayload);
    }
    if b.len() > 4 {
        return Err(DecodeError::TrailingBytes);
    }
    let w = get_u32_be(b, 0);
    Ok(rfid_flags_from_word(w))
}

fn dx_dart_client_cmd(b: &[u8]) -> (r: Result<RefereeFrameCmdData, DecodeError>)
    ensures
        cmd_result_view(r) == dec_dart_client_cmd(b@),
{
    proof {
        reveal(dec_dart_client_cmd);
    }
    if b.len() < 6 {
        return Err(DecodeError::TruncatedPayload);
    }
    if b.len() > 6 {
        return Err(DecodeError::TrailingBytes);
    }

    Ok(RefereeFrameCmdData::DartClientCmd {
        dart_launch_opening_status: b[0],
        target_change_time: get_u16_le(b, 2),
        latest_launch_cmd_time: get_u16_le(b, 4),
    })
}

fn dx_ground_robot_position(b: &[u8]) -> (r: Result<RefereeFrameCmdData, DecodeError>)
    ensures
        cmd_result_view(r) == dec_ground_robot_position(b@),
{
    proof {
        reveal(dec_ground_robot_position);
    }
    if b.len() < 40 {
        return Err(DecodeError::TruncatedPayload);
    }
    if b.len() > 40 {
        return Err(DecodeError::TrailingBytes);
    }

    Ok(RefereeFrameCmdData::GroundRobotPosition {
        hero_x: get_u32_le(b, 0),
        hero_y: get_u32_le(b, 4),
        engineer_x: get_u32_le(b, 8),
        engineer_y: get_u32_le(b, 12),
        standard_3_x: get_u32_le(b, 16),
        standard_3_y: get_u32_le(b, 20),
        standard_4_x: get_u32_le(b, 24),
        standard_4_y: get_u32_le(b, 28),
    })
}

fn dx_radar_mark_data(b: &[u8]) -> (r: Result<RefereeFrameCmdData, DecodeError>)
    ensures
        cmd_result_view(r) == dec_radar_mark(b@),
{
    proof {
        reveal(dec_radar_mark);
    }
    if b.len() < 1 {
        return Err(DecodeError::TruncatedPayload);
    }
    if b.len() > 1 {
        return Err(DecodeError::TrailingBytes);
    }

    Ok(RefereeFrameCmdData::RadarMarkData {
        enemy_hero_vulnerable: (b[0] >> 7) & 1 == 1,
        enemy_engineer_vulnerable: (b[0] >> 6) & 1 == 1,
        enemy_infantry3_vulnerable: (b[0] >> 5) & 1 == 1,
        enemy_infantry4_vulnerable: (b[0] >> 4) & 1 == 1,
        enemy_sentry_vulnerable: (b[0] >> 3) & 1 == 1,
    })
}

fn dx_sentry_info(b: &[u8]) -> (r: Result<RefereeFrameCmdData, DecodeError>)
    ensures
        cmd_result_view(r) == dec_sentry_info(b@),
{
    proof {
        reveal(dec_sentry_info);
    }
    if b.len() < 6 {
        return Err(DecodeError::TruncatedPayload);
    }
    if b.len() > 6 {
        return Err(DecodeError::TrailingBytes);
    }

    Ok(RefereeFrameCmdData::SentryInfo {
        sentry_info: get_u32_le(b, 0),
        sentry_info_2: get_u16_le(b, 4),
    })
}

fn dx_radar_info(b: &[u8]) -> (r: Result<RefereeFrameCmdData, DecodeError>)
    ensures
        cmd_result_view(r) == dec_radar_info(b@),
{
    proof {
        reveal(dec_radar_info);
    }
    if b.len() < 1 {
        return Err(DecodeError::TruncatedPayload);
    }
    if b.len() > 1 {
        return Err(DecodeError::TrailingBytes);
    }

    Ok(RefereeFrameCmdData::RadarInfo {
        double_vulnerability_chance: b[0] >> 6,
        enemy_in_double_vulnerability: (b[0] >> 5) & 1 == 1,
    })
}

fn dx_robot_interaction_data(b: &[u8]) -> (r: Result<RefereeFrameCmdData, DecodeError>)
    ensures
        cmd_result_view(r) == dec_robot_interaction(b@),
{
    proof {
        reveal(dec_robot_interaction);
    }
    if b.len() < 6 {
        return Err(DecodeError::LengthUnderflow);
    }
    let sender_id = match EndpointId::from_raw(get_u16_le(b, 2)) {
        Some(v) => v,
        None => {
            return Err(DecodeError::InvalidEnumValue(EnumField::EndpointId, get_u16_le(b, 2)));
        },
    };
    let receiver_id = match EndpointId::from_raw(get_u16_le(b, 4)) {
        Some(v) => v,
        None => {
            return Err(DecodeError::InvalidEnumValue(EnumField::EndpointId, get_u16_le(b, 4)));
        },
    };
    proof {
        assert(b@.subrange(6, b@.len() as int) =~= b@.skip(6));
    }
    Ok(RefereeFrameCmdData::RobotInteractionData {
        data_cmd_id: get_u16_le(b, 0),
        sender_id,
        receiver_id,
        user_data: bytes_to_vec(b, 6, b.len()),
    })
}

fn dx_custom_robot_data(b: &[u8]) -> (r: Result<RefereeFrameCmdData, DecodeError>)
    ensures
        cmd_result_view(r) == dec_custom_robot_data(b@),
{
    proof {
        reveal(dec_custom_robot_data);
    }
    if b.len() < 30 {
        return Err(DecodeError::TruncatedPayload);
    }
    if b.len() > 30 {
        return Err(DecodeError::TrailingBytes);
    }

    proof {
        assert(b@.subrange(0, 30) =~= b@);
    }
    Ok(RefereeFrameCmdData::CustomRobotData {
        data: bytes_to_vec(b, 0, 30),
    })
}

fn dx_map_command(b: &[u8]) -> (r: Result<RefereeFrameCmdData, DecodeError>)
    ensures
        cmd_result_view(r) == dec_map_command(b@),
{
    proof {
        reveal(dec_map_command);
    }
    if b.len() < 12 {
        return Err(DecodeError::TruncatedPayload);
    }
    if b.len() > 12 {
        return Err(DecodeError::TrailingBytes);
    }
    let target_robot_id = match RobotID::from_raw(b[9]) {
        Some(v) => v,
        None => {
            return Err(DecodeError::InvalidEnumValue(EnumField::RobotId, b[9] as u16));
        },
    };
    let cmd_source = match EndpointId::from_raw(get_u16_le(b, 10)) {
        Some(v) => v,
        None => {
            return Err(DecodeError::InvalidEnumValue(EnumField::EndpointId, get_u16_le(b, 10)));
        },
    };
    Ok(RefereeFrameCmdData::MapCommand {
        target_position_x: get_u32_le(b, 0),
        target_position_y: get_u32_le(b, 4),
        cmd_keyboard: b[8],
        target_robot_id,
        cmd_source,
    })
}

fn dx_remote_control(b: &[u8]) -> (r: Result<RefereeFrameCmdData, DecodeError>)
    ensures
        cmd_result_view(r) == dec_remote_control(b@),
{
    proof {
        reveal(dec_remote_control);
    }
    if b.len() < 12 {
        return Err(DecodeError::TruncatedPayload);
    }
    if b.len() > 12 {
        return Err(DecodeError::TrailingBytes);
    }

    Ok(RefereeFrameCmdData::RemoteControl {
        mouse_x: wire_to_i16(get_u16_le(b, 0)),
        mouse_y: wire_to_i16(get_u16_le(b, 2)),
        mouse_z: wire_to_i16(get_u16_le(b, 4)),
        left_button_down: b[6],
        right_button_down: b[7],
        keyboard_value: get_u16_le(b, 8),
        reserved: get_u16_le(b, 10),
    })
}

fn dx_map_robot_data(b: &[u8]) -> (r: Result<RefereeFrameCmdData, DecodeError>)
    ensures
        cmd_result_view(r) == dec_map_robot_data(b@),
{
    proof {
        reveal(dec_map_robot_data);
    }
    if b.len() < 24 {
        return Err(DecodeError::TruncatedPayload);
    }
    if b.len() > 24 {
        return Err(DecodeError::TrailingBytes);
    }

    Ok(RefereeFrameCmdData::MapRobotData {
        hero_position_x: get_u16_le(b, 0),
        hero_position_y: get_u16_le(b, 2),
        engineer_position_x: get_u16_le(b, 4),
        engineer_position_y: get_u16_le(b, 6),
        infantry_3_position_x: get_u16_le(b, 8),
        infantry_3_position_y: get_u16_le(b, 10),
        infantry_4_position_x: get_u16_le(b, 12),
        infantry_4_position_y: get_u16_le(b, 14),
        infantry_5_position_x: get_u16_le(b, 16),
        infantry_5_position_y: get_u16_le(b, 18),
        sentry_position_x: get_u16_le(b, 20),
        sentry_position_y: get_u16_le(b, 22),
    })
}

fn dx_simulate_control(b: &[u8]) -> (r: Result<RefereeFrameCmdData, DecodeError>)
    ensures
        cmd_result_view(r) == dec_simulate_control(b@),
{
    proof {
        reveal(dec_simulate_control);
    }
    if b.len() < 8 {
        return Err(DecodeError::TruncatedPayload);
    }
    if b.len() > 8 {
        return Err(DecodeError::TrailingBytes);
    }
    let hx = get_u16_be(b, 2);
    let hy = get_u16_be(b, 4);
    Ok(RefereeFrameCmdData::SimulateControl {
        keyboard_value: get_u16_le(b, 0),
        mouse_x_pos: ((hx >> 8) & 0xff) | (((hx >> 4) & 0xf) << 8),
        mouse_left_state: mask8_16(hx, 0xf),
        mouse_y_pos: ((hy >> 8) & 0xff) | (((hy >> 4) & 0xf) << 8),
        mouse_right_state: mask8_16(hy, 0xf),
        reserved: get_u16_le(b, 6),
    })
}

fn dx_map_path_data(b: &[u8]) -> (r: Result<RefereeFrameCmdData, DecodeError>)
    ensures
        cmd_result_view(r) == dec_map_path_data(b@),
{
    proof {
        reveal(dec_map_path_data);
    }
    if b.len() < 105 {
        return Err(DecodeError::TruncatedPayload);
    }
    if b.len() > 105 {
        return Err(DecodeError::TrailingBytes);
    }
    let sender_id = match EndpointId::from_raw(get_u16_le(b, 103)) {
        Some(v) => v,
        None => {
            return Err(DecodeError::InvalidEnumValue(EnumField::EndpointId, get_u16_le(b, 103)));
        },
    };
    Ok(RefereeFrameCmdData::MapPathData {
        intention: b[0],
        start_position_x: get_u16_le(b, 1),
        start_position_y: get_u16_le(b, 3),
        delta_x: bytes_to_i8_vec(b, 5, 54),
        delta_y: bytes_to_i8_vec(b, 54, 103),
        sender_id,
    })
}

fn dx_custom_info(b: &[u8]) -> (r: Result<RefereeFrameCmdData, DecodeError>)
    ensures
        cmd_result_view(r) == dec_custom_info(b@),
{
    proof {
        reveal(dec_custom_info);
    }
    if b.len() < 34 {
        return Err(DecodeError::TruncatedPayload);
    }
    if b.len() > 34 {
        return Err(DecodeError::TrailingBytes);
    }
    let sender_id = match EndpointId::from_raw(get_u16_le(b, 0)) {
        Some(v) => v,
        None => {
            return Err(DecodeError::InvalidEnumValue(EnumField::EndpointId, get_u16_le(b, 0)));
        },
    };
    let receiver_id = match EndpointId::from_raw(get_u16_le(b, 2)) {
        Some(v) => v,
        None => {
            return Err(DecodeError::InvalidEnumValue(EnumField::EndpointId, get_u16_le(b, 2)));
        },
    };
    proof {
        assert(b@.subrange(4, 34) =~= b@.skip(4));
    }
    Ok(RefereeFrameCmdData::CustomInfo {
        sender_id,
        receiver_id,
        data: bytes_to_vec(b, 4, 34),
    })
}

fn dx_robot_custom_data(b: &[u8]) -> (r: Result<RefereeFrameCmdData, DecodeError>)
    ensures
        cmd_result_view(r) == dec_robot_custom_data(b@),
{
    proof {
        reveal(dec_robot_custom_data);
    }
    if b.len() < 30 {
        return Err(DecodeError::TruncatedPayload);
    }
    if b.len() > 30 {
        return Err(DecodeError::TrailingBytes);
    }

    proof {
        assert(b@.subrange(0, 30) =~= b@);
    }
    Ok(RefereeFrameCmdData::RobotCustomData {
        data: bytes_to_vec(b, 0, 30),
    })
}
impl RefereeFrameCmdData {
    /// The 16-bit command tag of this payload.
    pub fn tag(&self) -> (t: u16)
        ensures
            t == spec_tag(self@),
    {
        match self {
            RefereeFrameCmdData::GameStatus { .. } => 0x0001,
            RefereeFrameCmdData::GameResult { .. } => 0x0002,
            RefereeFrameCmdData::GameRobotHP { .. } => 0x0003,
            RefereeFrameCmdData::EventData { .. } => 0x0101,
            RefereeFrameCmdData::RefereeWarning { .. } => 0x0104,
            RefereeFrameCmdData::DartInfo { .. } => 0x0105,
            RefereeFrameCmdData::RobotStatus { .. } => 0x0201,
            RefereeFrameCmdData::PowerHeatData { .. } => 0x0202,
            RefereeFrameCmdData::RobotPos { .. } => 0x0203,
            RefereeFrameCmdData::Buff { .. } => 0x0204,
            RefereeFrameCmdData::HurtData { .. } => 0x0206,
            RefereeFrameCmdData::ShootData { .. } => 0x0207,
            RefereeFrameCmdData::ProjectileAllowance { .. } => 0x0208,
            RefereeFrameCmdData::RFIDStatus { .. } => 0x0209,
            RefereeFrameCmdData::DartClientCmd { .. } => 0x020a,
            RefereeFrameCmdData::GroundRobotPosition { .. } => 0x020b,
            RefereeFrameCmdData::RadarMarkData { .. } => 0x020c,
            RefereeFrameCmdData::SentryInfo { .. } => 0x020d,
            RefereeFrameCmdData::RadarInfo { .. } => 0x020e,
            RefereeFrameCmdData::RobotInteractionData { .. } => 0x0301,
            RefereeFrameCmdData::CustomRobotData { .. } => 0x0302,
            RefereeFrameCmdData::MapCommand { .. } => 0x0303,
            RefereeFrameCmdData::RemoteControl { .. } => 0x0304,
            RefereeFrameCmdData::MapRobotData { .. } => 0x0305,
            RefereeFrameCmdData::SimulateControl { .. } => 0x0306,
            RefereeFrameCmdData::MapPathData { .. } => 0x0307,
            RefereeFrameCmdData::CustomInfo { .. } => 0x0308,
            RefereeFrameCmdData::RobotCustomData { .. } => 0x0309,
        }
    }

    /// The full wire bytes of this payload: little-endian tag, then the
    /// body as `spec_body` lays it out.
    pub fn encode(&self) -> (r: Vec<u8>)
        requires
            cmd_wf(self@),
        ensures
            r@ == spec_cmd_bytes(self@),
    {
        let mut out: Vec<u8> = Vec::new();
        let t = self.tag();
        push_u16_le(&mut out, t);
        match self {
            RefereeFrameCmdData::GameStatus { .. }
            | RefereeFrameCmdData::GameResult { .. }
            | RefereeFrameCmdData::GameRobotHP { .. }
            | RefereeFrameCmdData::EventData { .. }
            | RefereeFrameCmdData::RefereeWarning { .. }
            | RefereeFrameCmdData::DartInfo { .. }
            | RefereeFrameCmdData::RobotStatus { .. } => encode_group1(self, &mut out),
            RefereeFrameCmdData::PowerHeatData { .. }
            | RefereeFrameCmdData::RobotPos { .. }
            | RefereeFrameCmdData::Buff { .. }
            | RefereeFrameCmdData::HurtData { .. }
            | RefereeFrameCmdData::ShootData { .. }
            | RefereeFrameCmdData::ProjectileAllowance { .. } => encode_group2(self, &mut out),
            RefereeFrameCmdData::RFIDStatus { .. } => encode_group5(self, &mut out),
            RefereeFrameCmdData::DartClientCmd { .. }
            | RefereeFrameCmdData::GroundRobotPosition { .. }
            | RefereeFrameCmdData::RadarMarkData { .. }
            | RefereeFrameCmdData::SentryInfo { .. }
            | RefereeFrameCmdData::RadarInfo { .. }
            | RefereeFrameCmdData::RobotInteractionData { .. }
            | RefereeFrameCmdData::CustomRobotData { .. } => encode_group3(self, &mut out),
            RefereeFrameCmdData::MapCommand { .. }
            | RefereeFrameCmdData::RemoteControl { .. }
            | RefereeFrameCmdData::MapRobotData { .. }
            | RefereeFrameCmdData::SimulateControl { .. }
            | RefereeFrameCmdData::MapPathData { .. }
            | RefereeFrameCmdData::CustomInfo { .. }
            | RefereeFrameCmdData::RobotCustomData { .. } => encode_group4(self, &mut out),
        }
        proof {
            assert(out@ =~= spec_cmd_bytes(self@));
        }
        out
    }
}

fn encode_group1(c: &RefereeFrameCmdData, out: &mut Vec<u8>)
    requires
        (c@ matches CmdView::GameStatus { .. }
            || c@ matches CmdView::GameResult { .. }
            || c@ matches CmdView::GameRobotHP { .. }
            || c@ matches CmdView::EventData { .. }
            || c@ matches CmdView::RefereeWarning { .. }
            || c@ matches CmdView::DartInfo { .. }
            || c@ matches CmdView::RobotStatus { .. }),
    ensures
        final(out)@ == old(out)@ + spec_body(c@),
{
    match c {
        RefereeFrameCmdData::GameStatus { game_type, game_progress, stage_remain_time, sync_time_stamp } => enc_game_status(out, *game_type, *game_progress, *stage_remain_time, *sync_time_stamp),
        RefereeFrameCmdData::GameResult { result } => enc_game_result(out, *result),
        RefereeFrameCmdData::GameRobotHP { red_1_robot_hp, red_2_robot_hp, red_3_robot_hp, red_4_robot_hp, red_7_robot_hp, red_outpost_hp, red_base_hp, blue_1_robot_hp, blue_2_robot_hp, blue_3_robot_hp, blue_4_robot_hp, blue_7_robot_hp, blue_outpost_hp, blue_base_hp } => enc_game_robot_hp(out, *red_1_robot_hp, *red_2_robot_hp, *red_3_robot_hp, *red_4_robot_hp, *red_7_robot_hp, *red_outpost_hp, *red_base_hp, *blue_1_robot_hp, *blue_2_robot_hp, *blue_3_robot_hp, *blue_4_robot_hp, *blue_7_robot_hp, *blue_outpost_hp, *blue_base_hp),
        RefereeFrameCmdData::EventData { supply_no_overlap_occupied, supply_overlap_occupied, supply_occupied_rmul, small_energy_mechanism_active, large_energy_mechanism_active, center_highland_occupy, trapezoid_highland_occupy, dart_last_hit_time_s, dart_last_hit_target, center_buff_occupy, fortress_buff_occupy } => enc_event_data(out, *supply_no_overlap_occupied, *supply_overlap_occupied, *supply_occupied_rmul, *small_energy_mechanism_active, *large_energy_mechanism_active, *center_highland_occupy, *trapezoid_highland_occupy, *dart_last_hit_time_s, *dart_last_hit_target, *center_buff_occupy, *fortress_buff_occupy),
        RefereeFrameCmdData::RefereeWarning { level, offending_robot_id, count } => enc_referee_warning(out, *level, *offending_robot_id, *count),
        RefereeFrameCmdData::DartInfo { dart_remaining_time, dart_last_hit_target, opponent_target_hit_count, dart_selected_target } => enc_dart_info(out, *dart_remaining_time, *dart_last_hit_target, *opponent_target_hit_count, *dart_selected_target),
        RefereeFrameCmdData::RobotStatus { robot_id, robot_level, current_hp, maximum_hp, shooter_barrel_cooling_value, shooter_barrel_heat_limit, chassis_power_limit, power_management_gimbal_output, power_management_chassis_output, power_management_shooter_output } => enc_robot_status(out, *robot_id, *robot_level, *current_hp, *maximum_hp, *shooter_barrel_cooling_value, *shooter_barrel_heat_limit, *chassis_power_limit, *power_management_gimbal_output, *power_management_chassis_output, *power_management_shooter_output),
        _ => {
            proof {
                assert(false);
            }
        },
    }
}

fn encode_group2(c: &RefereeFrameCmdData, out: &mut Vec<u8>)
    requires
        (c@ matches CmdView::PowerHeatData { .. }
            || c@ matches CmdView::RobotPos { .. }
            || c@ matches CmdView::Buff { .. }
            || c@ matches CmdView::HurtData { .. }
            || c@ matches CmdView::ShootData { .. }
            || c@ matches CmdView::ProjectileAllowance { .. }),
    ensures
        final(out)@ == old(out)@ + spec_body(c@),
{
    match c {
        RefereeFrameCmdData::PowerHeatData { buffer_energy, shooter_17mm_1_barrel_heat, shooter_17mm_2_barrel_heat, shooter_42mm_barrel_heat } => enc_power_heat_data(out, *buffer_energy, *shooter_17mm_1_barrel_heat, *shooter_17mm_2_barrel_heat, *shooter_42mm_barrel_heat),
        RefereeFrameCmdData::RobotPos { x, y, angle } => enc_robot_pos(out, *x, *y, *angle),
        RefereeFrameCmdData::Buff { recovery_buff, cooling_buff, defense_buff, vulnerability_buff, attack_buff, energy_ge_50, energy_ge_30, energy_ge_15, energy_ge_5, energy_ge_1 } => enc_buff(out, *recovery_buff, *cooling_buff, *defense_buff, *vulnerability_buff, *attack_buff, *energy_ge_50, *energy_ge_30, *energy_ge_15, *energy_ge_5, *energy_ge_1),
        RefereeFrameCmdData::HurtData { armor_id, hp_deduction_reason } => enc_hurt_data(out, *armor_id, *hp_deduction_reason),
        RefereeFrameCmdData::ShootData { bullet_type, shooter_number, launching_frequency, initial_speed } => enc_shoot_data(out, *bullet_type, *shooter_number, *launching_frequency, *initial_speed),
        RefereeFrameCmdData::ProjectileAllowance { projectile_allowance_17mm, projectile_allowance_42mm, remaining_gold_coin, projectile_allowance_fortress } => enc_projectile_allowance(out, *projectile_allowance_17mm, *projectile_allowance_42mm, *remaining_gold_coin, *projectile_allowance_fortress),
        _ => {
            proof {
                assert(false);
            }
        },
    }
}

fn encode_group5(c: &RefereeFrameCmdData, out: &mut Vec<u8>)
    requires
        c@ matches CmdView::RFIDStatus { .. },
    ensures
        final(out)@ == old(out)@ + spec_body(c@),
{
    let w = rfid_word_from_flags(c);
    proof {
        reveal(spec_body);
        assert(spec_body(c@) == u32_be(w));
    }
    push_u32_be(out, w);
}

fn encode_group3(c: &RefereeFrameCmdData, out: &mut Vec<u8>)
    requires
        (c@ matches CmdView::DartClientCmd { .. }
            || c@ matches CmdView::GroundRobotPosition { .. }
            || c@ matches CmdView::RadarMarkData { .. }
            || c@ matches CmdView::SentryInfo { .. }
            || c@ matches CmdView::RadarInfo { .. }
            || c@ matches CmdView::RobotInteractionData { .. }
            || c@ matches CmdView::CustomRobotData { .. }),
    ensures
        final(out)@ == old(out)@ + spec_body(c@),
{
    match c {
        RefereeFrameCmdData::DartClientCmd { dart_launch_opening_status, target_change_time, latest_launch_cmd_time } => enc_dart_client_cmd(out, *dart_launch_opening_status, *target_change_time, *latest_launch_cmd_time),
        RefereeFrameCmdData::GroundRobotPosition { hero_x, hero_y, engineer_x, engineer_y, standard_3_x, standard_3_y, standard_4_x, standard_4_y } => enc_ground_robot_position(out, *hero_x, *hero_y, *engineer_x, *engineer_y, *standard_3_x, *standard_3_y, *standard_4_x, *standard_4_y),
        RefereeFrameCmdData::RadarMarkData { enemy_hero_vulnerable, enemy_engineer_vulnerable, enemy_infantry3_vulnerable, enemy_infantry4_vulnerable, enemy_sentry_vulnerable } => enc_radar_mark_data(out, *enemy_hero_vulnerable, *enemy_engineer_vulnerable, *enemy_infantry3_vulnerable, *enemy_infantry4_vulnerable, *enemy_sentry_vulnerable),
        RefereeFrameCmdData::SentryInfo { sentry_info, sentry_info_2 } => enc_sentry_info(out, *sentry_info, *sentry_info_2),
        RefereeFrameCmdData::RadarInfo { double_vulnerability_chance, enemy_in_double_vulnerability } => enc_radar_info(out, *double_vulnerability_chance, *enemy_in_double_vulnerability),
        RefereeFrameCmdData::RobotInteractionData { data_cmd_id, sender_id, receiver_id, user_data } => enc_robot_interaction_data(out, *data_cmd_id, *sender_id, *receiver_id, user_data),
        RefereeFrameCmdData::CustomRobotData { data } => enc_custom_robot_data(out, data),
        _ => {
            proof {
                assert(false);
            }
        },
    }
}

fn encode_group4(c: &RefereeFrameCmdData, out: &mut Vec<u8>)
    requires
        (c@ matches CmdView::MapCommand { .. }
            || c@ matches CmdView::RemoteControl { .. }
            || c@ matches CmdView::MapRobotData { .. }
            || c@ matches CmdView::SimulateControl { .. }
            || c@ matches CmdView::MapPathData { .. }
            || c@ matches CmdView::CustomInfo { .. }
            || c@ matches CmdView::RobotCustomData { .. }),
    ensures
        final(out)@ == old(out)@ + spec_body(c@),
{
    match c {
        RefereeFrameCmdData::MapCommand { target_position_x, target_position_y, cmd_keyboard, target_robot_id, cmd_source } => enc_map_command(out, *target_position_x, *target_position_y, *cmd_keyboard, *target_robot_id, *cmd_source),
        RefereeFrameCmdData::RemoteControl { mouse_x, mouse_y, mouse_z, left_button_down, right_button_down, keyboard_value, reserved } => enc_remote_control(out, *mouse_x, *mouse_y, *mouse_z, *left_button_down, *right_button_down, *keyboard_value, *reserved),
        RefereeFrameCmdData::MapRobotData { hero_position_x, hero_position_y, engineer_position_x, engineer_position_y, infantry_3_position_x, infantry_3_position_y, infantry_4_position_x, infantry_4_position_y, infantry_5_position_x, infantry_5_position_y, sentry_position_x, sentry_position_y } => enc_map_robot_data(out, *hero_position_x, *hero_position_y, *engineer_position_x, *engineer_position_y, *infantry_3_position_x, *infantry_3_position_y, *infantry_4_position_x, *infantry_4_position_y, *infantry_5_position_x, *infantry_5_position_y, *sentry_position_x, *sentry_position_y),
        RefereeFrameCmdData::SimulateControl { keyboard_value, mouse_x_pos, mouse_left_state, mouse_y_pos, mouse_right_state, reserved } => enc_simulate_control(out, *keyboard_value, *mouse_x_pos, *mouse_left_state, *mouse_y_pos, *mouse_right_state, *reserved),
        RefereeFrameCmdData::MapPathData { intention, start_position_x, start_position_y, delta_x, delta_y, sender_id } => enc_map_path_data(out, *intention, *start_position_x, *start_position_y, delta_x, delta_y, *sender_id),
        RefereeFrameCmdData::CustomInfo { sender_id, receiver_id, data } => enc_custom_info(out, *sender_id, *receiver_id, data),
        RefereeFrameCmdData::RobotCustomData { data } => enc_robot_custom_data(out, data),
        _ => {
            proof {
                assert(false);
            }
        },
    }
}

/// Parse a full command image: two little-endian tag bytes, then the body.
/// The result is exactly what `spec_cmd_decode` gives for these bytes.
pub fn decode_cmd(b: &[u8]) -> (r: Result<RefereeFrameCmdData, DecodeError>)
    ensures
        r matches Ok(c) ==> spec_cmd_decode(b@) == Ok::<CmdView, DecodeError>(c@),
        r matches Err(e) ==> spec_cmd_decode(b@) == Err::<CmdView, DecodeError>(e),
{
    proof {
        reveal(spec_cmd_decode);
        reveal(spec_decode_body);
    }
    if b.len() < 2 {
        return Err(DecodeError::TruncatedPayload);
    }
    let tag = get_u16_le(b, 0);
    let body = slice_subrange(b, 2, b.len());
    proof {
        assert(body@ =~= b@.skip(2));
    }
    if tag == 0x0001 {
        dx_game_status(body)
    } else if tag == 0x0002 {
        dx_game_result(body)
    } else if tag == 0x0003 {
        dx_game_robot_hp(body)
    } else if tag == 0x0101 {
        dx_event_data(body)
    } else if tag == 0x0104 {
        dx_referee_warning(body)
    } else if tag == 0x0105 {
        dx_dart_info(body)
    } else if tag == 0x0201 {
        dx_robot_status(body)
    } else if tag == 0x0202 {
        dx_power_heat_data(body)
    } else if tag == 0x0203 {
        dx_robot_pos(body)
    } else if tag == 0x0204 {
        dx_buff(body)
    } else if tag == 0x0206 {
        dx_hurt_data(body)
    } else if tag == 0x0207 {
        dx_shoot_data(body)
    } else if tag == 0x0208 {
        dx_projectile_allowance(body)
    } else if tag == 0x0209 {
        dx_rfid_status(body)
    } else if tag == 0x020a {
        dx_dart_client_cmd(body)
    } else if tag == 0x020b {
        dx_ground_robot_position(body)
    } else if tag == 0x020c {
        dx_radar_mark_data(body)
    } else if tag == 0x020d {
        dx_sentry_info(body)
    } else if tag == 0x020e {
        dx_radar_info(body)
    } else if tag == 0x0301 {
        dx_robot_interaction_data(body)
    } else if tag == 0x0302 {
        dx_custom_robot_data(body)
    } else if tag == 0x0303 {
        dx_map_command(body)
    } else if tag == 0x0304 {
        dx_remote_control(body)
    } else if tag == 0x0305 {
        dx_map_robot_data(body)
    } else if tag == 0x0306 {
        dx_simulate_control(body)
    } else if tag == 0x0307 {
        dx_map_path_data(body)
    } else if tag == 0x0308 {
        dx_custom_info(body)
    } else if tag == 0x0309 {
        dx_robot_custom_data(body)
    } else {
        Err(DecodeError::UnknownCommand(tag))
    }
}

} // verus!
