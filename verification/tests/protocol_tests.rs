use rm_referee_protocol::DecodeError;
use rm_referee_protocol::cmd::RefereeFrameCmdData;
use rm_referee_protocol::enums::{EndpointId, GameProgress, GameType, OccupyType, RobotID};
use rm_referee_protocol::frame::{crc8, crc16, encode_frame, decode_frame, RefereeFrameHeader, FRAME_SOF};
use rm_referee_protocol::codec::decode_cmd;
use rm_referee_protocol::robot_interaction::{
    layer_delete_from_bytes, radar_cmd_from_bytes, sentry_cmd_from_bytes, FigureOperateType,
    LayerDeleteType, RobotInteractionUserData,
};

#[test]
fn test_crc8_self_check() {
    assert_eq!(crc8(b"123456789"), 0xF7);
}

#[test]
fn test_crc16_self_check() {
    assert_eq!(crc16(b"123456789"), 0x29B1);
}

#[test]
fn test_header_crc8_includes_magic_and_is_correct() {
    let header = RefereeFrameHeader::recompute(11, 0);
    let expected = crc8(&[
        FRAME_SOF,
        header.data_length.to_le_bytes()[0],
        header.data_length.to_le_bytes()[1],
        header.seq,
    ]);
    assert_eq!(header.crc8, expected);
}

#[test]
fn test_header_roundtrip_bytes() {
    let header = RefereeFrameHeader::recompute(9, 7);
    let bytes = header.encode();
    assert_eq!(bytes.len(), 5);
    assert_eq!(bytes[0], 0xA5);
    assert_eq!(bytes[1], 9);
    assert_eq!(bytes[2], 0);
    assert_eq!(bytes[3], 7);
    let parsed = RefereeFrameHeader::decode(&bytes).unwrap();
    assert_eq!(parsed, header);
}

#[test]
fn test_header_bad_magic() {
    let header = RefereeFrameHeader::recompute(3, 1);
    let mut bytes = header.encode();
    bytes[0] = 0xA4;
    assert!(matches!(
        RefereeFrameHeader::decode(&bytes),
        Err(DecodeError::BadMagic)
    ));
}

#[test]
fn test_header_tamper_detection() {
    let header = RefereeFrameHeader::recompute(20, 3);
    let mut bytes = header.encode();
    let last = bytes.len() - 1;
    bytes[last] ^= 0xFF;
    assert!(matches!(
        RefereeFrameHeader::decode(&bytes),
        Err(DecodeError::BadChecksum)
    ));
}

#[test]
fn test_enum_raw_roundtrip() {
    assert_eq!(RobotID::BlueSentry.raw(), 107);
    assert_eq!(RobotID::from_raw(107), Some(RobotID::BlueSentry));
    assert_eq!(RobotID::from_raw(12), None);
    assert_eq!(EndpointId::Server.raw(), 0x8080);
    assert_eq!(EndpointId::from_raw(0x0165), Some(EndpointId::BlueHeroClient));
    assert_eq!(EndpointId::from_raw(0x0107), None);
    assert_eq!(GameType::RMUA.raw(), 3);
    assert_eq!(GameProgress::from_raw(4), Some(GameProgress::InProgress));
    assert_eq!(OccupyType::from_raw(3), Some(OccupyType::Both));
}

#[test]
fn test_sentry_cmd_bits() {
    // confirm_revive = 1, confirm_immediate_revive = 0,
    // exchange = 0x1AB (low byte first on the wire, then the top three bits),
    // projectile count = 5, hp count = 9.
    let ex: u16 = 0x1AB;
    let w: u32 = (1u32 << 31)
        | (((ex as u32) & 0xff) << 22)
        | ((((ex as u32) >> 8) & 7) << 19)
        | (5u32 << 15)
        | (9u32 << 11);
    let bytes = w.to_be_bytes();
    let cmd = sentry_cmd_from_bytes(&bytes).unwrap();
    assert!(cmd.confirm_revive);
    assert!(!cmd.confirm_immediate_revive);
    assert_eq!(cmd.exchange_projectile_allowance, 0x1AB);
    assert_eq!(cmd.remote_exchange_projectile_count, 5);
    assert_eq!(cmd.remote_exchange_hp_count, 9);
    assert!(sentry_cmd_from_bytes(&bytes[0..3]).is_none());
}

#[test]
fn test_radar_cmd_single_byte() {
    let cmd = radar_cmd_from_bytes(&[42]).unwrap();
    assert_eq!(cmd.radar_cmd, 42);
    assert!(radar_cmd_from_bytes(&[1, 2]).is_none());
}

#[test]
fn test_layer_delete() {
    let del = layer_delete_from_bytes(&[2, 7]).unwrap();
    assert_eq!(del.delete_type, LayerDeleteType::DeleteAll);
    assert_eq!(del.layer, 7);
    assert!(layer_delete_from_bytes(&[3, 0]).is_none());
    assert!(layer_delete_from_bytes(&[1]).is_none());
}

#[test]
fn test_as_sentry_cmd_dispatch() {
    let payload = RefereeFrameCmdData::RobotInteractionData {
        data_cmd_id: 0x0120,
        sender_id: EndpointId::Server,
        receiver_id: EndpointId::RedHeroClient,
        user_data: vec![0x80, 0x00, 0x00, 0x00],
    };
    let cmd = payload.as_sentry_cmd().unwrap();
    assert!(cmd.confirm_revive);
    assert!(payload.as_radar_cmd().is_none());
    assert!(payload.as_robot_comm_raw().is_none());
}

#[test]
fn test_as_radar_cmd_dispatch() {
    let payload = RefereeFrameCmdData::RobotInteractionData {
        data_cmd_id: 0x0121,
        sender_id: EndpointId::Server,
        receiver_id: EndpointId::RedHeroClient,
        user_data: vec![1],
    };
    let cmd = payload.as_radar_cmd().unwrap();
    assert_eq!(cmd.radar_cmd, 1);
    assert!(payload.as_sentry_cmd().is_none());
}

#[test]
fn test_as_robot_comm_raw_range() {
    let payload = RefereeFrameCmdData::RobotInteractionData {
        data_cmd_id: 0x0233,
        sender_id: EndpointId::RedHeroClient,
        receiver_id: EndpointId::BlueHeroClient,
        user_data: vec![9, 8, 7],
    };
    assert_eq!(payload.as_robot_comm_raw(), Some(&[9u8, 8, 7][..]));
    let below = RefereeFrameCmdData::RobotInteractionData {
        data_cmd_id: 0x01FF,
        sender_id: EndpointId::RedHeroClient,
        receiver_id: EndpointId::BlueHeroClient,
        user_data: vec![9],
    };
    assert!(below.as_robot_comm_raw().is_none());
}

fn build_game_status() -> RefereeFrameCmdData {
    RefereeFrameCmdData::GameStatus {
        game_type: GameType::RMUA,
        game_progress: GameProgress::InProgress,
        stage_remain_time: 123,
        sync_time_stamp: 456,
    }
}

#[test]
fn test_cmd_id_is_little_endian() {
    let data = build_game_status();
    let bytes = data.encode();
    assert_eq!(bytes[0], 0x01);
    assert_eq!(bytes[1], 0x00);
}

#[test]
fn test_frame_crc16_and_tail_endianness() {
    let cmd = build_game_status();
    let fb = encode_frame(0, &cmd);
    let expected = crc16(&fb[..fb.len() - 2]);
    let tail = u16::from_le_bytes([fb[fb.len() - 2], fb[fb.len() - 1]]);
    assert_eq!(tail, expected);
}

#[test]
fn test_0204_buff_bits_and_serde() {
    let v = RefereeFrameCmdData::Buff {
        recovery_buff: 10,
        cooling_buff: 5,
        defense_buff: 50,
        vulnerability_buff: 30,
        attack_buff: 50,
        energy_ge_50: true,
        energy_ge_30: true,
        energy_ge_15: false,
        energy_ge_5: false,
        energy_ge_1: true,
    };
    let bytes = v.encode();
    let parsed = decode_cmd(&bytes).unwrap();
    assert_eq!(v, parsed);
}

#[test]
fn test_0209_rfid_bits_and_serde() {
    let v = RefereeFrameCmdData::RFIDStatus {
        our_base_buff: true,
        our_center_highland_buff: true,
        enemy_center_highland_buff: false,
        our_trapezoid_highland_buff: true,
        enemy_trapezoid_highland_buff: false,
        our_ramp_near_front: true,
        our_ramp_near_back: false,
        enemy_ramp_near_front: true,
        enemy_ramp_near_back: false,
        our_cross_center_lower: true,
        our_cross_center_upper: false,
        enemy_cross_center_lower: true,
        enemy_cross_center_upper: false,
        our_cross_road_lower: true,
        our_cross_road_upper: false,
        enemy_cross_road_lower: true,
        enemy_cross_road_upper: false,
        our_fortress_buff: true,
        our_outpost_buff: true,
        our_supply_nonoverlap_or_rmul: false,
        our_supply_overlap: false,
        our_big_island_buff: true,
        enemy_big_island_buff: false,
        center_buff_rmul_only: false,
        enemy_fortress_buff: true,
    };
    let bytes = v.encode();
    let parsed = decode_cmd(&bytes).unwrap();
    assert_eq!(v, parsed);
}

#[test]
fn test_020c_radar_mark_bits_and_serde() {
    let v = RefereeFrameCmdData::RadarMarkData {
        enemy_hero_vulnerable: true,
        enemy_engineer_vulnerable: false,
        enemy_infantry3_vulnerable: true,
        enemy_infantry4_vulnerable: false,
        enemy_sentry_vulnerable: true,
    };
    let bytes = v.encode();
    let parsed = decode_cmd(&bytes).unwrap();
    assert_eq!(v, parsed);
}

#[test]
fn test_0307_map_path_and_serde() {
    let delta_x: Vec<i8> = (0..49).map(|i| i as i8 - 24).collect();
    let delta_y: Vec<i8> = (0..49).map(|i| 24 - i as i8).collect();
    let v = RefereeFrameCmdData::MapPathData {
        intention: 1,
        start_position_x: 123,
        start_position_y: 456,
        delta_x,
        delta_y,
        sender_id: EndpointId::RedHeroClient,
    };
    let bytes = v.encode();
    assert_eq!(bytes.len(), 2 + 105);
    let parsed = decode_cmd(&bytes).unwrap();
    assert_eq!(v, parsed);
}

#[test]
fn test_0302_custom_robot_data_json_and_bytes() {
    let v = RefereeFrameCmdData::CustomRobotData { data: vec![0xAB; 30] };
    let bytes = v.encode();
    assert_eq!(bytes.len(), 2 + 30);
    let parsed = decode_cmd(&bytes).unwrap();
    assert_eq!(v, parsed);
}

#[test]
fn test_0303_map_command_json_and_bytes() {
    let v = RefereeFrameCmdData::MapCommand {
        target_position_x: f32::to_bits(1.23),
        target_position_y: f32::to_bits(4.56),
        cmd_keyboard: 0x11,
        target_robot_id: RobotID::RedHero,
        cmd_source: EndpointId::RedHeroClient,
    };
    let bytes = v.encode();
    assert_eq!(bytes.len(), 2 + 12);
    let parsed = decode_cmd(&bytes).unwrap();
    assert_eq!(v, parsed);
}

#[test]
fn test_0304_remote_control_json_and_bytes() {
    let v = RefereeFrameCmdData::RemoteControl {
        mouse_x: -120,
        mouse_y: 250,
        mouse_z: -5,
        left_button_down: 1,
        right_button_down: 0,
        keyboard_value: 0b_0000_0001_0001_0001,
        reserved: 0,
    };
    let bytes = v.encode();
    assert_eq!(bytes.len(), 2 + 12);
    let parsed = decode_cmd(&bytes).unwrap();
    assert_eq!(v, parsed);
}

#[test]
fn test_0305_map_robot_data_json_and_bytes() {
    let v = RefereeFrameCmdData::MapRobotData {
        hero_position_x: 100,
        hero_position_y: 200,
        engineer_position_x: 300,
        engineer_position_y: 400,
        infantry_3_position_x: 500,
        infantry_3_position_y: 600,
        infantry_4_position_x: 700,
        infantry_4_position_y: 800,
        infantry_5_position_x: 900,
        infantry_5_position_y: 1000,
        sentry_position_x: 1100,
        sentry_position_y: 1200,
    };
    let bytes = v.encode();
    assert_eq!(bytes.len(), 2 + 24);
    let parsed = decode_cmd(&bytes).unwrap();
    assert_eq!(v, parsed);
}

#[test]
fn test_0306_simulate_control_json_and_bytes() {
    let v = RefereeFrameCmdData::SimulateControl {
        keyboard_value: 0x1234,
        mouse_x_pos: 1500,
        mouse_left_state: 1,
        mouse_y_pos: 800,
        mouse_right_state: 0,
        reserved: 0,
    };
    let bytes = v.encode();
    assert_eq!(bytes.len(), 2 + 8);
    let parsed = decode_cmd(&bytes).unwrap();
    assert_eq!(v, parsed);
}

#[test]
fn test_0308_custom_info_json_and_bytes() {
    let v = RefereeFrameCmdData::CustomInfo {
        sender_id: EndpointId::RedHeroClient,
        receiver_id: EndpointId::BlueHeroClient,
        data: vec![0x31; 30],
    };
    let bytes = v.encode();
    assert_eq!(bytes.len(), 2 + 34);
    let parsed = decode_cmd(&bytes).unwrap();
    assert_eq!(v, parsed);
}

#[test]
fn test_0309_robot_custom_data_json_and_bytes() {
    let v = RefereeFrameCmdData::RobotCustomData { data: vec![0xCD; 30] };
    let bytes = v.encode();
    assert_eq!(bytes.len(), 2 + 30);
    let parsed = decode_cmd(&bytes).unwrap();
    assert_eq!(v, parsed);
}

#[test]
fn test_end_to_end_frame_json_and_bytes() {
    let cmd = RefereeFrameCmdData::CustomInfo {
        sender_id: EndpointId::RedHeroClient,
        receiver_id: EndpointId::RedHeroClient,
        data: vec![0x55; 30],
    };
    let cmd_bytes = cmd.encode();
    let fb = encode_frame(7, &cmd);
    assert_eq!(fb.len(), 5 + cmd_bytes.len() + 2);
    let (header, parsed, tail) = decode_frame(&fb).unwrap();
    assert_eq!(header.data_length, (cmd_bytes.len() - 2) as u16);
    assert_eq!(header.seq, 7);
    assert_eq!(parsed, cmd);
    let expected_tail = crc16(&fb[..fb.len() - 2]);
    assert_eq!(tail, expected_tail);
}

#[test]
fn test_frame_tail_tamper_detection() {
    let fb = {
        let mut v = encode_frame(0, &build_game_status());
        let last = v.len() - 1;
        v[last] ^= 0xFF;
        v
    };
    assert!(matches!(decode_frame(&fb), Err(DecodeError::BadFrameChecksum)));
}

#[test]
fn test_as_robot_interaction_figures_and_layers() {
    let layer = RefereeFrameCmdData::RobotInteractionData {
        data_cmd_id: 0x0100,
        sender_id: EndpointId::RedHeroClient,
        receiver_id: EndpointId::RedHeroClient,
        user_data: vec![1, 4],
    };
    match layer.as_robot_interaction() {
        Some(RobotInteractionUserData::LayerDelete(d)) => {
            assert_eq!(d.delete_type, LayerDeleteType::DeleteLayer);
            assert_eq!(d.layer, 4);
        },
        other => panic!("unexpected interpretation: {:?}", other),
    }
    // One figure whose first config word is all zero: add nothing on layer 0.
    let fig = RefereeFrameCmdData::RobotInteractionData {
        data_cmd_id: 0x0101,
        sender_id: EndpointId::RedHeroClient,
        receiver_id: EndpointId::RedHeroClient,
        user_data: vec![
            b'A', b'B', b'C', 0, 0, 0, 0, 0, 0, 0, 0, 0, 0, 0, 0,
        ],
    };
    match fig.as_robot_interaction() {
        Some(RobotInteractionUserData::Figure(f)) => {
            assert_eq!(f.figure_name, [b'A', b'B', b'C']);
            assert_eq!(f.operate_type, FigureOperateType::NoneOp);
            assert_eq!(f.layer, 0);
        },
        other => panic!("unexpected interpretation: {:?}", other),
    }
    // A raw-communication sub-tag is not interpreted.
    let raw = RefereeFrameCmdData::RobotInteractionData {
        data_cmd_id: 0x0200,
        sender_id: EndpointId::RedHeroClient,
        receiver_id: EndpointId::RedHeroClient,
        user_data: vec![1, 2, 3],
    };
    assert!(raw.as_robot_interaction().is_none());
}
