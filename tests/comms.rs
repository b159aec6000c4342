use robo_sim::color::Color;
use robo_sim::comms::{
    pack_alive_message, pack_get_obstacles_message, pack_kill_message, pack_message,
    pack_move_message, pack_obs_readings_message, pack_pause_message, pack_position_message,
    pack_request_position_message, pack_robot_dying_message, pack_spin_message,
    pack_start_message, parse_alive_message, parse_get_obstacles_message, parse_kill_message,
    parse_message, parse_move_message, parse_obs_readings_message, parse_pause_message,
    parse_position_message, parse_request_position_message, parse_robot_dying_message,
    parse_spin_message, parse_start_message, DecodeError,
};
use robo_sim::messages::{
    AliveMsg, GetObstaclesMsg, KillMsg, Message, MessageType, MoveMsg, ObsReadingsMsg, PauseMsg,
    PoseBits, PositionMsg, RequestPositionMsg, RobotDyingMsg, SpinMsg, StartMsg,
};

fn pose(x: f32, y: f32, z: f32, heading: f32) -> PoseBits {
    PoseBits::new(x.to_bits(), y.to_bits(), z.to_bits(), heading.to_bits())
}

#[test]
fn test_alive_message() {
    let msg = AliveMsg::new(
        3,
        pose(1.5, 2.5, 3.5, 4.5),
        Color::new(100, 150, 160, 1),
        5.0f32.to_bits(),
        10.0f32.to_bits(),
        20.0f32.to_bits(),
    );

    let buf = pack_alive_message(msg);
    let msg2 = parse_alive_message(buf.as_slice()).unwrap();

    assert_eq!(msg, msg2);
}

#[test]
fn test_start_message() {
    let msg = StartMsg::new();

    let buf = pack_start_message(msg);
    let msg2 = parse_start_message(buf.as_slice()).unwrap();

    assert_eq!(msg, msg2);
}

#[test]
fn test_request_position_message() {
    let msg = RequestPositionMsg::new(5);

    let buf = pack_request_position_message(msg);
    let msg2 = parse_request_position_message(buf.as_slice()).unwrap();

    assert_eq!(msg, msg2);
}

#[test]
fn test_position_message() {
    let msg = PositionMsg::new(pose(1.5, 2.5, 3.5, 4.5));

    let buf = pack_position_message(msg);
    let msg2 = parse_position_message(buf.as_slice()).unwrap();

    assert_eq!(msg, msg2);
}

#[test]
fn test_kill_message() {
    let msg = KillMsg::new();

    let buf = pack_kill_message(msg);
    let msg2 = parse_kill_message(buf.as_slice()).unwrap();

    assert_eq!(msg, msg2);
}

#[test]
fn test_robot_dying_message() {
    let msg = RobotDyingMsg::new(5);

    let buf = pack_robot_dying_message(msg);
    let msg2 = parse_robot_dying_message(buf.as_slice()).unwrap();

    assert_eq!(msg, msg2);
}

#[test]
fn test_get_obstacles_message() {
    let msg = GetObstaclesMsg::new(5);

    let buf = pack_get_obstacles_message(msg);
    let msg2 = parse_get_obstacles_message(buf.as_slice()).unwrap();

    assert_eq!(msg, msg2);
}

#[test]
fn test_obs_readings_message() {
    let msg = ObsReadingsMsg::new(vec![
        (1.0f32.to_bits(), 2.0f32.to_bits()),
        (3.0f32.to_bits(), 4.0f32.to_bits()),
        ((-1.0f32).to_bits(), (-2.5f32).to_bits()),
    ]);

    let buf = pack_obs_readings_message(msg.clone());
    let msg2 = parse_obs_readings_message(buf.as_slice()).unwrap();

    assert_eq!(msg, msg2);
}

#[test]
fn test_pause_message() {
    let msg = PauseMsg::new();

    let buf = pack_pause_message(msg);
    let msg2 = parse_pause_message(buf.as_slice()).unwrap();

    assert_eq!(msg, msg2);
}

#[test]
fn test_move_message() {
    let msg = MoveMsg::new(5, 1.5f32.to_bits(), 2.5f32.to_bits());

    let buf = pack_move_message(msg);
    let msg2 = parse_move_message(buf.as_slice()).unwrap();

    assert_eq!(msg, msg2);
}

#[test]
fn test_spin_message() {
    let msg = SpinMsg::new(5, 1.5f32.to_bits());

    let buf = pack_spin_message(msg);
    let msg2 = parse_spin_message(buf.as_slice()).unwrap();

    assert_eq!(msg, msg2);
}

fn round_trip(m: Message) {
    let buf = pack_message(m.clone());
    assert_eq!(buf[0], m.get_type().tag());
    assert_eq!(parse_message(buf.as_slice()), Ok(m));
}

#[test]
fn round_trip_every_kind_with_boundary_ids() {
    for id in [0u32, 1, 7, u32::MAX] {
        round_trip(Message::Alive(AliveMsg::new(
            id,
            pose(0.0, -1.25, 3.0e10, 3.1415927),
            Color::new(0, 255, 7, 128),
            1.0f32.to_bits(),
            f32::MAX.to_bits(),
            0.2f32.to_bits(),
        )));
        round_trip(Message::RequestPosition(RequestPositionMsg::new(id)));
        round_trip(Message::RobotDying(RobotDyingMsg::new(id)));
        round_trip(Message::GetObstacles(GetObstaclesMsg::new(id)));
        round_trip(Message::Move(MoveMsg::new(id, (-0.5f32).to_bits(), 7.0f32.to_bits())));
        round_trip(Message::Spin(SpinMsg::new(id, (-3.0f32).to_bits())));
    }
    round_trip(Message::Start(StartMsg::new()));
    round_trip(Message::Kill(KillMsg::new()));
    round_trip(Message::Pause(PauseMsg::new()));
    round_trip(Message::Position(PositionMsg::new(pose(1.0, 2.0, 0.0, -3.0))));
}

#[test]
fn round_trip_obs_readings_of_every_size() {
    round_trip(Message::ObsReadings(ObsReadingsMsg::new(vec![])));
    round_trip(Message::ObsReadings(ObsReadingsMsg::new(vec![(4.0f32.to_bits(), 0)])));
    let many: Vec<(u32, u32)> = (0..16u32).map(|i| (i, u32::MAX - i)).collect();
    round_trip(Message::ObsReadings(ObsReadingsMsg::new(many)));
}

#[test]
fn encodings_are_big_endian() {
    let buf = pack_request_position_message(RequestPositionMsg::new(0x01020304));
    assert_eq!(buf, vec![3, 1, 2, 3, 4]);
    let buf = pack_move_message(MoveMsg::new(1, 1.0f32.to_bits(), 0));
    assert_eq!(buf, vec![10, 0, 0, 0, 1, 0x3f, 0x80, 0, 0, 0, 0, 0, 0]);
    let buf = pack_obs_readings_message(ObsReadingsMsg::new(vec![(0xaabbccdd, 5)]));
    assert_eq!(buf, vec![8, 0xaa, 0xbb, 0xcc, 0xdd, 0, 0, 0, 5]);
    let buf = pack_alive_message(AliveMsg::new(2, pose(0.0, 0.0, 0.0, 0.0), Color::new(9, 8, 7, 6), 0, 0, 0));
    assert_eq!(buf.len(), 37);
    assert_eq!(&buf[0..5], &[1, 0, 0, 0, 2]);
    assert_eq!(&buf[21..25], &[9, 8, 7, 6]);
}

#[test]
fn parse_empty_buffer_fails() {
    assert_eq!(parse_message(&[]), Err(DecodeError::Empty));
}

#[test]
fn parse_unknown_tag_fails() {
    assert_eq!(parse_message(&[0]), Err(DecodeError::UnknownType { tag: 0 }));
    assert_eq!(parse_message(&[12, 0, 0]), Err(DecodeError::UnknownType { tag: 12 }));
}

#[test]
fn parse_wrong_size_fails() {
    assert_eq!(
        parse_message(&[2, 0]),
        Err(DecodeError::WrongSize { msg_type: MessageType::Start, len: 2 })
    );
    assert_eq!(
        parse_message(&[3, 0, 0, 1]),
        Err(DecodeError::WrongSize { msg_type: MessageType::RequestPosition, len: 4 })
    );
    assert_eq!(
        parse_message(&[8, 0, 0, 0, 0, 0, 0, 0]),
        Err(DecodeError::WrongSize { msg_type: MessageType::ObsReadings, len: 8 })
    );
    assert_eq!(
        parse_obs_readings_message(&[]),
        Err(DecodeError::WrongSize { msg_type: MessageType::ObsReadings, len: 0 })
    );
}

#[test]
fn parse_wrong_type_byte_fails() {
    assert_eq!(
        parse_start_message(&[5]),
        Err(DecodeError::WrongType { expected: MessageType::Start, tag: 5 })
    );
    assert_eq!(
        parse_move_message(&[11, 0, 0, 0, 1, 0, 0, 0, 0, 0, 0, 0, 0]),
        Err(DecodeError::WrongType { expected: MessageType::Move, tag: 11 })
    );
    assert_eq!(
        parse_obs_readings_message(&[7]),
        Err(DecodeError::WrongType { expected: MessageType::ObsReadings, tag: 7 })
    );
}

#[test]
fn message_type_tags() {
    assert_eq!(MessageType::Alive.tag(), 1);
    assert_eq!(MessageType::Spin.tag(), 11);
    assert_eq!(MessageType::from_tag(8), Some(MessageType::ObsReadings));
    assert_eq!(MessageType::from_tag(0), None);
    assert_eq!(MessageType::from_tag(12), None);
}
