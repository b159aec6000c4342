use vstd::prelude::*;

use crate::messages::{
    AliveMsg, GetObstaclesMsg, KillMsg, Message, MessageType, MoveMsg, ObsReadingsMsg, PauseMsg,
    PoseBits, PositionMsg, RequestPositionMsg, RobotDyingMsg, SpinMsg, StartMsg,
};

verus! {

/// The UDP port of the console; robot `id` listens on `CONSOLE_PORT + id`.
pub const CONSOLE_PORT: u16 = 50000;

pub const ALIVE_MSG_LEN: usize = 37;

pub const START_MSG_LEN: usize = 1;

pub const REQUEST_POSITION_MSG_LEN: usize = 5;

pub const POSITION_MSG_LEN: usize = 17;

pub const KILL_MSG_LEN: usize = 1;

pub const ROBOT_DYING_MSG_LEN: usize = 5;

pub const GET_OBSTACLES_MSG_LEN: usize = 5;

pub const OBS_READING_SIZE: usize = 8;

pub const PAUSE_MSG_LEN: usize = 1;

pub const MOVE_MSG_LEN: usize = 13;

pub const SPIN_MSG_LEN: usize = 9;

/// Why a datagram could not be decoded.
#[derive(Debug, Clone, Copy, PartialEq, Eq, Structural)]
pub enum DecodeError {
    /// The buffer has no type byte.
    Empty,
    /// The type byte names no message kind.
    UnknownType { tag: u8 },
    /// The buffer's length does not fit the message kind.
    WrongSize { msg_type: MessageType, len: usize },
    /// The type byte is not the one of the message kind being decoded.
    WrongType { expected: MessageType, tag: u8 },
}

// ---------------------------------------------------------------------------
// Big-endian 32-bit fields
// ---------------------------------------------------------------------------

/// The four big-endian bytes of `v`.
pub open spec fn be_bytes(v: u32) -> Seq<u8> {
    seq![(v >> 24u32) as u8, (v >> 16u32) as u8, (v >> 8u32) as u8, v as u8]
}

/// The value of four big-endian bytes.
pub open spec fn be_value(b0: u8, b1: u8, b2: u8, b3: u8) -> u32 {
    ((b0 as u32) << 24u32) | ((b1 as u32) << 16u32) | ((b2 as u32) << 8u32) | (b3 as u32)
}

/// The value of the four bytes of `b` from `off` on.
pub open spec fn be_value_at(b: Seq<u8>, off: int) -> u32 {
    be_value(b[off], b[off + 1], b[off + 2], b[off + 3])
}

proof fn lemma_be_bytes_value(b0: u8, b1: u8, b2: u8, b3: u8)
    ensures
        be_bytes(be_value(b0, b1, b2, b3)) == seq![b0, b1, b2, b3],
{
    let v = be_value(b0, b1, b2, b3);
    assert((v >> 24u32) as u8 == b0 && (v >> 16u32) as u8 == b1 && (v >> 8u32) as u8 == b2
        && v as u8 == b3) by (bit_vector)
        requires
            v == ((b0 as u32) << 24u32) | ((b1 as u32) << 16u32) | ((b2 as u32) << 8u32) | (
            b3 as u32),
    ;
    assert(be_bytes(v) =~= seq![b0, b1, b2, b3]);
}

proof fn lemma_be_value_bytes(v: u32)
    ensures
        be_value((v >> 24u32) as u8, (v >> 16u32) as u8, (v >> 8u32) as u8, v as u8) == v,
{
    assert(((((v >> 24u32) as u8) as u32) << 24u32) | ((((v >> 16u32) as u8) as u32) << 16u32)
        | ((((v >> 8u32) as u8) as u32) << 8u32) | ((v as u8) as u32) == v) by (bit_vector);
}

/// The bytes of `b` from `off` on are those of the value read there.
proof fn lemma_be_at(b: Seq<u8>, off: int)
    requires
        0 <= off,
        off + 4 <= b.len(),
    ensures
        be_bytes(be_value_at(b, off)) == b.subrange(off, off + 4),
{
    lemma_be_bytes_value(b[off], b[off + 1], b[off + 2], b[off + 3]);
    assert(b.subrange(off, off + 4) =~= seq![b[off], b[off + 1], b[off + 2], b[off + 3]]);
}

/// Equal encodings come from equal values.
proof fn lemma_be_bytes_injective(v: u32, w: u32)
    requires
        be_bytes(v) == be_bytes(w),
    ensures
        v == w,
{
    lemma_be_value_bytes(v);
    lemma_be_value_bytes(w);
    assert(be_bytes(v)[0] == be_bytes(w)[0] && be_bytes(v)[1] == be_bytes(w)[1]
        && be_bytes(v)[2] == be_bytes(w)[2] && be_bytes(v)[3] == be_bytes(w)[3]);
}

/// Appends the big-endian bytes of `v`.
fn push_u32_be(buf: &mut Vec<u8>, v: u32)
    ensures
        final(buf)@ == old(buf)@ + be_bytes(v),
{
    buf.push((v >> 24u32) as u8);
    buf.push((v >> 16u32) as u8);
    buf.push((v >> 8u32) as u8);
    buf.push(v as u8);
    assert(buf@ =~= old(buf)@ + be_bytes(v));
}

/// Reads the big-endian value of the four bytes from `offset` on.
fn read_u32_be(buf: &[u8], offset: usize) -> (v: u32)
    requires
        offset + 4 <= buf@.len(),
    ensures
        v == be_value_at(buf@, offset as int),
{
    ((buf[offset] as u32) << 24u32) | ((buf[offset + 1] as u32) << 16u32) | ((buf[offset
        + 2] as u32) << 8u32) | (buf[offset + 3] as u32)
}

// ---------------------------------------------------------------------------
// Frames
// ---------------------------------------------------------------------------

pub open spec fn pose_bytes(p: PoseBits) -> Seq<u8> {
    be_bytes(p.x) + be_bytes(p.y) + be_bytes(p.z) + be_bytes(p.heading)
}

pub open spec fn alive_bytes(m: AliveMsg) -> Seq<u8> {
    seq![MessageType::Alive.spec_tag()] + be_bytes(m.id) + pose_bytes(m.pos) + seq![
        m.color.r,
        m.color.g,
        m.color.b,
        m.color.a,
    ] + be_bytes(m.max_vel) + be_bytes(m.max_angular_vel) + be_bytes(m.radius)
}

pub open spec fn start_bytes(m: StartMsg) -> Seq<u8> {
    seq![MessageType::Start.spec_tag()]
}

pub open spec fn request_position_bytes(m: RequestPositionMsg) -> Seq<u8> {
    seq![MessageType::RequestPosition.spec_tag()] + be_bytes(m.id)
}

pub open spec fn position_bytes(m: PositionMsg) -> Seq<u8> {
    seq![MessageType::Position.spec_tag()] + pose_bytes(m.pos)
}

pub open spec fn kill_bytes(m: KillMsg) -> Seq<u8> {
    seq![MessageType::Kill.spec_tag()]
}

pub open spec fn robot_dying_bytes(m: RobotDyingMsg) -> Seq<u8> {
    seq![MessageType::RobotDying.spec_tag()] + be_bytes(m.id)
}

pub open spec fn get_obstacles_bytes(m: GetObstaclesMsg) -> Seq<u8> {
    seq![MessageType::GetObstacles.spec_tag()] + be_bytes(m.id)
}

/// Each reading as its x then its y, in order.
pub open spec fn readings_bytes(r: Seq<(u32, u32)>) -> Seq<u8>
    decreases r.len(),
{
    if r.len() == 0 {
        seq![]
    } else {
        readings_bytes(r.drop_last()) + be_bytes(r.last().0) + be_bytes(r.last().1)
    }
}

pub open spec fn obs_readings_bytes(r: Seq<(u32, u32)>) -> Seq<u8> {
    seq![MessageType::ObsReadings.spec_tag()] + readings_bytes(r)
}

pub open spec fn pause_bytes(m: PauseMsg) -> Seq<u8> {
    seq![MessageType::Pause.spec_tag()]
}

pub open spec fn move_bytes(m: MoveMsg) -> Seq<u8> {
    seq![MessageType::Move.spec_tag()] + be_bytes(m.id) + be_bytes(m.x) + be_bytes(m.y)
}

pub open spec fn spin_bytes(m: SpinMsg) -> Seq<u8> {
    seq![MessageType::Spin.spec_tag()] + be_bytes(m.id) + be_bytes(m.theta)
}

/// The frame that carries `m`.
pub open spec fn message_bytes(m: Message) -> Seq<u8> {
    match m {
        Message::Alive(a) => alive_bytes(a),
        Message::Start(a) => start_bytes(a),
        Message::RequestPosition(a) => request_position_bytes(a),
        Message::Position(a) => position_bytes(a),
        Message::Kill(a) => kill_bytes(a),
        Message::RobotDying(a) => robot_dying_bytes(a),
        Message::GetObstacles(a) => get_obstacles_bytes(a),
        Message::ObsReadings(a) => obs_readings_bytes(a.readings@),
        Message::Pause(a) => pause_bytes(a),
        Message::Move(a) => move_bytes(a),
        Message::Spin(a) => spin_bytes(a),
    }
}

/// The kind of message whose tag is `t`.
pub open spec fn type_of_tag(t: u8) -> Option<MessageType> {
    if 1 <= t <= 11 {
        Some(
            match t {
                1 => MessageType::Alive,
                2 => MessageType::Start,
                3 => MessageType::RequestPosition,
                4 => MessageType::Position,
                5 => MessageType::Kill,
                6 => MessageType::RobotDying,
                7 => MessageType::GetObstacles,
                8 => MessageType::ObsReadings,
                9 => MessageType::Pause,
                10 => MessageType::Move,
                _ => MessageType::Spin,
            },
        )
    } else {
        None
    }
}

/// Whether a frame of `len` bytes has the size of a message of kind `t`:
/// an exact length, or one type byte and any number of 8-byte readings.
pub open spec fn frame_len_ok(t: MessageType, len: nat) -> bool {
    match t {
        MessageType::Alive => len == 37,
        MessageType::Start => len == 1,
        MessageType::RequestPosition => len == 5,
        MessageType::Position => len == 17,
        MessageType::Kill => len == 1,
        MessageType::RobotDying => len == 5,
        MessageType::GetObstacles => len == 5,
        MessageType::ObsReadings => len >= 1 && (len - 1) % 8 == 0,
        MessageType::Pause => len == 1,
        MessageType::Move => len == 13,
        MessageType::Spin => len == 9,
    }
}

/// The outcome of checking `b` as a frame of kind `t`: the size first, then the type byte.
pub open spec fn check_frame(b: Seq<u8>, t: MessageType) -> Result<(), DecodeError> {
    if !frame_len_ok(t, b.len()) {
        Err(DecodeError::WrongSize { msg_type: t, len: b.len() as usize })
    } else if b[0] != t.spec_tag() {
        Err(DecodeError::WrongType { expected: t, tag: b[0] })
    } else {
        Ok(())
    }
}

/// The outcome of checking `b` as a frame of whatever kind its first byte names.
pub open spec fn check_any_frame(b: Seq<u8>) -> Result<(), DecodeError> {
    if b.len() == 0 {
        Err(DecodeError::Empty)
    } else {
        match type_of_tag(b[0]) {
            None => Err(DecodeError::UnknownType { tag: b[0] }),
            Some(t) => check_frame(b, t),
        }
    }
}

// ---------------------------------------------------------------------------
// Encoding
// ---------------------------------------------------------------------------

fn push_pose(buf: &mut Vec<u8>, p: PoseBits)
    ensures
        final(buf)@ == old(buf)@ + pose_bytes(p),
{
    push_u32_be(buf, p.x);
    push_u32_be(buf, p.y);
    push_u32_be(buf, p.z);
    push_u32_be(buf, p.heading);
    assert(buf@ =~= old(buf)@ + pose_bytes(p));
}

pub fn pack_alive_message(msg: AliveMsg) -> (buf: Vec<u8>)
    ensures
        buf@ == alive_bytes(msg),
{
    let mut buf: Vec<u8> = Vec::with_capacity(ALIVE_MSG_LEN);
    buf.push(MessageType::Alive.tag());
    push_u32_be(&mut buf, msg.id);
    push_pose(&mut buf, msg.pos);
    buf.push(msg.color.r);
    buf.push(msg.color.g);
    buf.push(msg.color.b);
    buf.push(msg.color.a);
    push_u32_be(&mut buf, msg.max_vel);
    push_u32_be(&mut buf, msg.max_angular_vel);
    push_u32_be(&mut buf, msg.radius);
    assert(buf@ =~= alive_bytes(msg));
    buf
}

pub fn pack_start_message(msg: StartMsg) -> (buf: Vec<u8>)
    ensures
        buf@ == start_bytes(msg),
{
    let mut buf: Vec<u8> = Vec::with_capacity(START_MSG_LEN);
    buf.push(msg.get_type().tag());
    assert(buf@ =~= start_bytes(msg));
    buf
}

pub fn pack_request_position_message(msg: RequestPositionMsg) -> (buf: Vec<u8>)
    ensures
        buf@ == request_position_bytes(msg),
{
    let mut buf: Vec<u8> = Vec::with_capacity(REQUEST_POSITION_MSG_LEN);
    buf.push(msg.get_type().tag());
    push_u32_be(&mut buf, msg.id);
    assert(buf@ =~= request_position_bytes(msg));
    buf
}

pub fn pack_position_message(msg: PositionMsg) -> (buf: Vec<u8>)
    ensures
        buf@ == position_bytes(msg),
{
    let mut buf: Vec<u8> = Vec::with_capacity(POSITION_MSG_LEN);
    buf.push(msg.get_type().tag());
    push_pose(&mut buf, msg.pos);
    assert(buf@ =~= position_bytes(msg));
    buf
}

pub fn pack_kill_message(msg: KillMsg) -> (buf: Vec<u8>)
    ensures
        buf@ == kill_bytes(msg),
{
    let mut buf: Vec<u8> = Vec::with_capacity(KILL_MSG_LEN);
    buf.push(msg.get_type().tag());
    assert(buf@ =~= kill_bytes(msg));
    buf
}

pub fn pack_robot_dying_message(msg: RobotDyingMsg) -> (buf: Vec<u8>)
    ensures
        buf@ == robot_dying_bytes(msg),
{
    let mut buf: Vec<u8> = Vec::with_capacity(ROBOT_DYING_MSG_LEN);
    buf.push(msg.get_type().tag());
    push_u32_be(&mut buf, msg.id);
    assert(buf@ =~= robot_dying_bytes(msg));
    buf
}

pub fn pack_get_obstacles_message(msg: GetObstaclesMsg) -> (buf: Vec<u8>)
    ensures
        buf@ == get_obstacles_bytes(msg),
{
    let mut buf: Vec<u8> = Vec::with_capacity(GET_OBSTACLES_MSG_LEN);
    buf.push(msg.get_type().tag());
    push_u32_be(&mut buf, msg.id);
    assert(buf@ =~= get_obstacles_bytes(msg));
    buf
}

pub fn pack_obs_readings_message(msg: ObsReadingsMsg) -> (buf: Vec<u8>)
    ensures
        buf@ == obs_readings_bytes(msg.readings@),
{
    let mut buf: Vec<u8> = Vec::new();
    buf.push(msg.get_type().tag());
    let mut i: usize = 0;
    while i < msg.readings.len()
        invariant
            0 <= i <= msg.readings@.len(),
            buf@ == obs_readings_bytes(msg.readings@.subrange(0, i as int)),
        decreases msg.readings@.len() - i,
    {
        let (x, y) = msg.readings[i];
        push_u32_be(&mut buf, x);
        push_u32_be(&mut buf, y);
        proof {
            let s = msg.readings@.subrange(0, i + 1);
            assert(s.drop_last() =~= msg.readings@.subrange(0, i as int));
            assert(buf@ =~= obs_readings_bytes(s));
        }
        i = i + 1;
    }
    assert(msg.readings@.subrange(0, i as int) =~= msg.readings@);
    buf
}

pub fn pack_pause_message(msg: PauseMsg) -> (buf: Vec<u8>)
    ensures
        buf@ == pause_bytes(msg),
{
    let mut buf: Vec<u8> = Vec::with_capacity(PAUSE_MSG_LEN);
    buf.push(msg.get_type().tag());
    assert(buf@ =~= pause_bytes(msg));
    buf
}

pub fn pack_move_message(msg: MoveMsg) -> (buf: Vec<u8>)
    ensures
        buf@ == move_bytes(msg),
{
    let mut buf: Vec<u8> = Vec::with_capacity(MOVE_MSG_LEN);
    buf.push(msg.get_type().tag());
    push_u32_be(&mut buf, msg.id);
    push_u32_be(&mut buf, msg.x);
    push_u32_be(&mut buf, msg.y);
    assert(buf@ =~= move_bytes(msg));
    buf
}

pub fn pack_spin_message(msg: SpinMsg) -> (buf: Vec<u8>)
    ensures
        buf@ == spin_bytes(msg),
{
    let mut buf: Vec<u8> = Vec::with_capacity(SPIN_MSG_LEN);
    buf.push(msg.get_type().tag());
    push_u32_be(&mut buf, msg.id);
    push_u32_be(&mut buf, msg.theta);
    assert(buf@ =~= spin_bytes(msg));
    buf
}

/// Encodes any message as the frame `message_bytes` describes.
pub fn pack_message(msg: Message) -> (buf: Vec<u8>)
    ensures
        buf@ == message_bytes(msg),
{
    match msg {
        Message::Alive(m) => pack_alive_message(m),
        Message::Start(m) => pack_start_message(m),
        Message::RequestPosition(m) => pack_request_position_message(m),
        Message::Position(m) => pack_position_message(m),
        Message::Kill(m) => pack_kill_message(m),
        Message::RobotDying(m) => pack_robot_dying_message(m),
        Message::GetObstacles(m) => pack_get_obstacles_message(m),
        Message::ObsReadings(m) => pack_obs_readings_message(m),
        Message::Pause(m) => pack_pause_message(m),
        Message::Move(m) => pack_move_message(m),
        Message::Spin(m) => pack_spin_message(m),
    }
}

// ---------------------------------------------------------------------------
// Decoding
// ---------------------------------------------------------------------------

fn check_msg_buf_len(msg_buf: &[u8], expected: usize, msg_type: MessageType) -> (r: Result<
    (),
    DecodeError,
>)
    ensures
        r == (if msg_buf@.len() == expected {
            Ok(())
        } else {
            Err(DecodeError::WrongSize { msg_type, len: msg_buf@.len() as usize })
        }),
{
    if msg_buf.len() != expected {
        return Err(DecodeError::WrongSize { msg_type, len: msg_buf.len() });
    }
    Ok(())
}

fn check_msg_buf_expected_type(msg_buf: &[u8], expected: MessageType) -> (r: Result<
    (),
    DecodeError,
>)
    requires
        msg_buf@.len() >= 1,
    ensures
        r == (if msg_buf@[0] == expected.spec_tag() {
            Ok(())
        } else {
            Err(DecodeError::WrongType { expected, tag: msg_buf@[0] })
        }),
{
    if msg_buf[0] != expected.tag() {
        return Err(DecodeError::WrongType { expected, tag: msg_buf[0] });
    }
    Ok(())
}

/// Checks the size, then the type byte, of a frame of the fixed length `len`.
fn check_fixed_frame(msg_buf: &[u8], len: usize, msg_type: MessageType) -> (r: Result<
    (),
    DecodeError,
>)
    requires
        len >= 1,
        msg_type != MessageType::ObsReadings,
        frame_len_ok(msg_type, len as nat),
        forall|n: nat| #[trigger] frame_len_ok(msg_type, n) ==> n == len,
    ensures
        r == check_frame(msg_buf@, msg_type),
{
    match check_msg_buf_len(msg_buf, len, msg_type) {
        Err(e) => Err(e),
        Ok(()) => check_msg_buf_expected_type(msg_buf, msg_type),
    }
}

pub fn parse_alive_message(msg_buf: &[u8]) -> (r: Result<AliveMsg, DecodeError>)
    ensures
        match r {
            Ok(m) => check_frame(msg_buf@, MessageType::Alive) is Ok && alive_bytes(m)
                == msg_buf@,
            Err(e) => check_frame(msg_buf@, MessageType::Alive) == Err::<(), DecodeError>(e),
        },
{
    match check_fixed_frame(msg_buf, ALIVE_MSG_LEN, MessageType::Alive) {
        Err(e) => return Err(e),
        Ok(()) => {},
    }
    let id = read_u32_be(msg_buf, 1);
    let pos = PoseBits::new(
        read_u32_be(msg_buf, 5),
        read_u32_be(msg_buf, 9),
        read_u32_be(msg_buf, 13),
        read_u32_be(msg_buf, 17),
    );
    let color = crate::color::Color::new(msg_buf[21], msg_buf[22], msg_buf[23], msg_buf[24]);
    let max_vel = read_u32_be(msg_buf, 25);
    let max_angular_vel = read_u32_be(msg_buf, 29);
    let radius = read_u32_be(msg_buf, 33);
    let m = AliveMsg::new(id, pos, color, max_vel, max_angular_vel, radius);
    proof {
        let b = msg_buf@;
        lemma_be_at(b, 1);
        lemma_be_at(b, 5);
        lemma_be_at(b, 9);
        lemma_be_at(b, 13);
        lemma_be_at(b, 17);
        lemma_be_at(b, 25);
        lemma_be_at(b, 29);
        lemma_be_at(b, 33);
        assert(b =~= b.subrange(0, 1) + b.subrange(1, 5) + (b.subrange(5, 9) + b.subrange(9, 13)
            + b.subrange(13, 17) + b.subrange(17, 21)) + b.subrange(21, 25) + b.subrange(25, 29)
            + b.subrange(29, 33) + b.subrange(33, 37));
        assert(b.subrange(0, 1) =~= seq![MessageType::Alive.spec_tag()]);
        assert(b.subrange(21, 25) =~= seq![m.color.r, m.color.g, m.color.b, m.color.a]);
    }
    Ok(m)
}

pub fn parse_start_message(msg_buf: &[u8]) -> (r: Result<StartMsg, DecodeError>)
    ensures
        match r {
            Ok(m) => check_frame(msg_buf@, MessageType::Start) is Ok && start_bytes(m)
                == msg_buf@,
            Err(e) => check_frame(msg_buf@, MessageType::Start) == Err::<(), DecodeError>(e),
        },
{
    match check_fixed_frame(msg_buf, START_MSG_LEN, MessageType::Start) {
        Err(e) => return Err(e),
        Ok(()) => {},
    }
    let m = StartMsg::new();
    assert(msg_buf@ =~= start_bytes(m));
    Ok(m)
}

pub fn parse_request_position_message(msg_buf: &[u8]) -> (r: Result<
    RequestPositionMsg,
    DecodeError,
>)
    ensures
        match r {
            Ok(m) => check_frame(msg_buf@, MessageType::RequestPosition) is Ok
                && request_position_bytes(m) == msg_buf@,
            Err(e) => check_frame(msg_buf@, MessageType::RequestPosition) == Err::<
                (),
                DecodeError,
            >(e),
        },
{
    match check_fixed_frame(msg_buf, REQUEST_POSITION_MSG_LEN, MessageType::RequestPosition) {
        Err(e) => return Err(e),
        Ok(()) => {},
    }
    let m = RequestPositionMsg::new(read_u32_be(msg_buf, 1));
    proof {
        lemma_be_at(msg_buf@, 1);
        assert(msg_buf@ =~= msg_buf@.subrange(0, 1) + msg_buf@.subrange(1, 5));
    }
    Ok(m)
}

pub fn parse_position_message(msg_buf: &[u8]) -> (r: Result<PositionMsg, DecodeError>)
    ensures
        match r {
            Ok(m) => check_frame(msg_buf@, MessageType::Position) is Ok && position_bytes(m)
                == msg_buf@,
            Err(e) => check_frame(msg_buf@, MessageType::Position) == Err::<(), DecodeError>(e),
        },
{
    match check_fixed_frame(msg_buf, POSITION_MSG_LEN, MessageType::Position) {
        Err(e) => return Err(e),
        Ok(()) => {},
    }
    let pos = PoseBits::new(
        read_u32_be(msg_buf, 1),
        read_u32_be(msg_buf, 5),
        read_u32_be(msg_buf, 9),
        read_u32_be(msg_buf, 13),
    );
    let m = PositionMsg::new(pos);
    proof {
        let b = msg_buf@;
        lemma_be_at(b, 1);
        lemma_be_at(b, 5);
        lemma_be_at(b, 9);
        lemma_be_at(b, 13);
        assert(b =~= b.subrange(0, 1) + (b.subrange(1, 5) + b.subrange(5, 9) + b.subrange(9, 13)
            + b.subrange(13, 17)));
    }
    Ok(m)
}

pub fn parse_kill_message(msg_buf: &[u8]) -> (r: Result<KillMsg, DecodeError>)
    ensures
        match r {
            Ok(m) => check_frame(msg_buf@, MessageType::Kill) is Ok && kill_bytes(m) == msg_buf@,
            Err(e) => check_frame(msg_buf@, MessageType::Kill) == Err::<(), DecodeError>(e),
        },
{
    match check_fixed_frame(msg_buf, KILL_MSG_LEN, MessageType::Kill) {
        Err(e) => return Err(e),
        Ok(()) => {},
    }
    let m = KillMsg::new();
    assert(msg_buf@ =~= kill_bytes(m));
    Ok(m)
}

pub fn parse_robot_dying_message(msg_buf: &[u8]) -> (r: Result<RobotDyingMsg, DecodeError>)
    ensures
        match r {
            Ok(m) => check_frame(msg_buf@, MessageType::RobotDying) is Ok && robot_dying_bytes(m)
                == msg_buf@,
            Err(e) => check_frame(msg_buf@, MessageType::RobotDying) == Err::<(), DecodeError>(
                e,
            ),
        },
{
    match check_fixed_frame(msg_buf, ROBOT_DYING_MSG_LEN, MessageType::RobotDying) {
        Err(e) => return Err(e),
        Ok(()) => {},
    }
    let m = RobotDyingMsg::new(read_u32_be(msg_buf, 1));
    proof {
        lemma_be_at(msg_buf@, 1);
        assert(msg_buf@ =~= msg_buf@.subrange(0, 1) + msg_buf@.subrange(1, 5));
    }
    Ok(m)
}

pub fn parse_get_obstacles_message(msg_buf: &[u8]) -> (r: Result<GetObstaclesMsg, DecodeError>)
    ensures
        match r {
            Ok(m) => check_frame(msg_buf@, MessageType::GetObstacles) is Ok
                && get_obstacles_bytes(m) == msg_buf@,
            Err(e) => check_frame(msg_buf@, MessageType::GetObstacles) == Err::<(), DecodeError>(
                e,
            ),
        },
{
    match check_fixed_frame(msg_buf, GET_OBSTACLES_MSG_LEN, MessageType::GetObstacles) {
        Err(e) => return Err(e),
        Ok(()) => {},
    }
    let m = GetObstaclesMsg::new(read_u32_be(msg_buf, 1));
    proof {
        lemma_be_at(msg_buf@, 1);
        assert(msg_buf@ =~= msg_buf@.subrange(0, 1) + msg_buf@.subrange(1, 5));
    }
    Ok(m)
}

pub fn parse_pause_message(msg_buf: &[u8]) -> (r: Result<PauseMsg, DecodeError>)
    ensures
        match r {
            Ok(m) => check_frame(msg_buf@, MessageType::Pause) is Ok && pause_bytes(m)
                == msg_buf@,
            Err(e) => check_frame(msg_buf@, MessageType::Pause) == Err::<(), DecodeError>(e),
        },
{
    match check_fixed_frame(msg_buf, PAUSE_MSG_LEN, MessageType::Pause) {
        Err(e) => return Err(e),
        Ok(()) => {},
    }
    let m = PauseMsg::new();
    assert(msg_buf@ =~= pause_bytes(m));
    Ok(m)
}

pub fn parse_move_message(msg_buf: &[u8]) -> (r: Result<MoveMsg, DecodeError>)
    ensures
        match r {
            Ok(m) => check_frame(msg_buf@, MessageType::Move) is Ok && move_bytes(m) == msg_buf@,
            Err(e) => check_frame(msg_buf@, MessageType::Move) == Err::<(), DecodeError>(e),
        },
{
    match check_fixed_frame(msg_buf, MOVE_MSG_LEN, MessageType::Move) {
        Err(e) => return Err(e),
        Ok(()) => {},
    }
    let m = MoveMsg::new(read_u32_be(msg_buf, 1), read_u32_be(msg_buf, 5), read_u32_be(msg_buf, 9));
    proof {
        let b = msg_buf@;
        lemma_be_at(b, 1);
        lemma_be_at(b, 5);
        lemma_be_at(b, 9);
        assert(b =~= b.subrange(0, 1) + b.subrange(1, 5) + b.subrange(5, 9) + b.subrange(9, 13));
    }
    Ok(m)
}

pub fn parse_spin_message(msg_buf: &[u8]) -> (r: Result<SpinMsg, DecodeError>)
    ensures
        match r {
            Ok(m) => check_frame(msg_buf@, MessageType::Spin) is Ok && spin_bytes(m) == msg_buf@,
            Err(e) => check_frame(msg_buf@, MessageType::Spin) == Err::<(), DecodeError>(e),
        },
{
    match check_fixed_frame(msg_buf, SPIN_MSG_LEN, MessageType::Spin) {
        Err(e) => return Err(e),
        Ok(()) => {},
    }
    let m = SpinMsg::new(read_u32_be(msg_buf, 1), read_u32_be(msg_buf, 5));
    proof {
        let b = msg_buf@;
        lemma_be_at(b, 1);
        lemma_be_at(b, 5);
        assert(b =~= b.subrange(0, 1) + b.subrange(1, 5) + b.subrange(5, 9));
    }
    Ok(m)
}

pub fn parse_obs_readings_message(msg_buf: &[u8]) -> (r: Result<ObsReadingsMsg, DecodeError>)
    ensures
        match r {
            Ok(m) => check_frame(msg_buf@, MessageType::ObsReadings) is Ok && obs_readings_bytes(
                m.readings@,
            ) == msg_buf@,
            Err(e) => check_frame(msg_buf@, MessageType::ObsReadings) == Err::<(), DecodeError>(
                e,
            ),
        },
{
    if msg_buf.len() < 1 || (msg_buf.len() - 1) % OBS_READING_SIZE != 0 {
        return Err(DecodeError::WrongSize { msg_type: MessageType::ObsReadings, len: msg_buf.len() });
    }
    match check_msg_buf_expected_type(msg_buf, MessageType::ObsReadings) {
        Err(e) => return Err(e),
        Ok(()) => {},
    }
    let num_readings = (msg_buf.len() - 1) / OBS_READING_SIZE;
    let mut readings: Vec<(u32, u32)> = Vec::with_capacity(num_readings);
    let mut offset: usize = 1;
    while offset < msg_buf.len()
        invariant
            msg_buf@.len() == 1 + 8 * num_readings,
            offset == 1 + 8 * readings@.len(),
            readings@.len() <= num_readings,
            readings_bytes(readings@) == msg_buf@.subrange(1, offset as int),
        decreases msg_buf@.len() - offset,
    {
        let x = read_u32_be(msg_buf, offset);
        let y = read_u32_be(msg_buf, offset + 4);
        proof {
            let b = msg_buf@;
            lemma_be_at(b, offset as int);
            lemma_be_at(b, offset + 4);
            let s = readings@.push((x, y));
            assert(s.drop_last() =~= readings@);
            assert(b.subrange(1, offset + 8) =~= b.subrange(1, offset as int) + b.subrange(
                offset as int,
                offset + 4,
            ) + b.subrange(offset + 4, offset + 8));
        }
        readings.push((x, y));
        offset = offset + 8;
    }
    let m = ObsReadingsMsg::new(readings);
    assert(msg_buf@ =~= seq![msg_buf@[0]] + msg_buf@.subrange(1, offset as int));
    Ok(m)
}

/// Decodes one datagram. It succeeds exactly on the frames that `check_any_frame`
/// accepts, and then returns the message whose frame the buffer is.
pub fn parse_message(msg_buf: &[u8]) -> (r: Result<Message, DecodeError>)
    ensures
        match r {
            Ok(m) => check_any_frame(msg_buf@) is Ok && message_bytes(m) == msg_buf@,
            Err(e) => check_any_frame(msg_buf@) == Err::<(), DecodeError>(e),
        },
{
    if msg_buf.len() < 1 {
        return Err(DecodeError::Empty);
    }
    let msg_type = match MessageType::from_tag(msg_buf[0]) {
        None => return Err(DecodeError::UnknownType { tag: msg_buf[0] }),
        Some(t) => t,
    };
    assert(type_of_tag(msg_buf@[0]) == Some(msg_type));
    match msg_type {
        MessageType::Alive => match parse_alive_message(msg_buf) {
            Ok(m) => Ok(Message::Alive(m)),
            Err(e) => Err(e),
        },
        MessageType::Start => match parse_start_message(msg_buf) {
            Ok(m) => Ok(Message::Start(m)),
            Err(e) => Err(e),
        },
        MessageType::RequestPosition => match parse_request_position_message(msg_buf) {
            Ok(m) => Ok(Message::RequestPosition(m)),
            Err(e) => Err(e),
        },
        MessageType::Position => match parse_position_message(msg_buf) {
            Ok(m) => Ok(Message::Position(m)),
            Err(e) => Err(e),
        },
        MessageType::Kill => match parse_kill_message(msg_buf) {
            Ok(m) => Ok(Message::Kill(m)),
            Err(e) => Err(e),
        },
        MessageType::RobotDying => match parse_robot_dying_message(msg_buf) {
            Ok(m) => Ok(Message::RobotDying(m)),
            Err(e) => Err(e),
        },
        MessageType::GetObstacles => match parse_get_obstacles_message(msg_buf) {
            Ok(m) => Ok(Message::GetObstacles(m)),
            Err(e) => Err(e),
        },
        MessageType::ObsReadings => match parse_obs_readings_message(msg_buf) {
            Ok(m) => Ok(Message::ObsReadings(m)),
            Err(e) => Err(e),
        },
        MessageType::Pause => match parse_pause_message(msg_buf) {
            Ok(m) => Ok(Message::Pause(m)),
            Err(e) => Err(e),
        },
        MessageType::Move => match parse_move_message(msg_buf) {
            Ok(m) => Ok(Message::Move(m)),
            Err(e) => Err(e),
        },
        MessageType::Spin => match parse_spin_message(msg_buf) {
            Ok(m) => Ok(Message::Spin(m)),
            Err(e) => Err(e),
        },
    }
}

// ---------------------------------------------------------------------------
// Round trip
// ---------------------------------------------------------------------------

proof fn lemma_readings_bytes_len(r: Seq<(u32, u32)>)
    ensures
        readings_bytes(r).len() == 8 * r.len(),
    decreases r.len(),
{
    if r.len() > 0 {
        lemma_readings_bytes_len(r.drop_last());
    }
}

proof fn lemma_readings_bytes_injective(r1: Seq<(u32, u32)>, r2: Seq<(u32, u32)>)
    requires
        readings_bytes(r1) == readings_bytes(r2),
    ensures
        r1 == r2,
    decreases r1.len(),
{
    lemma_readings_bytes_len(r1);
    lemma_readings_bytes_len(r2);
    if r1.len() == 0 {
        assert(r1 =~= r2);
    } else {
        let b = readings_bytes(r1);
        let n = b.len() as int;
        lemma_readings_bytes_len(r1.drop_last());
        lemma_readings_bytes_len(r2.drop_last());
        let prefix1 = readings_bytes(r1.drop_last());
        let prefix2 = readings_bytes(r2.drop_last());
        assert(b.subrange(0, n - 8) =~= prefix1);
        assert(b.subrange(0, n - 8) =~= prefix2);
        assert(b.subrange(n - 8, n - 4) =~= be_bytes(r1.last().0));
        assert(b.subrange(n - 8, n - 4) =~= be_bytes(r2.last().0));
        assert(b.subrange(n - 4, n) =~= be_bytes(r1.last().1));
        assert(b.subrange(n - 4, n) =~= be_bytes(r2.last().1));
        lemma_be_bytes_injective(r1.last().0, r2.last().0);
        lemma_be_bytes_injective(r1.last().1, r2.last().1);
        lemma_readings_bytes_injective(r1.drop_last(), r2.drop_last());
        assert(r1 =~= r1.drop_last().push(r1.last()));
        assert(r2 =~= r2.drop_last().push(r2.last()));
    }
}

/// The four bytes of `b` from `off` on are the encoding of `v` and of `w` alike.
proof fn lemma_same_field(b: Seq<u8>, off: int, v: u32, w: u32)
    requires
        0 <= off,
        off + 4 <= b.len(),
        b.subrange(off, off + 4) == be_bytes(v),
        b.subrange(off, off + 4) == be_bytes(w),
    ensures
        v == w,
{
    lemma_be_bytes_injective(v, w);
}

proof fn lemma_pose_injective(b: Seq<u8>, off: int, p: PoseBits, q: PoseBits)
    requires
        0 <= off,
        off + 16 <= b.len(),
        b.subrange(off, off + 16) == pose_bytes(p),
        b.subrange(off, off + 16) == pose_bytes(q),
    ensures
        p == q,
{
    let s = b.subrange(off, off + 16);
    assert(s.subrange(0, 4) =~= be_bytes(p.x) && s.subrange(0, 4) =~= be_bytes(q.x));
    assert(s.subrange(4, 8) =~= be_bytes(p.y) && s.subrange(4, 8) =~= be_bytes(q.y));
    assert(s.subrange(8, 12) =~= be_bytes(p.z) && s.subrange(8, 12) =~= be_bytes(q.z));
    assert(s.subrange(12, 16) =~= be_bytes(p.heading) && s.subrange(12, 16) =~= be_bytes(
        q.heading,
    ));
    lemma_same_field(s, 0, p.x, q.x);
    lemma_same_field(s, 4, p.y, q.y);
    lemma_same_field(s, 8, p.z, q.z);
    lemma_same_field(s, 12, p.heading, q.heading);
}

/// Wire round trip: the frame of every message is one that decoding accepts, and
/// any message with the same frame carries the same content. With the contract of
/// `parse_message`, decoding `pack_message(m)` therefore gives back `m`.
pub proof fn lemma_wire_round_trip(m: Message, decoded: Message)
    requires
        message_bytes(decoded) == message_bytes(m),
    ensures
        check_any_frame(message_bytes(m)) is Ok,
        decoded.same_as(m),
{
    let b = message_bytes(m);
    assert(b[0] == m.spec_type().spec_tag());
    assert(b[0] == decoded.spec_type().spec_tag());
    match m {
        Message::ObsReadings(o) => {
            lemma_readings_bytes_len(o.readings@);
            assert((b.len() - 1) % 8 == 0);
            match decoded {
                Message::ObsReadings(d) => {
                    assert(b.subrange(1, b.len() as int) =~= readings_bytes(o.readings@));
                    assert(message_bytes(decoded).subrange(1, b.len() as int) =~= readings_bytes(
                        d.readings@,
                    ));
                    lemma_readings_bytes_injective(d.readings@, o.readings@);
                },
                _ => {},
            }
        },
        Message::Alive(a) => {
            match decoded {
                Message::Alive(d) => {
                    let c = message_bytes(decoded);
                    assert(b.subrange(1, 5) =~= be_bytes(a.id) && c.subrange(1, 5) =~= be_bytes(
                        d.id,
                    ));
                    assert(b.subrange(5, 21) =~= pose_bytes(a.pos) && c.subrange(5, 21)
                        =~= pose_bytes(d.pos));
                    assert(b.subrange(25, 29) =~= be_bytes(a.max_vel) && c.subrange(25, 29)
                        =~= be_bytes(d.max_vel));
                    assert(b.subrange(29, 33) =~= be_bytes(a.max_angular_vel) && c.subrange(29, 33)
                        =~= be_bytes(d.max_angular_vel));
                    assert(b.subrange(33, 37) =~= be_bytes(a.radius) && c.subrange(33, 37)
                        =~= be_bytes(d.radius));
                    lemma_same_field(b, 1, a.id, d.id);
                    lemma_pose_injective(b, 5, a.pos, d.pos);
                    lemma_same_field(b, 25, a.max_vel, d.max_vel);
                    lemma_same_field(b, 29, a.max_angular_vel, d.max_angular_vel);
                    lemma_same_field(b, 33, a.radius, d.radius);
                    assert(b[21] == a.color.r && c[21] == d.color.r);
                    assert(b[22] == a.color.g && c[22] == d.color.g);
                    assert(b[23] == a.color.b && c[23] == d.color.b);
                    assert(b[24] == a.color.a && c[24] == d.color.a);
                },
                _ => {},
            }
        },
        Message::RequestPosition(a) => {
            match decoded {
                Message::RequestPosition(d) => {
                    assert(b.subrange(1, 5) =~= be_bytes(a.id));
                    assert(message_bytes(decoded).subrange(1, 5) =~= be_bytes(d.id));
                    lemma_same_field(b, 1, a.id, d.id);
                },
                _ => {},
            }
        },
        Message::Position(a) => {
            match decoded {
                Message::Position(d) => {
                    assert(b.subrange(1, 17) =~= pose_bytes(a.pos));
                    assert(message_bytes(decoded).subrange(1, 17) =~= pose_bytes(d.pos));
                    lemma_pose_injective(b, 1, a.pos, d.pos);
                },
                _ => {},
            }
        },
        Message::RobotDying(a) => {
            match decoded {
                Message::RobotDying(d) => {
                    assert(b.subrange(1, 5) =~= be_bytes(a.id));
                    assert(message_bytes(decoded).subrange(1, 5) =~= be_bytes(d.id));
                    lemma_same_field(b, 1, a.id, d.id);
                },
                _ => {},
            }
        },
        Message::GetObstacles(a) => {
            match decoded {
                Message::GetObstacles(d) => {
                    assert(b.subrange(1, 5) =~= be_bytes(a.id));
                    assert(message_bytes(decoded).subrange(1, 5) =~= be_bytes(d.id));
                    lemma_same_field(b, 1, a.id, d.id);
                },
                _ => {},
            }
        },
        Message::Move(a) => {
            match decoded {
                Message::Move(d) => {
                    let c = message_bytes(decoded);
                    assert(b.subrange(1, 5) =~= be_bytes(a.id) && c.subrange(1, 5) =~= be_bytes(
                        d.id,
                    ));
                    assert(b.subrange(5, 9) =~= be_bytes(a.x) && c.subrange(5, 9) =~= be_bytes(
                        d.x,
                    ));
                    assert(b.subrange(9, 13) =~= be_bytes(a.y) && c.subrange(9, 13) =~= be_bytes(
                        d.y,
                    ));
                    lemma_same_field(b, 1, a.id, d.id);
                    lemma_same_field(b, 5, a.x, d.x);
                    lemma_same_field(b, 9, a.y, d.y);
                },
                _ => {},
            }
        },
        Message::Spin(a) => {
            match decoded {
                Message::Spin(d) => {
                    let c = message_bytes(decoded);
                    assert(b.subrange(1, 5) =~= be_bytes(a.id) && c.subrange(1, 5) =~= be_bytes(
                        d.id,
                    ));
                    assert(b.subrange(5, 9) =~= be_bytes(a.theta) && c.subrange(5, 9)
                        =~= be_bytes(d.theta));
                    lemma_same_field(b, 1, a.id, d.id);
                    lemma_same_field(b, 5, a.theta, d.theta);
                },
                _ => {},
            }
        },
        _ => {},
    }
}

} // verus!
