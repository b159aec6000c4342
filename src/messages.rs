use vstd::prelude::*;

use crate::color::Color;

verus! {

/// The kind of a protocol message; its wire tag is the first byte of every frame.
#[derive(Debug, Clone, Copy, PartialEq, Eq, Structural)]
pub enum MessageType {
    Alive,
    Start,
    RequestPosition,
    Position,
    Kill,
    RobotDying,
    GetObstacles,
    ObsReadings,
    Pause,
    Move,
    Spin,
}

impl MessageType {
    /// The one-byte wire tag of this kind of message.
    pub open spec fn spec_tag(self) -> u8 {
        match self {
            MessageType::Alive => 1,
            MessageType::Start => 2,
            MessageType::RequestPosition => 3,
            MessageType::Position => 4,
            MessageType::Kill => 5,
            MessageType::RobotDying => 6,
            MessageType::GetObstacles => 7,
            MessageType::ObsReadings => 8,
            MessageType::Pause => 9,
            MessageType::Move => 10,
            MessageType::Spin => 11,
        }
    }

    pub fn tag(self) -> (t: u8)
        ensures
            t == self.spec_tag(),
    {
        match self {
            MessageType::Alive => 1,
            MessageType::Start => 2,
            MessageType::RequestPosition => 3,
            MessageType::Position => 4,
            MessageType::Kill => 5,
            MessageType::RobotDying => 6,
            MessageType::GetObstacles => 7,
            MessageType::ObsReadings => 8,
            MessageType::Pause => 9,
            MessageType::Move => 10,
            MessageType::Spin => 11,
        }
    }

    /// The kind whose tag is `t`, if any.
    pub fn from_tag(t: u8) -> (r: Option<MessageType>)
        ensures
            r is None <==> (t < 1 || t > 11),
            r matches Some(k) ==> k.spec_tag() == t,
    {
        match t {
            1 => Some(MessageType::Alive),
            2 => Some(MessageType::Start),
            3 => Some(MessageType::RequestPosition),
            4 => Some(MessageType::Position),
            5 => Some(MessageType::Kill),
            6 => Some(MessageType::RobotDying),
            7 => Some(MessageType::GetObstacles),
            8 => Some(MessageType::ObsReadings),
            9 => Some(MessageType::Pause),
            10 => Some(MessageType::Move),
            11 => Some(MessageType::Spin),
            _ => None,
        }
    }
}

/// A robot pose as it travels on the wire: location (x, y, z) and heading in
/// radians, each held as the bit pattern of an IEEE-754 single-precision float.
#[derive(Debug, Clone, Copy, PartialEq, Eq, Structural)]
pub struct PoseBits {
    pub x: u32,
    pub y: u32,
    pub z: u32,
    pub heading: u32,
}

impl PoseBits {
    pub fn new(x: u32, y: u32, z: u32, heading: u32) -> (p: PoseBits)
        ensures
            p == (PoseBits { x, y, z, heading }),
    {
        PoseBits { x, y, z, heading }
    }
}

/// A robot announces itself. The velocity limits and the collision radius are
/// float bit patterns.
#[derive(Debug, Clone, Copy, PartialEq, Eq, Structural)]
pub struct AliveMsg {
    pub id: u32,
    pub pos: PoseBits,
    pub color: Color,
    pub max_vel: u32,
    pub max_angular_vel: u32,
    pub radius: u32,
}

impl AliveMsg {
    pub fn new(
        id: u32,
        pos: PoseBits,
        color: Color,
        max_vel: u32,
        max_angular_vel: u32,
        radius: u32,
    ) -> (m: AliveMsg)
        ensures
            m == (AliveMsg { id, pos, color, max_vel, max_angular_vel, radius }),
    {
        AliveMsg { id, pos, color, max_vel, max_angular_vel, radius }
    }

    pub fn get_type(&self) -> (t: MessageType)
        ensures
            t == MessageType::Alive,
    {
        MessageType::Alive
    }
}

/// The console tells a robot to start running.
#[derive(Debug, Clone, Copy, PartialEq, Eq, Structural)]
pub struct StartMsg {}

impl StartMsg {
    pub fn new() -> (m: StartMsg) {
        StartMsg {  }
    }

    pub fn get_type(&self) -> (t: MessageType)
        ensures
            t == MessageType::Start,
    {
        MessageType::Start
    }
}

/// A robot asks the console for its authoritative position.
#[derive(Debug, Clone, Copy, PartialEq, Eq, Structural)]
pub struct RequestPositionMsg {
    pub id: u32,
}

impl RequestPositionMsg {
    pub fn new(id: u32) -> (m: RequestPositionMsg)
        ensures
            m.id == id,
    {
        RequestPositionMsg { id }
    }

    pub fn get_type(&self) -> (t: MessageType)
        ensures
            t == MessageType::RequestPosition,
    {
        MessageType::RequestPosition
    }
}

/// A position report.
#[derive(Debug, Clone, Copy, PartialEq, Eq, Structural)]
pub struct PositionMsg {
    pub pos: PoseBits,
}

impl PositionMsg {
    pub fn new(pos: PoseBits) -> (m: PositionMsg)
        ensures
            m.pos == pos,
    {
        PositionMsg { pos }
    }

    pub fn get_type(&self) -> (t: MessageType)
        ensures
            t == MessageType::Position,
    {
        MessageType::Position
    }
}

/// The console tells a robot to shut down.
#[derive(Debug, Clone, Copy, PartialEq, Eq, Structural)]
pub struct KillMsg {}

impl KillMsg {
    pub fn new() -> (m: KillMsg) {
        KillMsg {  }
    }

    pub fn get_type(&self) -> (t: MessageType)
        ensures
            t == MessageType::Kill,
    {
        MessageType::Kill
    }
}

/// A robot announces that it is going away.
#[derive(Debug, Clone, Copy, PartialEq, Eq, Structural)]
pub struct RobotDyingMsg {
    pub id: u32,
}

impl RobotDyingMsg {
    pub fn new(id: u32) -> (m: RobotDyingMsg)
        ensures
            m.id == id,
    {
        RobotDyingMsg { id }
    }

    pub fn get_type(&self) -> (t: MessageType)
        ensures
            t == MessageType::RobotDying,
    {
        MessageType::RobotDying
    }
}

/// A robot asks the console for its obstacle readings.
#[derive(Debug, Clone, Copy, PartialEq, Eq, Structural)]
pub struct GetObstaclesMsg {
    pub id: u32,
}

impl GetObstaclesMsg {
    pub fn new(id: u32) -> (m: GetObstaclesMsg)
        ensures
            m.id == id,
    {
        GetObstaclesMsg { id }
    }

    pub fn get_type(&self) -> (t: MessageType)
        ensures
            t == MessageType::GetObstacles,
    {
        MessageType::GetObstacles
    }
}

/// Egocentric obstacle readings, one (x, y) pair of float bit patterns each.
#[derive(Debug, Clone, PartialEq)]
pub struct ObsReadingsMsg {
    pub readings: Vec<(u32, u32)>,
}

impl ObsReadingsMsg {
    pub fn new(readings: Vec<(u32, u32)>) -> (m: ObsReadingsMsg)
        ensures
            m.readings@ == readings@,
    {
        ObsReadingsMsg { readings }
    }

    pub fn get_type(&self) -> (t: MessageType)
        ensures
            t == MessageType::ObsReadings,
    {
        MessageType::ObsReadings
    }
}

/// The console toggles a robot between paused and running.
#[derive(Debug, Clone, Copy, PartialEq, Eq, Structural)]
pub struct PauseMsg {}

impl PauseMsg {
    pub fn new() -> (m: PauseMsg) {
        PauseMsg {  }
    }

    pub fn get_type(&self) -> (t: MessageType)
        ensures
            t == MessageType::Pause,
    {
        MessageType::Pause
    }
}

/// A robot asks to move by the egocentric displacement (x, y), float bit patterns.
#[derive(Debug, Clone, Copy, PartialEq, Eq, Structural)]
pub struct MoveMsg {
    pub id: u32,
    pub x: u32,
    pub y: u32,
}

impl MoveMsg {
    pub fn new(id: u32, x: u32, y: u32) -> (m: MoveMsg)
        ensures
            m == (MoveMsg { id, x, y }),
    {
        MoveMsg { id, x, y }
    }

    pub fn get_type(&self) -> (t: MessageType)
        ensures
            t == MessageType::Move,
    {
        MessageType::Move
    }
}

/// A robot asks to turn by `theta` radians, a float bit pattern.
#[derive(Debug, Clone, Copy, PartialEq, Eq, Structural)]
pub struct SpinMsg {
    pub id: u32,
    pub theta: u32,
}

impl SpinMsg {
    pub fn new(id: u32, theta: u32) -> (m: SpinMsg)
        ensures
            m == (SpinMsg { id, theta }),
    {
        SpinMsg { id, theta }
    }

    pub fn get_type(&self) -> (t: MessageType)
        ensures
            t == MessageType::Spin,
    {
        MessageType::Spin
    }
}

/// Any protocol message.
#[derive(Debug, Clone, PartialEq)]
pub enum Message {
    Alive(AliveMsg),
    Start(StartMsg),
    RequestPosition(RequestPositionMsg),
    Position(PositionMsg),
    Kill(KillMsg),
    RobotDying(RobotDyingMsg),
    GetObstacles(GetObstaclesMsg),
    ObsReadings(ObsReadingsMsg),
    Pause(PauseMsg),
    Move(MoveMsg),
    Spin(SpinMsg),
}

impl Message {
    pub open spec fn spec_type(&self) -> MessageType {
        match self {
            Message::Alive(_) => MessageType::Alive,
            Message::Start(_) => MessageType::Start,
            Message::RequestPosition(_) => MessageType::RequestPosition,
            Message::Position(_) => MessageType::Position,
            Message::Kill(_) => MessageType::Kill,
            Message::RobotDying(_) => MessageType::RobotDying,
            Message::GetObstacles(_) => MessageType::GetObstacles,
            Message::ObsReadings(_) => MessageType::ObsReadings,
            Message::Pause(_) => MessageType::Pause,
            Message::Move(_) => MessageType::Move,
            Message::Spin(_) => MessageType::Spin,
        }
    }

    pub fn get_type(&self) -> (t: MessageType)
        ensures
            t == self.spec_type(),
    {
        match self {
            Message::Alive(_) => MessageType::Alive,
            Message::Start(_) => MessageType::Start,
            Message::RequestPosition(_) => MessageType::RequestPosition,
            Message::Position(_) => MessageType::Position,
            Message::Kill(_) => MessageType::Kill,
            Message::RobotDying(_) => MessageType::RobotDying,
            Message::GetObstacles(_) => MessageType::GetObstacles,
            Message::ObsReadings(_) => MessageType::ObsReadings,
            Message::Pause(_) => MessageType::Pause,
            Message::Move(_) => MessageType::Move,
            Message::Spin(_) => MessageType::Spin,
        }
    }

    /// Two messages carry the same content (readings compared by their sequence).
    pub open spec fn same_as(self, other: Message) -> bool {
        match (self, other) {
            (Message::ObsReadings(a), Message::ObsReadings(b)) => a.readings@ == b.readings@,
            _ => self == other,
        }
    }
}

} // verus!
