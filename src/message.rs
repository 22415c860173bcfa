//! The messages that cross the serial link and the operator socket.
use vstd::prelude::*;

verus! {

/// One of the four line-tracking photo-sensors, left to right.
#[derive(Clone, Copy, Debug, PartialEq, Eq, Structural)]
pub enum TrackSensorID {
    L1,
    L2,
    R1,
    R2,
}

impl TrackSensorID {
    /// Position of the sensor's bit in a track snapshot `[L1, L2, R1, R2]`.
    pub open spec fn spec_index(self) -> int {
        match self {
            TrackSensorID::L1 => 0,
            TrackSensorID::L2 => 1,
            TrackSensorID::R1 => 2,
            TrackSensorID::R2 => 3,
        }
    }

    pub fn index(self) -> (r: usize)
        ensures
            r == self.spec_index(),
            r < 4,
    {
        match self {
            TrackSensorID::L1 => 0,
            TrackSensorID::L2 => 1,
            TrackSensorID::R1 => 2,
            TrackSensorID::R2 => 3,
        }
    }
}

/// Telemetry sent by the microcontroller to the host.
#[derive(Clone, Copy, Debug, PartialEq, Eq)]
pub enum SerialData {
    /// Measured distance in cm; absent when the ranging round timed out or
    /// fell outside the sensor's range.
    UltraSensor(Option<u16>),
    /// An edge on one track sensor, with the sensor's new state.
    TrackSensor((TrackSensorID, bool)),
}

/// Commands sent by the host to the microcontroller.
#[derive(Debug, PartialEq, Eq)]
pub enum SerialCMD {
    /// Frequency in Hz; 0 silences the buzzer.
    Buzzer(u16),
    /// RGB colour, each channel 0 to 255.
    LED((u8, u8, u8)),
    /// Rotation in degrees, -90 to 90, 0 is the midpoint.
    Servo(i8),
    /// Left and right duty, -0xffff to 0xffff; the sign is the direction.
    HBridge((i32, i32)),
    /// Host-only: apply each inner command in order, then the link closes.
    Reset(Vec<SerialCMD>),
}

/// The commands that bring every actuator to its inert, centred state.
pub open spec fn spec_neutral_commands() -> Seq<SerialCMD> {
    seq![
        SerialCMD::Buzzer(0),
        SerialCMD::LED((0, 0, 0)),
        SerialCMD::Servo(0),
        SerialCMD::HBridge((0, 0)),
    ]
}

/// An RGB colour, each channel 0 to 255.
#[derive(Clone, Copy, Debug, PartialEq, Eq, Structural)]
pub struct RGB {
    pub r: u8,
    pub g: u8,
    pub b: u8,
}

/// A message from the remote operator.
#[derive(Debug, PartialEq, Eq)]
pub enum ClientMessage {
    /// Frequency in Hz.
    Buzzer(u16),
    /// RGB colour, each channel 0 to 255.
    LED((u8, u8, u8)),
    /// Rotation in degrees, -90 to 90.
    Servo(i8),
    /// Left and right motor duty, -0xffff to 0xffff.
    Motor((i32, i32)),
    /// A control mode by name: `ManualControl`, `FollowLine` or `KeepDistance`.
    ControlState(String),
}

/// A message to the remote operator.
#[derive(Debug, PartialEq, Eq)]
pub enum ServerMessage {
    Text { text: String },
    /// The current distance, if a fresh one is known.
    Ultra { ultra: Option<u16> },
    /// The track snapshot `[L1, L2, R1, R2]`.
    Track { track: [bool; 4] },
}

/// The neutral sequence: buzzer off, LED dark, servo centred, motors stopped.
pub fn neutral_commands() -> (r: Vec<SerialCMD>)
    ensures
        r@ == spec_neutral_commands(),
{
    let mut r: Vec<SerialCMD> = Vec::new();
    r.push(SerialCMD::Buzzer(0));
    r.push(SerialCMD::LED((0, 0, 0)));
    r.push(SerialCMD::Servo(0));
    r.push(SerialCMD::HBridge((0, 0)));
    proof {
        assert(r@ =~= spec_neutral_commands());
    }
    r
}

/// The shutdown command: the neutral sequence wrapped in `Reset`, the last
/// thing sent before the link is closed.
pub fn reset_command() -> (r: SerialCMD)
    ensures
        r matches SerialCMD::Reset(cmds) && cmds@ == spec_neutral_commands(),
{
    SerialCMD::Reset(neutral_commands())
}

} // verus!
