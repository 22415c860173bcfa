//! Closed-loop control: the line-following state machine and the
//! distance-holding loop around the PID controller.
use vstd::prelude::*;
use crate::message::SerialCMD;
use crate::pid::{PID, PidState, spec_step};
use crate::telemetry::TrackData;

verus! {

/// Full-scale motor duty.
pub const FULL_DUTY: i64 = 0xffff;

/// Where the line is, as far as the two outer track sensors tell.
#[derive(Clone, Copy, Debug, PartialEq, Eq, Structural)]
pub enum LineState {
    OnLine,
    HalfLeft,
    HalfRight,
    Left,
    Right,
    Unknown,
}

/// The transition on the outer sensor bits `a` (left) and `c` (right). When
/// both lose the line, the robot keeps turning the way it was drifting.
pub open spec fn spec_next_line_state(prev: LineState, a: bool, c: bool) -> LineState {
    if !a && !c {
        LineState::OnLine
    } else if !a && c {
        LineState::HalfRight
    } else if a && !c {
        LineState::HalfLeft
    } else {
        match prev {
            LineState::OnLine => LineState::Unknown,
            LineState::HalfLeft => LineState::Left,
            LineState::HalfRight => LineState::Right,
            LineState::Left => LineState::Left,
            LineState::Right => LineState::Right,
            LineState::Unknown => LineState::Unknown,
        }
    }
}

pub fn next_line_state(prev: LineState, a: bool, c: bool) -> (r: LineState)
    ensures
        r == spec_next_line_state(prev, a, c),
{
    match (a, c) {
        (false, false) => LineState::OnLine,
        (false, true) => LineState::HalfRight,
        (true, false) => LineState::HalfLeft,
        (true, true) => match prev {
            LineState::OnLine => LineState::Unknown,
            LineState::HalfLeft => LineState::Left,
            LineState::HalfRight => LineState::Right,
            LineState::Left => LineState::Left,
            LineState::Right => LineState::Right,
            LineState::Unknown => LineState::Unknown,
        },
    }
}

/// Left and right duty of each state, in percent of full scale.
pub open spec fn spec_duty_percent(s: LineState) -> (int, int) {
    match s {
        LineState::OnLine => (90, 90),
        LineState::HalfLeft => (100, 75),
        LineState::HalfRight => (75, 100),
        LineState::Left => (100, -75),
        LineState::Right => (-75, 100),
        LineState::Unknown => (0, 0),
    }
}

pub fn duty_percent(s: LineState) -> (r: (i64, i64))
    ensures
        (r.0 as int, r.1 as int) == spec_duty_percent(s),
{
    match s {
        LineState::OnLine => (90, 90),
        LineState::HalfLeft => (100, 75),
        LineState::HalfRight => (75, 100),
        LineState::Left => (100, -75),
        LineState::Right => (-75, 100),
        LineState::Unknown => (0, 0),
    }
}

/// The indicator colour of each state.
pub open spec fn spec_state_color(s: LineState) -> (u8, u8, u8) {
    match s {
        LineState::OnLine => (0, 255, 0),
        LineState::HalfLeft => (128, 128, 0),
        LineState::HalfRight => (0, 128, 128),
        LineState::Left => (255, 0, 0),
        LineState::Right => (0, 0, 255),
        LineState::Unknown => (255, 255, 255),
    }
}

pub fn state_color(s: LineState) -> (r: (u8, u8, u8))
    ensures
        r == spec_state_color(s),
{
    match s {
        LineState::OnLine => (0, 255, 0),
        LineState::HalfLeft => (128, 128, 0),
        LineState::HalfRight => (0, 128, 128),
        LineState::Left => (255, 0, 0),
        LineState::Right => (0, 0, 255),
        LineState::Unknown => (255, 255, 255),
    }
}

/// `x / d` rounded toward zero.
pub open spec fn trunc_div(x: int, d: int) -> int {
    if x >= 0 {
        x / d
    } else {
        -((-x) / d)
    }
}

/// Duty for a fraction `pct` of full scale at speed `speed_pct` (both in percent).
pub open spec fn spec_scaled_duty(pct: int, speed_pct: int) -> int {
    trunc_div(FULL_DUTY * pct * speed_pct, 10000)
}

fn scaled_duty(pct: i64, speed_pct: i64) -> (r: i32)
    requires
        -100 <= pct <= 100,
        0 <= speed_pct <= 100,
    ensures
        r == spec_scaled_duty(pct as int, speed_pct as int),
{
    assert(-0xffff * 10000 <= FULL_DUTY * pct * speed_pct <= 0xffff * 10000) by (nonlinear_arith)
        requires
            -100 <= pct <= 100,
            0 <= speed_pct <= 100,
    ;
    let x: i64 = FULL_DUTY * pct * speed_pct;
    let q: i64 = if x >= 0 {
        x / 10000
    } else {
        -((-x) / 10000)
    };
    q as i32
}

/// The follower as the spec sees it: its state, its speed and the last motor
/// pair it emitted.
pub struct FollowerView {
    pub state: LineState,
    pub speed_pct: int,
    pub last: Option<(i32, i32)>,
}

/// One sensor update: the next state, and the commands to send. A motor
/// command with the state's colour goes out only when the motor pair changes.
pub open spec fn spec_follow(f: FollowerView, track: Seq<bool>) -> (FollowerView, Seq<SerialCMD>) {
    let s = spec_next_line_state(f.state, track[0], track[2]);
    let l = spec_scaled_duty(spec_duty_percent(s).0, f.speed_pct) as i32;
    let r = spec_scaled_duty(spec_duty_percent(s).1, f.speed_pct) as i32;
    if f.last == Some((l, r)) {
        (FollowerView { state: s, ..f }, Seq::empty())
    } else {
        (
            FollowerView { state: s, last: Some((l, r)), ..f },
            seq![SerialCMD::HBridge((l, r)), SerialCMD::LED(spec_state_color(s))],
        )
    }
}

/// The line-following controller. It reads the outer sensors `L1` and `R1`
/// only; the two inner ones are not used by this policy.
pub struct LineFollower {
    state: LineState,
    speed_pct: i64,
    last: Option<(i32, i32)>,
}

impl View for LineFollower {
    type V = FollowerView;

    closed spec fn view(&self) -> FollowerView {
        FollowerView { state: self.state, speed_pct: self.speed_pct as int, last: self.last }
    }
}

impl LineFollower {
    pub open spec fn wf(&self) -> bool {
        0 <= self@.speed_pct <= 100
    }

    /// A follower driving at `speed_pct` percent of full duty, starting lost.
    pub fn new(speed_pct: u8) -> (r: Self)
        requires
            speed_pct <= 100,
        ensures
            r.wf(),
            r@ == (FollowerView { state: LineState::Unknown, speed_pct: speed_pct as int, last: None }),
    {
        LineFollower { state: LineState::Unknown, speed_pct: speed_pct as i64, last: None }
    }

    pub fn state(&self) -> (r: LineState)
        ensures
            r == self@.state,
    {
        self.state
    }

    /// Takes a new track snapshot and returns the commands to send.
    pub fn step(&mut self, track: TrackData) -> (r: Vec<SerialCMD>)
        requires
            old(self).wf(),
        ensures
            final(self).wf(),
            (final(self)@, r@) == spec_follow(old(self)@, track@),
    {
        let s = next_line_state(self.state, track[0], track[2]);
        let (lp, rp) = duty_percent(s);
        let l = scaled_duty(lp, self.speed_pct);
        let r = scaled_duty(rp, self.speed_pct);
        self.state = s;
        let mut out: Vec<SerialCMD> = Vec::new();
        let same = match self.last {
            Some((pl, pr)) => pl == l && pr == r,
            None => false,
        };
        if !same {
            self.last = Some((l, r));
            out.push(SerialCMD::HBridge((l, r)));
            out.push(SerialCMD::LED(state_color(s)));
            proof {
                assert(out@ =~= seq![SerialCMD::HBridge((l, r)), SerialCMD::LED(spec_state_color(s))]);
            }
        } else {
            proof {
                assert(out@ =~= Seq::<SerialCMD>::empty());
            }
        }
        out
    }
}

/// Once a sensor sees the line drift left and then both lose it, the
/// follower is committed to turning left, whatever state it started in.
pub proof fn lemma_lost_after_half_left(s: LineState)
    ensures
        spec_next_line_state(spec_next_line_state(spec_next_line_state(s, false, false), true, false), true, true)
            == LineState::Left,
        spec_next_line_state(spec_next_line_state(s, true, false), true, true) == LineState::Left,
{
}

/// A committed turn stays committed while both sensors see no line.
pub proof fn lemma_turn_is_sticky(s: LineState)
    requires
        s == LineState::Left || s == LineState::Right || s == LineState::Unknown,
    ensures
        spec_next_line_state(s, true, true) == s,
{
}

/// Drive added to any non-zero command so that small errors still overcome
/// the motors' static friction.
pub const MIN_DRIVE: i128 = 20000;

/// The largest drive the distance holder uses: 80% of full duty.
pub const MAX_DRIVE: i128 = 52428;

/// The motor drive for a PID output: negated (move away from the obstacle),
/// offset by the minimum drive and capped, keeping the sign.
pub open spec fn spec_drive(out: int) -> int {
    let s = -out;
    if s == 0 {
        0
    } else if s > 0 {
        if s + MIN_DRIVE < MAX_DRIVE { s + MIN_DRIVE } else { MAX_DRIVE as int }
    } else {
        if -s + MIN_DRIVE < MAX_DRIVE { s - MIN_DRIVE } else { -MAX_DRIVE }
    }
}

pub fn distance_drive(out: i128) -> (r: i32)
    requires
        out > i128::MIN + MAX_DRIVE,
        out < i128::MAX - MAX_DRIVE,
    ensures
        r == spec_drive(out as int),
{
    let s: i128 = -out;
    if s == 0 {
        0
    } else if s > 0 {
        if s + MIN_DRIVE < MAX_DRIVE { (s + MIN_DRIVE) as i32 } else { MAX_DRIVE as i32 }
    } else {
        if -s + MIN_DRIVE < MAX_DRIVE { (s - MIN_DRIVE) as i32 } else { -MAX_DRIVE as i32 }
    }
}

/// Holds the robot at a set distance from the obstacle ahead.
pub struct DistanceKeeper {
    pid: PID,
    sp: u16,
}

impl DistanceKeeper {
    pub closed spec fn pid_state(&self) -> PidState {
        self.pid@
    }

    pub closed spec fn setpoint(&self) -> u16 {
        self.sp
    }

    pub closed spec fn wf(&self) -> bool {
        self.pid.wf()
    }

    /// A keeper for `sp` cm with the gains the chassis is tuned for.
    pub fn new(sp: u16) -> (r: Self)
        ensures
            r.wf(),
            r.setpoint() == sp,
            r.pid_state() == (PidState {
                kp: 500,
                ki: 100,
                kd: 1,
                integral: 0,
                int_min: -5,
                int_max: 5,
                last_t: None,
                last_e: 0,
                sp: sp as int,
            }),
    {
        DistanceKeeper { pid: PID::new(500, 100, 1, -5, 5, sp as i32), sp }
    }

    /// One control step on the current distance reading; with no reading the
    /// robot is taken to be at the setpoint. Returns the motor command.
    pub fn step(&mut self, reading: Option<u16>, now_ms: u64) -> (r: SerialCMD)
        requires
            old(self).wf(),
            old(self).pid_state().last_t matches Some(t) ==> t <= now_ms,
        ensures
            final(self).wf(),
            final(self).setpoint() == old(self).setpoint(),
            ({
                let pv = match reading {
                    Some(d) => d,
                    None => old(self).setpoint(),
                };
                let (next, out) = spec_step(old(self).pid_state(), pv as int, now_ms);
                &&& final(self).pid_state() == next
                &&& r == SerialCMD::HBridge((spec_drive(out) as i32, spec_drive(out) as i32))
            }),
    {
        let pv = match reading {
            Some(d) => d,
            None => self.sp,
        };
        let out = self.pid.step(pv as i32, now_ms);
        let speed = distance_drive(out);
        SerialCMD::HBridge((speed, speed))
    }
}

} // verus!
