//! The microcontroller's side: how commands become peripheral settings and
//! how sensor readings become telemetry. Peripherals are modelled by the
//! values written to them (PWM configuration, pin levels).
use vstd::prelude::*;
use crate::distance::{DistanceEstimate, last_n, mean_of, WINDOW};
use crate::message::{SerialCMD, SerialData, TrackSensorID};

verus! {

/// Full-scale duty.
pub const DUTY_MAX: u32 = 0xffff;

/// The settings of one PWM slice.
#[derive(Clone, Copy, Debug, PartialEq, Eq, Structural)]
pub struct PwmConfig {
    pub divider: u8,
    pub top: u16,
    pub compare_a: u16,
    pub compare_b: u16,
}

/// Divider and wrap value for `freq` Hz from a `clock` Hz system clock.
pub open spec fn spec_divider(clock: int, freq: int) -> int {
    let d = clock / (65534 * freq) + 1;
    if d < 255 { d } else { 255 }
}

pub open spec fn spec_top(clock: int, freq: int) -> int {
    let q = clock / (freq * spec_divider(clock, freq));
    let t = if q == 0 { 0 } else { q - 1 };
    if t < 0xffff { t } else { 0xffff }
}

/// Compare value for a duty of `duty / 0xffff`.
pub open spec fn spec_compare(top: int, duty: int) -> int {
    top * duty / 0xffff
}

/// One PWM slice with its configuration and the system clock it runs from.
pub struct PWM {
    pub config: PwmConfig,
    pub clock_hz: u32,
}

/// A slice with the default configuration: full range, no division, no output.
pub open spec fn default_pwm(clock_hz: u32) -> PWM {
    PWM { config: PwmConfig { divider: 1, top: 0xffff, compare_a: 0, compare_b: 0 }, clock_hz }
}

/// The slice after a frequency change; below 9 Hz nothing changes.
pub open spec fn pwm_with_freq(p: PWM, freq: u16) -> PWM {
    if freq < 9 {
        p
    } else {
        PWM {
            config: PwmConfig {
                divider: spec_divider(p.clock_hz as int, freq as int) as u8,
                top: spec_top(p.clock_hz as int, freq as int) as u16,
                ..p.config
            },
            ..p
        }
    }
}

/// The slice after setting the duty of channel A.
pub open spec fn pwm_with_duty_a(p: PWM, duty: int) -> PWM {
    PWM { config: PwmConfig { compare_a: spec_compare(p.config.top as int, duty) as u16, ..p.config }, ..p }
}

/// The slice after setting the duty of channel B.
pub open spec fn pwm_with_duty_b(p: PWM, duty: int) -> PWM {
    PWM { config: PwmConfig { compare_b: spec_compare(p.config.top as int, duty) as u16, ..p.config }, ..p }
}

impl PWM {
    pub open spec fn clock(&self) -> u32 {
        self.clock_hz
    }

    pub fn new(clock_hz: u32) -> (r: Self)
        ensures
            r == default_pwm(clock_hz),
    {
        PWM { config: PwmConfig { divider: 1, top: 0xffff, compare_a: 0, compare_b: 0 }, clock_hz }
    }

    /// Sets the frequency; the hardware cannot go below 9 Hz, so lower values are ignored.
    pub fn set_freq(&mut self, freq: u16)
        ensures
            *final(self) == pwm_with_freq(*old(self), freq),
    {
        if freq < 9 {
            return;
        }
        let clock = self.clock_hz;
        let d: u64 = clock as u64 / (65534u64 * freq as u64) + 1;
        let div: u32 = if d < 255 { d as u32 } else { 255 };
        assert(0 < freq as u32 * div <= 65535 * 255) by (nonlinear_arith)
            requires
                9 <= freq <= 65535,
                1 <= div <= 255,
        ;
        let q: u32 = clock / (freq as u32 * div);
        let t: u32 = if q == 0 { 0 } else { q - 1 };
        let top: u32 = if t < 0xffff { t } else { 0xffff };
        self.config.divider = div as u8;
        self.config.top = top as u16;
    }

    /// Duty of channel A, from 0 to 0xffff.
    pub fn set_duty_a(&mut self, duty: u16)
        ensures
            *final(self) == pwm_with_duty_a(*old(self), duty as int),
    {
        self.config.compare_a = compare(self.config.top, duty);
    }

    /// Duty of channel B, from 0 to 0xffff.
    pub fn set_duty_b(&mut self, duty: u16)
        ensures
            *final(self) == pwm_with_duty_b(*old(self), duty as int),
    {
        self.config.compare_b = compare(self.config.top, duty);
    }
}

fn compare(top: u16, duty: u16) -> (r: u16)
    ensures
        r == spec_compare(top as int, duty as int),
{
    assert(top as u32 * duty as u32 <= 0xffff * 0xffff) by (nonlinear_arith)
        requires
            top <= 0xffff,
            duty <= 0xffff,
    ;
    let x: u32 = top as u32 * duty as u32;
    assert(x / 0xffff <= 0xffff) by {
        vstd::arithmetic::div_mod::lemma_div_is_ordered(x as int, 0xffff * 0xffffint, 0xffff);
        vstd::arithmetic::div_mod::lemma_div_multiples_vanish(0xffff, 0xffff);
    }
    (x / DUTY_MAX) as u16
}

/// Full duty gives the whole range, no duty gives nothing.
proof fn lemma_compare_ends(top: int)
    ensures
        spec_compare(top, 0xffff) == top,
        spec_compare(top, 0) == 0,
{
    vstd::arithmetic::div_mod::lemma_div_multiples_vanish(top, 0xffff);
    assert(top * 0xffff == 0xffff * top) by (nonlinear_arith);
}

/// A compare value always fits the slice's 16-bit counter.
proof fn lemma_compare_fits(top: int, duty: int)
    requires
        0 <= top <= 0xffff,
        0 <= duty <= 0xffff,
    ensures
        0 <= spec_compare(top, duty) <= 0xffff,
{
    assert(0 <= top * duty <= 0xffff * 0xffff) by (nonlinear_arith)
        requires
            0 <= top <= 0xffff,
            0 <= duty <= 0xffff,
    ;
    vstd::arithmetic::div_mod::lemma_div_is_ordered(top * duty, 0xffff * 0xffffint, 0xffff);
    vstd::arithmetic::div_mod::lemma_div_is_ordered(0, top * duty, 0xffff);
    vstd::arithmetic::div_mod::lemma_div_multiples_vanish(0xffff, 0xffff);
}

/// A buzzer on channel A of its slice.
pub struct Buzzer {
    pub pwm: PWM,
}

/// The buzzer after `freq`: half duty at `freq` Hz, or no duty for 0.
pub open spec fn spec_buzzer_freq(b: Buzzer, freq: u16) -> Buzzer {
    if freq > 0 {
        Buzzer { pwm: pwm_with_freq(pwm_with_duty_a(b.pwm, 0x7fff), freq) }
    } else {
        Buzzer { pwm: pwm_with_duty_a(b.pwm, 0) }
    }
}

impl Buzzer {
    /// A silent buzzer.
    pub fn new(clock_hz: u32) -> (r: Self)
        ensures
            r == (Buzzer { pwm: default_pwm(clock_hz) }),
    {
        Buzzer { pwm: PWM::new(clock_hz) }
    }

    /// Sounds at `freq` Hz with a half duty; 0 silences it.
    pub fn freq(&mut self, freq: u16)
        ensures
            *final(self) == spec_buzzer_freq(*old(self), freq),
    {
        if freq > 0 {
            self.pwm.set_duty_a(0x7fff);
            self.pwm.set_freq(freq);
        } else {
            self.pwm.set_duty_a(0);
        }
    }
}

/// Duty for a colour channel of a common-anode LED: full duty is dark.
pub open spec fn spec_led_duty(c: int) -> int {
    0xffff - c * 257
}

/// A common-anode RGB LED: red and green on one slice, blue on channel A of another.
pub struct RGBLed {
    pub rg_pwm: PWM,
    pub b_pwm: PWM,
}

/// The LED after `set_color(r, g, b)`.
pub open spec fn spec_led_color(l: RGBLed, r: u8, g: u8, b: u8) -> RGBLed {
    RGBLed {
        rg_pwm: pwm_with_duty_b(pwm_with_duty_a(l.rg_pwm, spec_led_duty(r as int)), spec_led_duty(g as int)),
        b_pwm: pwm_with_duty_a(l.b_pwm, spec_led_duty(b as int)),
    }
}

impl RGBLed {
    /// An LED whose slices run at `pwm_freq` Hz, dark.
    pub fn new(clock_hz: u32, pwm_freq: u16) -> (r: Self)
        ensures
            r == spec_led_color(
                RGBLed {
                    rg_pwm: pwm_with_freq(default_pwm(clock_hz), pwm_freq),
                    b_pwm: pwm_with_freq(default_pwm(clock_hz), pwm_freq),
                },
                0,
                0,
                0,
            ),
    {
        let mut s = RGBLed { rg_pwm: PWM::new(clock_hz), b_pwm: PWM::new(clock_hz) };
        s.rg_pwm.set_freq(pwm_freq);
        s.b_pwm.set_freq(pwm_freq);
        s.set_color(0, 0, 0);
        s
    }

    /// Sets each channel's intensity, 0 to 255.
    pub fn set_color(&mut self, r: u8, g: u8, b: u8)
        ensures
            *final(self) == spec_led_color(*old(self), r, g, b),
    {
        let rd: u16 = r as u16 * 257;
        let gd: u16 = g as u16 * 257;
        let bd: u16 = b as u16 * 257;
        self.rg_pwm.set_duty_a(0xffff - rd);
        self.rg_pwm.set_duty_b(0xffff - gd);
        self.b_pwm.set_duty_a(0xffff - bd);
    }
}

/// Servo pulse duty for a position `d` from 0 (one end) to 0xffff (the
/// other), interpolating between the calibrated `min`, `mid` and `max`, and
/// never beyond `max`.
pub open spec fn spec_servo_duty(min: int, mid: int, max: int, d: int) -> int {
    let raw = if d < 0x7fff {
        min + (mid - min) * d / 0xffff * 2
    } else {
        mid + (max - mid) * (d - 0x7fff) / 0xffff * 2
    };
    if raw > max { max } else { raw }
}

/// Position for an angle in degrees, clamped to -90..90.
pub open spec fn spec_servo_position(deg: int) -> int {
    let a = if deg < -90 { -90 } else if deg > 90 { 90 } else { deg };
    (a + 90) * 0xffff / 180
}

/// A hobby servo on channel A of its slice, with calibrated pulse widths.
pub struct Servo {
    pub pwm: PWM,
    pub min: u16,
    pub mid: u16,
    pub max: u16,
}

/// The servo after `deg(d)`.
pub open spec fn spec_servo_deg(s: Servo, d: i8) -> Servo {
    Servo {
        pwm: pwm_with_duty_a(
            s.pwm,
            spec_servo_duty(s.min as int, s.mid as int, s.max as int, spec_servo_position(d as int)),
        ),
        ..s
    }
}

impl Servo {
    pub open spec fn calibration(&self) -> (u16, u16, u16) {
        (self.min, self.mid, self.max)
    }

    pub open spec fn wf(&self) -> bool {
        self.min <= self.mid <= self.max
    }

    /// A servo at 50 Hz, centred.
    pub fn new(clock_hz: u32, min: u16, mid: u16, max: u16) -> (r: Self)
        requires
            min <= mid <= max,
        ensures
            r.wf(),
            r == spec_servo_deg(Servo { pwm: pwm_with_freq(default_pwm(clock_hz), 50), min, mid, max }, 0),
    {
        let mut pwm = PWM::new(clock_hz);
        pwm.set_freq(50);
        let mut s = Servo { pwm, min, mid, max };
        s.deg(0);
        s
    }

    fn duty(&mut self, d: u16)
        requires
            old(self).wf(),
        ensures
            *final(self) == (Servo {
                pwm: pwm_with_duty_a(
                    old(self).pwm,
                    spec_servo_duty(old(self).min as int, old(self).mid as int, old(self).max as int, d as int),
                ),
                ..*old(self)
            }),
    {
        let d = d as u32;
        let raw: u32 = if d < 0x7fff {
            let span = (self.mid - self.min) as u32;
            assert(span * d / 0xffff * 2 <= span) by {
                assert(span * d <= span * 0x7ffe) by (nonlinear_arith)
                    requires d <= 0x7ffe;
                vstd::arithmetic::div_mod::lemma_div_is_ordered(span * d, span * 0x7ffe, 0xffff);
                assert(span * 0x7ffe / 0xffff * 2 <= span) by {
                    vstd::arithmetic::div_mod::lemma_fundamental_div_mod(span * 0x7ffe, 0xffff);
                    assert((span * 0x7ffe) / 0xffff * 2 <= span) by (nonlinear_arith)
                        requires
                            span * 0x7ffe == 0xffff * ((span * 0x7ffe) / 0xffff) + (span * 0x7ffe) % 0xffff,
                            0 <= (span * 0x7ffe) % 0xffff,
                            span >= 0;
                }
            }
            self.min as u32 + span * d / 0xffff * 2
        } else {
            let span = (self.max - self.mid) as u32;
            let e = d - 0x7fff;
            assert(span * e / 0xffff * 2 <= span + 1) by {
                assert(span * e <= span * 0x8000) by (nonlinear_arith)
                    requires e <= 0x8000;
                vstd::arithmetic::div_mod::lemma_div_is_ordered(span * e, span * 0x8000, 0xffff);
                vstd::arithmetic::div_mod::lemma_fundamental_div_mod(span * 0x8000, 0xffff);
                assert((span * 0x8000) / 0xffff * 2 <= span + 1) by (nonlinear_arith)
                    requires
                        span * 0x8000 == 0xffff * ((span * 0x8000) / 0xffff) + (span * 0x8000) % 0xffff,
                        0 <= (span * 0x8000) % 0xffff,
                        span >= 0,
                        span <= 0xffff;
            }
            self.mid as u32 + span * e / 0xffff * 2
        };
        let duty: u32 = if raw > self.max as u32 { self.max as u32 } else { raw };
        self.pwm.set_duty_a(duty as u16);
    }

    /// Turns to `d` degrees, -90 to 90 (values outside are clamped), 0 is the centre.
    pub fn deg(&mut self, d: i8)
        requires
            old(self).wf(),
        ensures
            *final(self) == spec_servo_deg(*old(self), d),
    {
        let a: i32 = if d < -90 { -90 } else if d > 90 { 90 } else { d as i32 };
        let pos: u32 = (a + 90) as u32 * 0xffff / 180;
        self.duty(pos as u16);
    }
}

/// The duty and direction pins of one motor for a speed clamped to ±0xffff.
pub open spec fn spec_motor(speed: int) -> (int, bool, bool) {
    let s = if speed < -0xffff { -0xffff } else if speed > 0xffff { 0xffff } else { speed };
    (if s < 0 { -s } else { s }, s > 0, s < 0)
}

/// Two DC motors behind an H-bridge: one PWM slice (B left, A right) and two
/// direction pins per motor.
pub struct HBridge {
    pub pwm: PWM,
    pub l1: bool,
    pub l2: bool,
    pub r1: bool,
    pub r2: bool,
}

/// The bridge after `drive(l, r)`.
pub open spec fn spec_hb_drive(h: HBridge, l: i32, r: i32) -> HBridge {
    HBridge {
        pwm: pwm_with_duty_a(pwm_with_duty_b(h.pwm, spec_motor(l as int).0), spec_motor(r as int).0),
        l1: spec_motor(l as int).1,
        l2: spec_motor(l as int).2,
        r1: spec_motor(r as int).1,
        r2: spec_motor(r as int).2,
    }
}

impl HBridge {
    /// A stopped bridge whose slice runs at `pwm_freq` Hz.
    pub fn new(clock_hz: u32, pwm_freq: u16) -> (r: Self)
        ensures
            r == (HBridge {
                pwm: pwm_with_freq(default_pwm(clock_hz), pwm_freq),
                l1: false,
                l2: false,
                r1: false,
                r2: false,
            }),
    {
        let mut s = HBridge { pwm: PWM::new(clock_hz), l1: false, l2: false, r1: false, r2: false };
        s.pwm.set_freq(pwm_freq);
        s
    }

    /// Drives both motors; the sign is the direction, speeds are clamped to ±0xffff.
    pub fn drive(&mut self, l: i32, r: i32)
        ensures
            *final(self) == spec_hb_drive(*old(self), l, r),
    {
        let l: i32 = if l < -0xffff { -0xffff } else if l > 0xffff { 0xffff } else { l };
        let r: i32 = if r < -0xffff { -0xffff } else if r > 0xffff { 0xffff } else { r };
        let la: u16 = if l < 0 { (-l) as u16 } else { l as u16 };
        let ra: u16 = if r < 0 { (-r) as u16 } else { r as u16 };
        self.pwm.set_duty_b(la);
        self.pwm.set_duty_a(ra);
        self.l1 = l > 0;
        self.l2 = l < 0;
        self.r1 = r > 0;
        self.r2 = r < 0;
    }
}

/// All actuators of the robot.
pub struct Hardware {
    pub buzzer: Buzzer,
    pub led: RGBLed,
    pub servo: Servo,
    pub hb: HBridge,
}

/// The actuators after one command. `Reset` silences the buzzer, darkens the
/// LED, centres the servo and stops the motors, in that order.
pub open spec fn spec_apply(hw: Hardware, cmd: SerialCMD) -> Hardware {
    match cmd {
        SerialCMD::Buzzer(f) => Hardware { buzzer: spec_buzzer_freq(hw.buzzer, f), ..hw },
        SerialCMD::LED((r, g, b)) => Hardware { led: spec_led_color(hw.led, r, g, b), ..hw },
        SerialCMD::Servo(d) => Hardware { servo: spec_servo_deg(hw.servo, d), ..hw },
        SerialCMD::HBridge((l, r)) => Hardware { hb: spec_hb_drive(hw.hb, l, r), ..hw },
        SerialCMD::Reset(_) => Hardware {
            buzzer: spec_buzzer_freq(hw.buzzer, 0),
            led: spec_led_color(hw.led, 0, 0, 0),
            servo: spec_servo_deg(hw.servo, 0),
            hb: spec_hb_drive(hw.hb, 0, 0),
        },
    }
}

/// Every actuator inert: buzzer without duty, LED dark, servo at its
/// calibrated centre, motors without duty and with all direction pins low.
pub open spec fn is_neutral(hw: Hardware) -> bool {
    &&& hw.buzzer.pwm.config.compare_a == 0
    &&& hw.led.rg_pwm.config.compare_a == hw.led.rg_pwm.config.top
    &&& hw.led.rg_pwm.config.compare_b == hw.led.rg_pwm.config.top
    &&& hw.led.b_pwm.config.compare_a == hw.led.b_pwm.config.top
    &&& hw.servo.pwm.config.compare_a == spec_compare(hw.servo.pwm.config.top as int, hw.servo.mid as int)
    &&& hw.hb.pwm.config.compare_a == 0
    &&& hw.hb.pwm.config.compare_b == 0
    &&& !hw.hb.l1 && !hw.hb.l2 && !hw.hb.r1 && !hw.hb.r2
}

/// Whatever state the actuators are in, `Reset` leaves them all neutral.
pub proof fn lemma_reset_is_neutral(hw: Hardware, cmd: SerialCMD)
    requires
        hw.servo.wf(),
        cmd is Reset,
    ensures
        is_neutral(spec_apply(hw, cmd)),
{
    lemma_compare_ends(hw.buzzer.pwm.config.top as int);
    lemma_compare_ends(hw.led.rg_pwm.config.top as int);
    lemma_compare_ends(hw.led.b_pwm.config.top as int);
    lemma_compare_ends(hw.hb.pwm.config.top as int);
    assert(spec_servo_position(0) == 0x7fff);
    assert(spec_led_duty(0) == 0xffff);
    assert(spec_servo_duty(hw.servo.min as int, hw.servo.mid as int, hw.servo.max as int, 0x7fff)
        == hw.servo.mid);
    assert(spec_motor(0) == (0int, false, false));
    lemma_compare_fits(hw.servo.pwm.config.top as int, hw.servo.mid as int);
}

impl Hardware {
    pub open spec fn wf(&self) -> bool {
        self.servo.wf()
    }

    /// The robot's actuators with their calibration, all neutral.
    pub fn new(clock_hz: u32) -> (r: Self)
        ensures
            r.wf(),
            is_neutral(r),
            r.buzzer == (Buzzer { pwm: default_pwm(clock_hz) }),
            r.servo.calibration() == (2100u16, 4800u16, 8300u16),
    {
        let r = Hardware {
            buzzer: Buzzer::new(clock_hz),
            led: RGBLed::new(clock_hz, 2000),
            servo: Servo::new(clock_hz, 2100, 4800, 8300),
            hb: HBridge::new(clock_hz, 2000),
        };
        proof {
            lemma_compare_ends(r.led.rg_pwm.config.top as int);
            lemma_compare_ends(r.led.b_pwm.config.top as int);
            assert(spec_servo_position(0) == 0x7fff);
            assert(spec_led_duty(0) == 0xffff);
            assert(spec_servo_duty(2100, 4800, 8300, 0x7fff) == 4800);
            lemma_compare_fits(r.servo.pwm.config.top as int, 4800);
        }
        r
    }

    /// Applies one command to the actuators it addresses, leaving the others as they are.
    pub fn apply(&mut self, cmd: &SerialCMD)
        requires
            old(self).wf(),
        ensures
            final(self).wf(),
            *final(self) == spec_apply(*old(self), *cmd),
            cmd is Reset ==> is_neutral(*final(self)),
    {
        match cmd {
            SerialCMD::Buzzer(freq) => self.buzzer.freq(*freq),
            SerialCMD::LED((r, g, b)) => self.led.set_color(*r, *g, *b),
            SerialCMD::Servo(deg) => self.servo.deg(*deg),
            SerialCMD::HBridge((l, r)) => self.hb.drive(*l, *r),
            SerialCMD::Reset(_) => {
                self.buzzer.freq(0);
                self.led.set_color(0, 0, 0);
                self.servo.deg(0);
                self.hb.drive(0, 0);
                proof {
                    lemma_reset_is_neutral(*old(self), *cmd);
                }
            },
        }
    }
}

/// Shortest distance the ranging sensor measures, in cm.
pub const MIN_DIST: u64 = 2;

/// Longest distance the ranging sensor measures, in cm.
pub const MAX_DIST: u64 = 400;

/// Distance in cm for an echo of `us` microseconds: sound travels 343 m/s, there and back.
pub open spec fn spec_echo_cm(us: int) -> int {
    us * 343 / 10000 / 2
}

/// The ultrasonic rangefinder's accepted samples.
pub struct UltraSensor {
    data: DistanceEstimate,
}

impl UltraSensor {
    pub closed spec fn samples(&self) -> Seq<u16> {
        self.data.samples()
    }

    pub closed spec fn wf(&self) -> bool {
        self.data.wf()
    }

    pub fn new() -> (r: Self)
        ensures
            r.wf(),
            r.samples() == Seq::<u16>::empty(),
    {
        UltraSensor { data: DistanceEstimate::new() }
    }

    /// Accepts a sample, evicting the oldest once the window is full.
    pub fn push_data(&mut self, d: u16)
        requires
            old(self).wf(),
        ensures
            final(self).wf(),
            final(self).samples() == last_n(old(self).samples().push(d), WINDOW as nat),
    {
        self.data.push(d);
    }

    /// The mean of the accepted samples, none before the first.
    pub fn get_dist(&self) -> (r: Option<u16>)
        requires
            self.wf(),
        ensures
            r == mean_of(self.samples()),
    {
        self.data.mean()
    }

    /// One ranging round: the echo's length in microseconds, or none if the
    /// round timed out. A distance within the sensor's range is accepted and
    /// the new mean is reported; anything else reports no distance.
    pub fn measure(&mut self, echo_us: Option<u64>) -> (r: SerialData)
        requires
            old(self).wf(),
        ensures
            final(self).wf(),
            match echo_us {
                Some(us) if MIN_DIST <= spec_echo_cm(us as int) <= MAX_DIST => {
                    &&& final(self).samples() == last_n(
                        old(self).samples().push(spec_echo_cm(us as int) as u16),
                        WINDOW as nat,
                    )
                    &&& r == SerialData::UltraSensor(mean_of(final(self).samples()))
                },
                _ => final(self).samples() == old(self).samples() && r == SerialData::UltraSensor(None),
            },
    {
        match echo_us {
            Some(us) => {
                let cm: u64 = (us as u128 * 343 / 10000 / 2) as u64;
                assert(cm == spec_echo_cm(us as int)) by {
                    assert(us as u128 * 343 / 10000 / 2 <= u64::MAX) by {
                        vstd::arithmetic::div_mod::lemma_div_is_ordered(us * 343, u64::MAX * 343int, 10000);
                    }
                }
                if MIN_DIST <= cm && cm <= MAX_DIST {
                    self.data.push(cm as u16);
                    SerialData::UltraSensor(self.data.mean())
                } else {
                    SerialData::UltraSensor(None)
                }
            },
            None => SerialData::UltraSensor(None),
        }
    }
}

/// One track sensor and the level it last reported.
pub struct TrackSensor {
    pub id: TrackSensorID,
    pub state: bool,
}

impl TrackSensor {
    pub fn new(id: TrackSensorID, level: bool) -> (r: Self)
        ensures
            r.id == id,
            r.state == level,
    {
        TrackSensor { id, state: level }
    }

    /// An edge on the sensor's pin: the level flips and the event is reported.
    pub fn edge(&mut self) -> (r: SerialData)
        ensures
            final(self).id == old(self).id,
            final(self).state == !old(self).state,
            r == SerialData::TrackSensor((old(self).id, !old(self).state)),
    {
        self.state = !self.state;
        SerialData::TrackSensor((self.id, self.state))
    }
}

} // verus!
