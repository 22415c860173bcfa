//! A PID controller in integer arithmetic. Time is measured in milliseconds,
//! the gains and the integral bounds are per second.
use vstd::prelude::*;

verus! {

/// Milliseconds in a second.
pub const MS_PER_S: i128 = 1000;

/// No output of a well-formed controller exceeds this in magnitude.
pub const OUTPUT_BOUND: i128 = 0x1_0000_0000_0000_0000_0000;

pub open spec fn clamp(x: int, lo: int, hi: int) -> int {
    if x < lo {
        lo
    } else if x > hi {
        hi
    } else {
        x
    }
}

/// The controller's state as mathematical integers.
pub struct PidState {
    pub kp: int,
    pub ki: int,
    pub kd: int,
    /// Accumulated error times elapsed milliseconds.
    pub integral: int,
    pub int_min: int,
    pub int_max: int,
    /// Time of the previous step, none before the first one.
    pub last_t: Option<u64>,
    pub last_e: int,
    pub sp: int,
}

/// One step on measurement `pv` at time `now`: the next state and the output.
/// The first step has no time reference and is proportional only, but it
/// records its error and time; later steps add the clamped integral and the
/// derivative of the error since the previous step (none when no time has passed).
pub open spec fn spec_step(s: PidState, pv: int, now: u64) -> (PidState, int) {
    let e = s.sp - pv;
    match s.last_t {
        None => (PidState { last_t: Some(now), last_e: e, ..s }, s.kp * e),
        Some(t) => {
            let dt = now - t;
            let integral = clamp(s.integral + e * dt, s.int_min * (MS_PER_S as int), s.int_max * (MS_PER_S as int));
            let d = if dt == 0 {
                0
            } else {
                (s.kd * (e - s.last_e) * (MS_PER_S as int)) / dt
            };
            (
                PidState { integral, last_t: Some(now), last_e: e, ..s },
                s.kp * e + (s.ki * integral) / (MS_PER_S as int) + d,
            )
        },
    }
}

/// `n / d` rounded down, for a positive `d`.
fn floor_div(n: i128, d: i128) -> (r: i128)
    requires
        d > 0,
        n > i128::MIN,
    ensures
        r == n / d,
{
    if n >= 0 {
        n / d
    } else {
        let q = (-n - 1) / d;
        proof {
            let m = -n - 1;
            vstd::arithmetic::div_mod::lemma_fundamental_div_mod(m as int, d as int);
            let rem = m % (d as int);
            assert(n == (-q - 1) * d + (d - rem - 1)) by (nonlinear_arith)
                requires
                    m == d * q + rem,
                    m == -n - 1,
            ;
            vstd::arithmetic::div_mod::lemma_fundamental_div_mod_converse(
                n as int,
                d as int,
                -q - 1,
                d - rem - 1,
            );
        }
        -q - 1
    }
}

/// Dividing by a positive number keeps a value within the same symmetric bound.
proof fn lemma_div_within(n: int, d: int, b: int)
    requires
        d >= 1,
        -b <= n <= b,
    ensures
        -b <= n / d <= b,
{
    vstd::arithmetic::div_mod::lemma_fundamental_div_mod(n, d);
    let q = n / d;
    let r = n % d;
    assert(-b <= q <= b) by (nonlinear_arith)
        requires
            n == d * q + r,
            0 <= r < d,
            d >= 1,
            -b <= n <= b,
    ;
}

pub struct PID {
    kp: i32,
    ki: i32,
    kd: i32,
    integral: i64,
    int_min: i32,
    int_max: i32,
    last_t: Option<u64>,
    last_e: i64,
    sp: i32,
}

impl View for PID {
    type V = PidState;

    closed spec fn view(&self) -> PidState {
        PidState {
            kp: self.kp as int,
            ki: self.ki as int,
            kd: self.kd as int,
            integral: self.integral as int,
            int_min: self.int_min as int,
            int_max: self.int_max as int,
            last_t: self.last_t,
            last_e: self.last_e as int,
            sp: self.sp as int,
        }
    }
}

impl PID {
    pub open spec fn wf(&self) -> bool {
        &&& self@.int_min <= self@.int_max
        &&& -0x8000_0000 * (MS_PER_S as int) <= self@.integral <= 0x8000_0000 * (MS_PER_S as int)
        &&& i32::MIN <= self@.int_min && self@.int_max <= i32::MAX
        &&& i32::MIN <= self@.kp <= i32::MAX
        &&& i32::MIN <= self@.ki <= i32::MAX
        &&& i32::MIN <= self@.kd <= i32::MAX
        &&& i32::MIN <= self@.sp <= i32::MAX
        &&& -0x1_0000_0000 <= self@.last_e <= 0x1_0000_0000
    }

    /// A controller with gains `kp`, `ki`, `kd`, integral bounds in error
    /// seconds and setpoint `sp`, before its first step.
    pub fn new(kp: i32, ki: i32, kd: i32, int_min: i32, int_max: i32, sp: i32) -> (r: Self)
        requires
            int_min <= int_max,
        ensures
            r.wf(),
            r@ == (PidState {
                kp: kp as int,
                ki: ki as int,
                kd: kd as int,
                integral: 0,
                int_min: int_min as int,
                int_max: int_max as int,
                last_t: None,
                last_e: 0,
                sp: sp as int,
            }),
    {
        PID { kp, ki, kd, integral: 0, int_min, int_max, last_t: None, last_e: 0, sp }
    }

    /// Feeds the measurement `pv` taken at `now_ms` and returns the control output.
    pub fn step(&mut self, pv: i32, now_ms: u64) -> (r: i128)
        requires
            old(self).wf(),
            old(self)@.last_t matches Some(t) ==> t <= now_ms,
        ensures
            final(self).wf(),
            (final(self)@, r as int) == spec_step(old(self)@, pv as int, now_ms),
            -OUTPUT_BOUND <= r <= OUTPUT_BOUND,
    {
        let e: i64 = self.sp as i64 - pv as i64;
        assert(-0x8000_0000 * 0x1_0000_0000 <= self.kp * e <= 0x8000_0000 * 0x1_0000_0000)
            by (nonlinear_arith)
            requires
                -0x8000_0000 <= self.kp <= 0x8000_0000,
                -0x1_0000_0000 <= e <= 0x1_0000_0000,
        ;
        match self.last_t {
            None => {
                self.last_t = Some(now_ms);
                self.last_e = e;
                self.kp as i128 * e as i128
            },
            Some(t) => {
                let dt: u64 = now_ms - t;
                let lo: i128 = self.int_min as i128 * MS_PER_S;
                let hi: i128 = self.int_max as i128 * MS_PER_S;
                assert(-0x1_0000_0000 <= e <= 0x1_0000_0000);
                assert(0 <= dt <= u64::MAX);
                assert(-0x1_0000_0000 * 0x1_0000_0000_0000_0000 <= e * dt
                    <= 0x1_0000_0000 * 0x1_0000_0000_0000_0000) by (nonlinear_arith)
                    requires
                        -0x1_0000_0000 <= e <= 0x1_0000_0000,
                        0 <= dt <= 0xffff_ffff_ffff_ffff,
                ;
                let acc: i128 = self.integral as i128 + e as i128 * dt as i128;
                let integral: i128 = if acc < lo {
                    lo
                } else if acc > hi {
                    hi
                } else {
                    acc
                };
                let de: i128 = e as i128 - self.last_e as i128;
                assert(-0x8000_0000 * 0x2_0000_0001 * 1000 <= self.kd * de * 1000
                    <= 0x8000_0000 * 0x2_0000_0001 * 1000) by (nonlinear_arith)
                    requires
                        -0x8000_0000 <= self.kd <= 0x8000_0000,
                        -0x2_0000_0001 <= de <= 0x2_0000_0001,
                ;
                assert(-0x8000_0000 * 0x8000_0000 * 1000 <= self.ki * integral
                    <= 0x8000_0000 * 0x8000_0000 * 1000) by (nonlinear_arith)
                    requires
                        -0x8000_0000 <= self.ki <= 0x8000_0000,
                        -0x8000_0000 * 1000 <= integral <= 0x8000_0000 * 1000,
                ;
                let p: i128 = self.kp as i128 * e as i128;
                let i: i128 = floor_div(self.ki as i128 * integral, MS_PER_S);
                let d: i128 = if dt == 0 {
                    0
                } else {
                    floor_div(self.kd as i128 * de * MS_PER_S, dt as i128)
                };
                assert(-0x8000_0000 * 0x8000_0000 <= i <= 0x8000_0000 * 0x8000_0000) by {
                    vstd::arithmetic::div_mod::lemma_div_is_ordered(
                        self.ki * integral,
                        0x8000_0000 * 0x8000_0000 * 1000int,
                        1000int,
                    );
                    vstd::arithmetic::div_mod::lemma_div_is_ordered(
                        -0x8000_0000 * 0x8000_0000 * 1000int,
                        self.ki * integral,
                        1000int,
                    );
                }
                assert(-0x8000_0000 * 0x2_0000_0001 * 1000 <= d <= 0x8000_0000 * 0x2_0000_0001 * 1000) by {
                    if dt > 0 {
                        lemma_div_within(self.kd * de * 1000, dt as int, 0x8000_0000 * 0x2_0000_0001 * 1000int);
                    }
                }
                self.integral = integral as i64;
                self.last_t = Some(now_ms);
                self.last_e = e;
                p + i + d
            },
        }
    }
}

} // verus!
