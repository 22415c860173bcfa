use roland::drivers::{HBridge, Hardware, PwmConfig, RGBLed, Servo, TrackSensor, UltraSensor, PWM};
use roland::message::{SerialCMD, SerialData, TrackSensorID};

const CLOCK: u32 = 125_000_000;

#[test]
fn pwm_frequency_and_duty() {
    let mut p = PWM::new(CLOCK);
    p.set_freq(2000);
    assert_eq!(p.config, PwmConfig { divider: 1, top: 62499, compare_a: 0, compare_b: 0 });
    p.set_freq(5);
    assert_eq!(p.config.top, 62499);
    p.set_duty_a(0x7fff);
    assert_eq!(p.config.compare_a, 31249);
    p.set_duty_b(0xffff);
    assert_eq!(p.config.compare_b, 62499);
    p.set_freq(50);
    assert_eq!((p.config.divider, p.config.top), (39, 64101));
}

#[test]
fn servo_positions() {
    let mut s = Servo::new(CLOCK, 2100, 4800, 8300);
    assert_eq!(s.pwm.config.top, 64101);
    assert_eq!(s.pwm.config.compare_a, 4694);
    s.deg(-90);
    assert_eq!(s.pwm.config.compare_a, 2054);
    s.deg(-128);
    assert_eq!(s.pwm.config.compare_a, 2054);
    s.deg(90);
    assert_eq!(s.pwm.config.compare_a, (64101u32 * 8300 / 65535) as u16);
}

#[test]
fn led_is_common_anode() {
    let mut led = RGBLed::new(CLOCK, 2000);
    assert_eq!(led.rg_pwm.config.compare_a, 62499);
    led.set_color(255, 0, 128);
    assert_eq!(led.rg_pwm.config.compare_a, 0);
    assert_eq!(led.rg_pwm.config.compare_b, 62499);
    assert_eq!(led.b_pwm.config.compare_a, (62499u32 * (0xffff - 128 * 257) / 0xffff) as u16);
}

#[test]
fn motors_clamp_and_set_direction() {
    let mut hb = HBridge::new(CLOCK, 2000);
    hb.drive(-70000, 100);
    assert_eq!(hb.pwm.config.compare_b, 62499);
    assert_eq!(hb.pwm.config.compare_a, (62499u32 * 100 / 0xffff) as u16);
    assert_eq!((hb.l1, hb.l2, hb.r1, hb.r2), (false, true, true, false));
    hb.drive(0, 0);
    assert_eq!((hb.l1, hb.l2, hb.r1, hb.r2), (false, false, false, false));
}

#[test]
fn hardware_reset_is_neutral() {
    let mut hw = Hardware::new(CLOCK);
    hw.apply(&SerialCMD::Buzzer(440));
    hw.apply(&SerialCMD::HBridge((30000, -30000)));
    hw.apply(&SerialCMD::Servo(45));
    assert!(hw.hb.l1 && hw.hb.r2);
    assert!(hw.buzzer.pwm.config.compare_a > 0);
    hw.apply(&SerialCMD::Reset(vec![]));
    assert_eq!(hw.buzzer.pwm.config.compare_a, 0);
    assert_eq!((hw.hb.pwm.config.compare_a, hw.hb.pwm.config.compare_b), (0, 0));
    assert_eq!((hw.hb.l1, hw.hb.l2, hw.hb.r1, hw.hb.r2), (false, false, false, false));
    assert_eq!(hw.servo.pwm.config.compare_a, 4694);
}

#[test]
fn ultrasonic_rounds() {
    let mut u = UltraSensor::new();
    assert_eq!(u.measure(Some(2332)), SerialData::UltraSensor(Some(39)));
    assert_eq!(u.measure(None), SerialData::UltraSensor(None));
    assert_eq!(u.measure(Some(100)), SerialData::UltraSensor(None));
    assert_eq!(u.measure(Some(30000)), SerialData::UltraSensor(None));
    assert_eq!(u.measure(Some(2332 * 2)), SerialData::UltraSensor(Some(59)));
    assert_eq!(u.get_dist(), Some(59));
    u.push_data(1);
    assert_eq!(u.get_dist(), Some(39));
}

#[test]
fn track_edges_toggle() {
    let mut t = TrackSensor::new(TrackSensorID::R2, false);
    assert_eq!(t.edge(), SerialData::TrackSensor((TrackSensorID::R2, true)));
    assert_eq!(t.edge(), SerialData::TrackSensor((TrackSensorID::R2, false)));
}

#[test]
fn servo_full_range_calibration_stays_in_range() {
    let mut s = Servo::new(CLOCK, 0, 0, 0xffff);
    s.deg(90);
    assert_eq!(s.pwm.config.compare_a, 64101);
    s.deg(-90);
    assert_eq!(s.pwm.config.compare_a, 0);
}

#[test]
fn hardware_starts_neutral_and_applies_each_command() {
    let mut hw = Hardware::new(CLOCK);
    assert_eq!(hw.buzzer.pwm.config.compare_a, 0);
    assert_eq!(hw.led.rg_pwm.config.compare_a, hw.led.rg_pwm.config.top);
    assert_eq!(hw.led.b_pwm.config.compare_a, hw.led.b_pwm.config.top);
    assert_eq!(hw.servo.pwm.config.compare_a, 4694);
    assert_eq!((hw.hb.l1, hw.hb.l2, hw.hb.r1, hw.hb.r2), (false, false, false, false));
    hw.apply(&SerialCMD::LED((255, 255, 255)));
    assert_eq!((hw.led.rg_pwm.config.compare_a, hw.led.rg_pwm.config.compare_b), (0, 0));
    assert_eq!(hw.led.b_pwm.config.compare_a, 0);
    hw.apply(&SerialCMD::Servo(-90));
    assert_eq!(hw.servo.pwm.config.compare_a, 2054);
    hw.apply(&SerialCMD::Buzzer(2000));
    assert_eq!(hw.buzzer.pwm.config.top, 62499);
    hw.apply(&SerialCMD::Reset(vec![]));
    assert_eq!(hw.led.rg_pwm.config.compare_a, hw.led.rg_pwm.config.top);
    assert_eq!(hw.servo.pwm.config.compare_a, 4694);
}
