use daytime::clock::DayTime;
use daytime::sun::SunAngles;

// The floating-point evaluation of the sun's spherical angles, as a
// renderer performs it on top of the clock's exact angle quantities.
const MONTH_DIFFERENCE: f32 = 3.1415 / 18.0;
const HALF_DAY: f32 = 360.0;
const DAY_LENGTH: f32 = 720.0;

fn sun_position(a: &SunAngles) -> [f32; 3] {
    let time: f32 = a.time_on_day as f32 / 1000.0;
    let mut theta: f32 = a.day_offset as f32 * MONTH_DIFFERENCE;
    if a.pre_noon {
        theta += std::f32::consts::PI - std::f32::consts::PI * (time / HALF_DAY);
    } else {
        theta += std::f32::consts::PI * ((time - HALF_DAY) / HALF_DAY);
    }
    let phi: f32 = time / DAY_LENGTH * 2.0 * std::f32::consts::PI;
    [
        theta.sin() * phi.cos(),
        theta.sin() * phi.sin(),
        theta.cos(),
    ]
}

#[test]
fn sun_angles_in_the_morning() {
    let mut d = DayTime::default();
    d.set_time(0, 2, 100_000);
    let a = d.get_sun_angles();
    assert_eq!(a.day_offset, 4);
    assert!(a.pre_noon);
    assert_eq!(a.noon_offset, 260_000);
    assert_eq!(a.time_on_day, 100_000);
}

#[test]
fn sun_angles_in_the_afternoon() {
    let mut d = DayTime::default();
    d.set_time(0, 9, 500_000);
    let a = d.get_sun_angles();
    assert_eq!(a.day_offset, 3);
    assert!(!a.pre_noon);
    assert_eq!(a.noon_offset, 140_000);
    assert_eq!(a.time_on_day, 500_000);
}

#[test]
fn sun_angles_at_noon_of_mid_year() {
    let mut d = DayTime::default();
    d.set_time(0, 6, 360_000);
    let a = d.get_sun_angles();
    assert_eq!(a.day_offset, 0);
    assert!(!a.pre_noon);
    assert_eq!(a.noon_offset, 0);
    assert_eq!(a.time_on_day, 360_000);
}

#[test]
fn sun_position_has_unit_norm() {
    // The spherical parametrization keeps the sun vector on the unit
    // sphere for a pseudo-random sample of valid clock states.
    let mut state: u64 = 0x853c_49e6_748f_ea9b;
    let mut d = DayTime::default();
    for _ in 0..1000 {
        state = state
            .wrapping_mul(6_364_136_223_846_793_005)
            .wrapping_add(1_442_695_040_888_963_407);
        let day: u32 = ((state >> 33) % 12) as u32;
        let time: u64 = (state >> 13) % 720_000;
        d.set_time(0, day, time);
        let p = sun_position(&d.get_sun_angles());
        let norm: f32 = (p[0] * p[0] + p[1] * p[1] + p[2] * p[2]).sqrt();
        assert!((norm - 1.0).abs() < 1e-4);
    }
}
