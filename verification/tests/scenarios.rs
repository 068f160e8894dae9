//! End-to-end scenarios: magnitudes are tracked as plain `f64` values here,
//! dimensions through the library's unit algebra, the way a caller pairs the
//! two.

use rustamath_mks::list::Name;
use rustamath_mks::MksUnit;

#[test]
fn simple_pendulum() {
    // simple pendulum period formula is `T = 2*Pi*sqrt(L/g)`
    let pendulum_len: f64 = 6.0 * 0.3048;
    let pendulum_len_unit = Name::Foot.unit_of();
    let g: f64 = 1.0 * 9.80665;
    let g_unit = Name::GravAccel.unit_of();

    println!("Pendulum length is {:.2} {}", pendulum_len, pendulum_len_unit.to_string());
    println!("G on Earth is {:.2} {}", g, g_unit.to_string());

    assert_eq!(pendulum_len_unit.to_string(), "[m]");
    assert_eq!(g_unit.to_string(), "[m / s^2]");

    let pendulum_len_over_accel = pendulum_len / g;
    let pendulum_len_over_accel_unit = pendulum_len_unit.div(g_unit);
    let time_unit = MksUnit::new(0, 0, 1, 0);
    assert!(pendulum_len_over_accel_unit == time_unit.mul(time_unit));

    let pi_x_2 = 2.0 * std::f64::consts::PI;

    let period = pi_x_2 * pendulum_len_over_accel.sqrt();
    let period_unit = pendulum_len_over_accel_unit.root(2);
    assert!(period_unit == time_unit);

    println!("Pendulum period is {:.2} {}", period, period_unit.to_string());
    assert_eq!(period_unit.to_string(), "[s]");
    // T = 2*pi*sqrt(1.8288 / 9.80665) for a six-foot pendulum.
    assert!((period - 2.713).abs() < 0.001);
}

#[test]
fn incompatible_addition_is_flagged() {
    // Adding a velocity to a mass must be flagged: the additive operations
    // demand equal dimensions, and exact equality rejects this pair.
    let velocity_unit = MksUnit::new(1, 0, -1, 0);
    let mass_unit = Name::Kilogram.unit_of();
    assert!(velocity_unit != mass_unit);
    // Two values of matching dimensions, by contrast, may be added.
    assert!(velocity_unit == Name::Knot.unit_of());
}

#[test]
fn light_year_over_speed_of_light_is_a_year() {
    let light_year: f64 = 9.46053620707e15;
    let light_year_unit = Name::LightYear.unit_of();
    let speed_of_light: f64 = 2.99792458e8;
    let speed_of_light_unit = Name::SpeedOfLight.unit_of();

    let traveling_time = light_year / speed_of_light;
    let traveling_time_unit = light_year_unit.div(speed_of_light_unit);

    assert!(traveling_time_unit == MksUnit::new(0, 0, 1, 0));
    assert_eq!(traveling_time_unit.as_string(), "s");

    let year_in_seconds: f64 = 365.25 * 86400.0;
    let relative_error = (traveling_time - year_in_seconds).abs() / year_in_seconds;
    assert!(relative_error < 1.0e-4);
}
