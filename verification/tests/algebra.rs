use rustamath_mks::list::Name;
use rustamath_mks::MksUnit;

#[test]
fn multiply_adds_exponents() {
    let speed = MksUnit::new(1, 0, -1, 0);
    let time = MksUnit::new(0, 0, 1, 0);
    let distance = MksUnit::new(1, 0, 0, 0);
    assert!(speed.mul(time) == distance);
    assert_eq!(speed.mul(time), Name::LightYear.unit_of());
}

#[test]
fn divide_subtracts_exponents() {
    let distance = MksUnit::new(1, 0, 0, 0);
    let speed = MksUnit::new(1, 0, -1, 0);
    let time = MksUnit::new(0, 0, 1, 0);
    assert!(distance.div(speed) == time);
}

#[test]
fn multiply_is_commutative_and_associative() {
    let a = MksUnit::new(1, 2, -3, 0);
    let b = MksUnit::new(-1, 0, 4, 2);
    let c = MksUnit::new(0, -2, 1, -1);
    assert!(a.mul(b) == b.mul(a));
    assert!(a.mul(b).mul(c) == a.mul(b.mul(c)));
}

#[test]
fn divide_by_self_is_identity_factor() {
    let a = MksUnit::new(2, -1, 3, 1);
    let b = MksUnit::new(-3, 1, 4, -2);
    assert!(b.div(b) == MksUnit::dimensionless());
    assert!(a.mul(b.div(b)) == a);
}

#[test]
fn divide_cancels_multiply() {
    let a = MksUnit::new(1, -2, 3, 0);
    let b = MksUnit::new(2, 1, -1, 1);
    assert!(a.mul(b).div(b) == a);
}

#[test]
fn equality_is_exact() {
    let u = MksUnit::new(1, 2, 3, 4);
    assert!(u == MksUnit::new(1, 2, 3, 4));
    assert!(u != MksUnit::new(0, 2, 3, 4));
    assert!(u != MksUnit::new(1, 0, 3, 4));
    assert!(u != MksUnit::new(1, 2, 0, 4));
    assert!(u != MksUnit::new(1, 2, 3, 0));
    assert!(u != MksUnit::new(-1, 2, 3, 4));
}

#[test]
fn root_then_pow_round_trips_on_divisible_exponents() {
    let even = MksUnit::new(2, 0, -4, 6);
    assert!(even.root(2).pow(2) == even);
    let triple = MksUnit::new(3, -6, 0, 9);
    assert!(triple.root(3).pow(3) == triple);
}

#[test]
fn root_truncates_odd_exponents() {
    // The known sharp edge: a square root of an odd exponent truncates and
    // loses the dimension information.
    let odd = MksUnit::new(3, 0, -1, 0);
    assert_eq!(odd.root(2), MksUnit::new(1, 0, 0, 0));
    assert!(odd.root(2).pow(2) != odd);
    // Truncation is toward zero, also for negative exponents: -3/2 is -1.
    assert_eq!(MksUnit::new(-3, 0, 0, 0).root(2), MksUnit::new(-1, 0, 0, 0));
}

#[test]
fn pow_scales_exponents() {
    let speed = MksUnit::new(1, 0, -1, 0);
    assert_eq!(speed.pow(3), MksUnit::new(3, 0, -3, 0));
    assert_eq!(speed.pow(0), MksUnit::dimensionless());
    assert_eq!(speed.pow(-1), MksUnit::new(-1, 0, 1, 0));
}

#[test]
fn catalogue_dimensions() {
    assert_eq!(Name::SpeedOfLight.unit_of(), MksUnit::new(1, 0, -1, 0));
    assert_eq!(Name::GravAccel.unit_of(), MksUnit::new(1, 0, -2, 0));
    assert_eq!(Name::Joule.unit_of(), MksUnit::new(2, 1, -2, 0));
    assert_eq!(Name::VacuumPermittivity.unit_of(), MksUnit::new(-3, -1, 4, 2));
    assert_eq!(Name::Gauss.unit_of(), MksUnit::new(0, 1, -2, -1));
    assert_eq!(Name::Kilogram.unit_of(), MksUnit::new(0, 1, 0, 0));
    // A unit product from the catalogue: speed of light times a time gives a length.
    let light_year = Name::SpeedOfLight.unit_of().mul(Name::Second.unit_of());
    assert_eq!(light_year, Name::LightYear.unit_of());
}
