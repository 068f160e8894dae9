use rustamath_mks::list::Name;
use rustamath_mks::MksUnit;

#[test]
fn dimensionless_renders_empty() {
    assert_eq!(MksUnit::dimensionless().as_string(), "");
    assert_eq!(MksUnit::dimensionless().to_string(), "[]");
}

#[test]
fn exponent_one_renders_bare_name() {
    assert_eq!(MksUnit::new(1, 0, 0, 0).as_string(), "m");
    assert_eq!(MksUnit::new(0, 1, 0, 0).as_string(), "kg");
    assert_eq!(MksUnit::new(0, 0, 1, 0).as_string(), "s");
    assert_eq!(MksUnit::new(0, 0, 0, 1).as_string(), "A");
}

#[test]
fn larger_exponents_render_with_caret() {
    assert_eq!(MksUnit::new(2, 0, 0, 0).as_string(), "m^2");
    assert_eq!(MksUnit::new(0, 0, 3, 0).as_string(), "s^3");
    assert_eq!(MksUnit::new(12, 0, 0, 0).as_string(), "m^12");
}

#[test]
fn fixed_display_order() {
    // Always meter, kilogram, second, ampere, however the unit was built.
    assert_eq!(MksUnit::new(1, 1, 1, 1).as_string(), "m kg s A");
    let built_backwards = MksUnit::new(0, 0, 0, 1)
        .mul(MksUnit::new(0, 0, 1, 0))
        .mul(MksUnit::new(0, 1, 0, 0))
        .mul(MksUnit::new(1, 0, 0, 0));
    assert_eq!(built_backwards.as_string(), "m kg s A");
}

#[test]
fn only_negative_exponents_render_one_over() {
    assert_eq!(MksUnit::new(0, 0, -1, 0).as_string(), "1 / s");
    assert_eq!(MksUnit::new(-2, 0, 0, -1).as_string(), "1 / m^2 A");
    assert!(MksUnit::new(0, -1, -3, 0).as_string().starts_with("1 / "));
}

#[test]
fn mixed_exponents_render_quotient() {
    assert_eq!(MksUnit::new(1, 0, -2, 0).as_string(), "m / s^2");
    assert_eq!(MksUnit::new(1, 0, -1, 0).to_string(), "[m / s]");
    assert_eq!(MksUnit::new(3, -1, -2, 0).as_string(), "m^3 / kg s^2");
}

#[test]
fn permittivity_renders_as_documented() {
    let permittivity = Name::VacuumPermittivity.unit_of();
    assert_eq!(permittivity.as_string(), "s^4 A^2 / m^3 kg");
    assert_eq!(permittivity.to_string(), "[s^4 A^2 / m^3 kg]");
}
