//! The catalogue of named physical constants and customary units: each name
//! paired with its MKSA dimension vector.
//!
//! The numeric factors of these constants are floating-point data and live
//! with the caller; this module supplies the dimension half of the catalogue.

use vstd::prelude::*;

use crate::{Dims, MksUnit};

verus! {

/// List of MKS constants name
pub enum Name {
    /// Speed of light
    SpeedOfLight,
    /// Gravitational constant
    GravitationalConstant,
    /// Plancks h constant
    PlancksConstantH,
    /// Plancks h-bar constant
    PlancksConstantHBar,
    /// Astronomical unit
    AstronomicalUnit,
    /// Light year
    LightYear,
    /// Parsec
    Parsec,
    /// Acceleration
    GravAccel,
    /// Electron Volt
    ElectronVolt,
    /// Mass of electron
    MassElectron,
    /// Mass of muon
    MassMuon,
    /// Mass of proton
    MassProton,
    /// Mass of neutron
    MassNeutron,
    /// Rydberg
    Rydberg,
    /// Boltzmann
    Boltzmann,
    /// Molar
    MolarGas,
    /// Standard gas volume
    StandardGasVolume,
    /// Second of time
    Second,
    /// Minute of time
    Minute,
    /// Hour
    Hour,
    /// Day
    Day,
    /// Week
    Week,
    /// Meter
    Meter,
    /// Inch
    Inch,
    /// Foot
    Foot,
    /// Yard
    Yard,
    /// Mile
    Mile,
    /// NauticalMile
    NauticalMile,
    /// Fathom
    Fathom,
    /// Mil
    Mil,
    /// Point
    Point,
    /// Textpoint
    Textpoint,
    /// Micron
    Micron,
    /// Angstrom
    Angstrom,
    /// Hectare
    Hectare,
    /// Acre
    Acre,
    /// Barn
    Barn,
    /// Liter,
    Liter,
    /// US gallon
    UsGallon,
    /// Quart
    Quart,
    /// Pint
    Pint,
    /// Cup
    Cup,
    /// Fluid ounce
    FluidOunce,
    /// Tablespoon
    Tablespoon,
    /// Teaspoon,
    Teaspoon,
    /// Canadian gallon
    CanadianGallon,
    /// UK gallon
    UkGallon,
    /// miles/h
    MilesPerHour,
    /// km/h
    KilometersPerHour,
    /// Knot
    Knot,
    /// kg
    Kilogram,
    /// Pound mass
    PoundMass,
    /// Ounce mass
    OunceMass,
    /// Ton
    Ton,
    /// Metric ton
    MetricTon,
    /// UK ton
    UkTon,
    /// Troy ounce
    TroyOunce,
    /// Carat
    Carat,
    /// Unified atomic mass
    UnifiedAtomicMass,
    /// Gram force
    GramForce,
    /// Pound force
    PoundForce,
    /// Kilopound force
    KilopoundForce,
    /// Poundal
    Poundal,
    /// Calorie
    Calorie,
    /// BTU
    Btu,
    /// Therm
    Therm,
    /// Horsepower
    Horsepower,
    /// Bar
    Bar,
    /// Standard atmosphere
    StdAtmosphere,
    /// Torr
    Torr,
    /// Meter of mercury
    MeterOfMercury,
    /// Inch of mercury
    InchOfMercury,
    /// Inch of water
    InchOfWater,
    /// PSI
    Psi,
    /// Poise
    Poise,
    /// Stokes
    Stokes,
    /// STILB
    Stilb,
    /// Lumen
    Lumen,
    /// Lux
    Lux,
    /// Phot
    Phot,
    /// Footcandle
    Footcandle,
    /// Lambert
    Lambert,
    /// Footlambert
    Footlambert,
    /// Curie
    Curie,
    /// Roentgen
    Roentgen,
    /// Rad
    Rad,
    /// Solar mass
    SolarMass,
    /// Bohr radius
    BohrRadius,
    /// Newton
    Newton,
    /// Dyne
    Dyne,
    /// Joule
    Joule,
    /// Erg
    Erg,
    /// STEFAN_BOLTZMANN_CONSTANT
    StefanBolzmannConstant,
    /// THOMSON_CROSS_SECTION
    ThomsonCrossSection,
    /// Bohr magneton
    BohrMagneton,
    /// Nuclear magneton
    NuclearMagneton,
    /// ELECTRON_MAGNETIC_MOMENT
    ElectronMagneticMoment,
    /// PROTON_MAGNETIC_MOMENT
    ProtonMagneticMoment,
    /// Faraday
    Faraday,
    /// Electron charge
    ElectronCharge,
    /// VACUUM_PERMITTIVITY
    VacuumPermittivity,
    /// VACUUM_PERMEABILITY
    VacuumPermeability,
    /// Debye
    Debye,
    /// Gauss
    Gauss,
}

impl Name {
    /// The MKSA dimension vector associated with this named constant,
    /// as the mathematical model of [`Name::unit_of`]'s result.
    pub open spec fn spec_unit_of(self) -> Dims {
        match self {
            Name::SpeedOfLight => Dims { m: 1, k: 0, s: -1, a: 0 },
            Name::GravitationalConstant => Dims { m: 3, k: -1, s: -2, a: 0 },
            Name::PlancksConstantH => Dims { m: 2, k: 2, s: -1, a: 0 },
            Name::PlancksConstantHBar => Dims { m: 2, k: 2, s: -1, a: 0 },
            Name::AstronomicalUnit => Dims { m: 1, k: 0, s: 0, a: 0 },
            Name::LightYear => Dims { m: 1, k: 0, s: 0, a: 0 },
            Name::Parsec => Dims { m: 1, k: 0, s: 0, a: 0 },
            Name::GravAccel => Dims { m: 1, k: 0, s: -2, a: 0 },
            Name::ElectronVolt => Dims { m: 2, k: 1, s: -2, a: 0 },
            Name::MassElectron => Dims { m: 0, k: 1, s: 0, a: 0 },
            Name::MassMuon => Dims { m: 0, k: 1, s: 0, a: 0 },
            Name::MassProton => Dims { m: 0, k: 1, s: 0, a: 0 },
            Name::MassNeutron => Dims { m: 0, k: 1, s: 0, a: 0 },
            Name::Rydberg => Dims { m: 2, k: 1, s: -2, a: 0 },
            Name::Boltzmann => Dims { m: 2, k: 1, s: -2, a: 0 },
            Name::MolarGas => Dims { m: 2, k: 1, s: -2, a: 0 },
            Name::StandardGasVolume => Dims { m: 3, k: 0, s: 0, a: 0 },
            Name::Second => Dims { m: 0, k: 0, s: 1, a: 0 },
            Name::Minute => Dims { m: 0, k: 0, s: 1, a: 0 },
            Name::Hour => Dims { m: 0, k: 0, s: 1, a: 0 },
            Name::Day => Dims { m: 0, k: 0, s: 1, a: 0 },
            Name::Week => Dims { m: 0, k: 0, s: 1, a: 0 },
            Name::Meter => Dims { m: 1, k: 0, s: 0, a: 0 },
            Name::Inch => Dims { m: 1, k: 0, s: 0, a: 0 },
            Name::Foot => Dims { m: 1, k: 0, s: 0, a: 0 },
            Name::Yard => Dims { m: 1, k: 0, s: 0, a: 0 },
            Name::Mile => Dims { m: 1, k: 0, s: 0, a: 0 },
            Name::NauticalMile => Dims { m: 1, k: 0, s: 0, a: 0 },
            Name::Fathom => Dims { m: 1, k: 0, s: 0, a: 0 },
            Name::Mil => Dims { m: 1, k: 0, s: 0, a: 0 },
            Name::Point => Dims { m: 1, k: 0, s: 0, a: 0 },
            Name::Textpoint => Dims { m: 1, k: 0, s: 0, a: 0 },
            Name::Micron => Dims { m: 1, k: 0, s: 0, a: 0 },
            Name::Angstrom => Dims { m: 1, k: 0, s: 0, a: 0 },
            Name::Hectare => Dims { m: 2, k: 0, s: 0, a: 0 },
            Name::Acre => Dims { m: 2, k: 0, s: 0, a: 0 },
            Name::Barn => Dims { m: 2, k: 0, s: 0, a: 0 },
            Name::Liter => Dims { m: 3, k: 0, s: 0, a: 0 },
            Name::UsGallon => Dims { m: 3, k: 0, s: 0, a: 0 },
            Name::Quart => Dims { m: 3, k: 0, s: 0, a: 0 },
            Name::Pint => Dims { m: 3, k: 0, s: 0, a: 0 },
            Name::Cup => Dims { m: 3, k: 0, s: 0, a: 0 },
            Name::FluidOunce => Dims { m: 3, k: 0, s: 0, a: 0 },
            Name::Tablespoon => Dims { m: 3, k: 0, s: 0, a: 0 },
            Name::Teaspoon => Dims { m: 3, k: 0, s: 0, a: 0 },
            Name::CanadianGallon => Dims { m: 3, k: 0, s: 0, a: 0 },
            Name::UkGallon => Dims { m: 3, k: 0, s: 0, a: 0 },
            Name::MilesPerHour => Dims { m: 1, k: 0, s: -1, a: 0 },
            Name::KilometersPerHour => Dims { m: 1, k: 0, s: -1, a: 0 },
            Name::Knot => Dims { m: 1, k: 0, s: -1, a: 0 },
            Name::Kilogram => Dims { m: 0, k: 1, s: 0, a: 0 },
            Name::PoundMass => Dims { m: 0, k: 1, s: 0, a: 0 },
            Name::OunceMass => Dims { m: 0, k: 1, s: 0, a: 0 },
            Name::Ton => Dims { m: 0, k: 1, s: 0, a: 0 },
            Name::MetricTon => Dims { m: 0, k: 1, s: 0, a: 0 },
            Name::UkTon => Dims { m: 0, k: 1, s: 0, a: 0 },
            Name::TroyOunce => Dims { m: 0, k: 1, s: 0, a: 0 },
            Name::Carat => Dims { m: 0, k: 1, s: 0, a: 0 },
            Name::UnifiedAtomicMass => Dims { m: 0, k: 1, s: 0, a: 0 },
            Name::GramForce => Dims { m: 1, k: 1, s: -2, a: 0 },
            Name::PoundForce => Dims { m: 1, k: 1, s: -2, a: 0 },
            Name::KilopoundForce => Dims { m: 1, k: 1, s: -2, a: 0 },
            Name::Poundal => Dims { m: 1, k: 1, s: -2, a: 0 },
            Name::Calorie => Dims { m: 2, k: 1, s: -2, a: 0 },
            Name::Btu => Dims { m: 2, k: 1, s: -2, a: 0 },
            Name::Therm => Dims { m: 2, k: 1, s: -2, a: 0 },
            Name::Horsepower => Dims { m: 2, k: 1, s: -3, a: 0 },
            Name::Bar => Dims { m: -1, k: 1, s: -2, a: 0 },
            Name::StdAtmosphere => Dims { m: -1, k: 1, s: -2, a: 0 },
            Name::Torr => Dims { m: -1, k: 1, s: -2, a: 0 },
            Name::MeterOfMercury => Dims { m: -1, k: 1, s: -2, a: 0 },
            Name::InchOfMercury => Dims { m: -1, k: 1, s: -2, a: 0 },
            Name::InchOfWater => Dims { m: -1, k: 1, s: -2, a: 0 },
            Name::Psi => Dims { m: -1, k: 1, s: -2, a: 0 },
            Name::Poise => Dims { m: -1, k: 1, s: -1, a: 0 },
            Name::Stokes => Dims { m: 2, k: 0, s: -1, a: 0 },
            Name::Stilb => Dims { m: -2, k: 0, s: 0, a: 0 },
            Name::Lumen => Dims { m: 0, k: 0, s: 0, a: 0 },
            Name::Lux => Dims { m: -2, k: 0, s: 0, a: 0 },
            Name::Phot => Dims { m: -2, k: 0, s: 0, a: 0 },
            Name::Footcandle => Dims { m: -2, k: 0, s: 0, a: 0 },
            Name::Lambert => Dims { m: -2, k: 0, s: 0, a: 0 },
            Name::Footlambert => Dims { m: -2, k: 0, s: 0, a: 0 },
            Name::Curie => Dims { m: 0, k: 0, s: -1, a: 0 },
            Name::Roentgen => Dims { m: 0, k: -1, s: 1, a: 1 },
            Name::Rad => Dims { m: 2, k: 0, s: -2, a: 0 },
            Name::SolarMass => Dims { m: 0, k: 1, s: 0, a: 0 },
            Name::BohrRadius => Dims { m: 1, k: 0, s: 0, a: 0 },
            Name::Newton => Dims { m: 1, k: 1, s: -2, a: 0 },
            Name::Dyne => Dims { m: 1, k: 1, s: -2, a: 0 },
            Name::Joule => Dims { m: 2, k: 1, s: -2, a: 0 },
            Name::Erg => Dims { m: 2, k: 1, s: -2, a: 0 },
            Name::StefanBolzmannConstant => Dims { m: 0, k: 1, s: -3, a: 0 },
            Name::ThomsonCrossSection => Dims { m: 2, k: 0, s: 0, a: 0 },
            Name::BohrMagneton => Dims { m: 2, k: 0, s: 0, a: 1 },
            Name::NuclearMagneton => Dims { m: 2, k: 0, s: 0, a: 1 },
            Name::ElectronMagneticMoment => Dims { m: 2, k: 0, s: 0, a: 1 },
            Name::ProtonMagneticMoment => Dims { m: 2, k: 0, s: 0, a: 1 },
            Name::Faraday => Dims { m: 0, k: 0, s: 1, a: 1 },
            Name::ElectronCharge => Dims { m: 0, k: 0, s: 1, a: 1 },
            Name::VacuumPermittivity => Dims { m: -3, k: -1, s: 4, a: 2 },
            Name::VacuumPermeability => Dims { m: 1, k: 1, s: -2, a: -2 },
            Name::Debye => Dims { m: -2, k: 0, s: 2, a: 1 },
            Name::Gauss => Dims { m: 0, k: 1, s: -2, a: -1 },
        }
    }

    /// Look up the MKSA dimension vector of a named constant.
    pub fn unit_of(&self) -> (u: MksUnit)
        ensures
            u@ == self.spec_unit_of(),
    {
        match self {
            Name::SpeedOfLight => MksUnit { m: 1, k: 0, s: -1, a: 0 },
            Name::GravitationalConstant => MksUnit { m: 3, k: -1, s: -2, a: 0 },
            Name::PlancksConstantH => MksUnit { m: 2, k: 2, s: -1, a: 0 },
            Name::PlancksConstantHBar => MksUnit { m: 2, k: 2, s: -1, a: 0 },
            Name::AstronomicalUnit => MksUnit { m: 1, k: 0, s: 0, a: 0 },
            Name::LightYear => MksUnit { m: 1, k: 0, s: 0, a: 0 },
            Name::Parsec => MksUnit { m: 1, k: 0, s: 0, a: 0 },
            Name::GravAccel => MksUnit { m: 1, k: 0, s: -2, a: 0 },
            Name::ElectronVolt => MksUnit { m: 2, k: 1, s: -2, a: 0 },
            Name::MassElectron => MksUnit { m: 0, k: 1, s: 0, a: 0 },
            Name::MassMuon => MksUnit { m: 0, k: 1, s: 0, a: 0 },
            Name::MassProton => MksUnit { m: 0, k: 1, s: 0, a: 0 },
            Name::MassNeutron => MksUnit { m: 0, k: 1, s: 0, a: 0 },
            Name::Rydberg => MksUnit { m: 2, k: 1, s: -2, a: 0 },
            Name::Boltzmann => MksUnit { m: 2, k: 1, s: -2, a: 0 },
            Name::MolarGas => MksUnit { m: 2, k: 1, s: -2, a: 0 },
            Name::StandardGasVolume => MksUnit { m: 3, k: 0, s: 0, a: 0 },
            Name::Second => MksUnit { m: 0, k: 0, s: 1, a: 0 },
            Name::Minute => MksUnit { m: 0, k: 0, s: 1, a: 0 },
            Name::Hour => MksUnit { m: 0, k: 0, s: 1, a: 0 },
            Name::Day => MksUnit { m: 0, k: 0, s: 1, a: 0 },
            Name::Week => MksUnit { m: 0, k: 0, s: 1, a: 0 },
            Name::Meter => MksUnit { m: 1, k: 0, s: 0, a: 0 },
            Name::Inch => MksUnit { m: 1, k: 0, s: 0, a: 0 },
            Name::Foot => MksUnit { m: 1, k: 0, s: 0, a: 0 },
            Name::Yard => MksUnit { m: 1, k: 0, s: 0, a: 0 },
            Name::Mile => MksUnit { m: 1, k: 0, s: 0, a: 0 },
            Name::NauticalMile => MksUnit { m: 1, k: 0, s: 0, a: 0 },
            Name::Fathom => MksUnit { m: 1, k: 0, s: 0, a: 0 },
            Name::Mil => MksUnit { m: 1, k: 0, s: 0, a: 0 },
            Name::Point => MksUnit { m: 1, k: 0, s: 0, a: 0 },
            Name::Textpoint => MksUnit { m: 1, k: 0, s: 0, a: 0 },
            Name::Micron => MksUnit { m: 1, k: 0, s: 0, a: 0 },
            Name::Angstrom => MksUnit { m: 1, k: 0, s: 0, a: 0 },
            Name::Hectare => MksUnit { m: 2, k: 0, s: 0, a: 0 },
            Name::Acre => MksUnit { m: 2, k: 0, s: 0, a: 0 },
            Name::Barn => MksUnit { m: 2, k: 0, s: 0, a: 0 },
            Name::Liter => MksUnit { m: 3, k: 0, s: 0, a: 0 },
            Name::UsGallon => MksUnit { m: 3, k: 0, s: 0, a: 0 },
            Name::Quart => MksUnit { m: 3, k: 0, s: 0, a: 0 },
            Name::Pint => MksUnit { m: 3, k: 0, s: 0, a: 0 },
            Name::Cup => MksUnit { m: 3, k: 0, s: 0, a: 0 },
            Name::FluidOunce => MksUnit { m: 3, k: 0, s: 0, a: 0 },
            Name::Tablespoon => MksUnit { m: 3, k: 0, s: 0, a: 0 },
            Name::Teaspoon => MksUnit { m: 3, k: 0, s: 0, a: 0 },
            Name::CanadianGallon => MksUnit { m: 3, k: 0, s: 0, a: 0 },
            Name::UkGallon => MksUnit { m: 3, k: 0, s: 0, a: 0 },
            Name::MilesPerHour => MksUnit { m: 1, k: 0, s: -1, a: 0 },
            Name::KilometersPerHour => MksUnit { m: 1, k: 0, s: -1, a: 0 },
            Name::Knot => MksUnit { m: 1, k: 0, s: -1, a: 0 },
            Name::Kilogram => MksUnit { m: 0, k: 1, s: 0, a: 0 },
            Name::PoundMass => MksUnit { m: 0, k: 1, s: 0, a: 0 },
            Name::OunceMass => MksUnit { m: 0, k: 1, s: 0, a: 0 },
            Name::Ton => MksUnit { m: 0, k: 1, s: 0, a: 0 },
            Name::MetricTon => MksUnit { m: 0, k: 1, s: 0, a: 0 },
            Name::UkTon => MksUnit { m: 0, k: 1, s: 0, a: 0 },
            Name::TroyOunce => MksUnit { m: 0, k: 1, s: 0, a: 0 },
            Name::Carat => MksUnit { m: 0, k: 1, s: 0, a: 0 },
            Name::UnifiedAtomicMass => MksUnit { m: 0, k: 1, s: 0, a: 0 },
            Name::GramForce => MksUnit { m: 1, k: 1, s: -2, a: 0 },
            Name::PoundForce => MksUnit { m: 1, k: 1, s: -2, a: 0 },
            Name::KilopoundForce => MksUnit { m: 1, k: 1, s: -2, a: 0 },
            Name::Poundal => MksUnit { m: 1, k: 1, s: -2, a: 0 },
            Name::Calorie => MksUnit { m: 2, k: 1, s: -2, a: 0 },
            Name::Btu => MksUnit { m: 2, k: 1, s: -2, a: 0 },
            Name::Therm => MksUnit { m: 2, k: 1, s: -2, a: 0 },
            Name::Horsepower => MksUnit { m: 2, k: 1, s: -3, a: 0 },
            Name::Bar => MksUnit { m: -1, k: 1, s: -2, a: 0 },
            Name::StdAtmosphere => MksUnit { m: -1, k: 1, s: -2, a: 0 },
            Name::Torr => MksUnit { m: -1, k: 1, s: -2, a: 0 },
            Name::MeterOfMercury => MksUnit { m: -1, k: 1, s: -2, a: 0 },
            Name::InchOfMercury => MksUnit { m: -1, k: 1, s: -2, a: 0 },
            Name::InchOfWater => MksUnit { m: -1, k: 1, s: -2, a: 0 },
            Name::Psi => MksUnit { m: -1, k: 1, s: -2, a: 0 },
            Name::Poise => MksUnit { m: -1, k: 1, s: -1, a: 0 },
            Name::Stokes => MksUnit { m: 2, k: 0, s: -1, a: 0 },
            Name::Stilb => MksUnit { m: -2, k: 0, s: 0, a: 0 },
            Name::Lumen => MksUnit { m: 0, k: 0, s: 0, a: 0 },
            Name::Lux => MksUnit { m: -2, k: 0, s: 0, a: 0 },
            Name::Phot => MksUnit { m: -2, k: 0, s: 0, a: 0 },
            Name::Footcandle => MksUnit { m: -2, k: 0, s: 0, a: 0 },
            Name::Lambert => MksUnit { m: -2, k: 0, s: 0, a: 0 },
            Name::Footlambert => MksUnit { m: -2, k: 0, s: 0, a: 0 },
            Name::Curie => MksUnit { m: 0, k: 0, s: -1, a: 0 },
            Name::Roentgen => MksUnit { m: 0, k: -1, s: 1, a: 1 },
            Name::Rad => MksUnit { m: 2, k: 0, s: -2, a: 0 },
            Name::SolarMass => MksUnit { m: 0, k: 1, s: 0, a: 0 },
            Name::BohrRadius => MksUnit { m: 1, k: 0, s: 0, a: 0 },
            Name::Newton => MksUnit { m: 1, k: 1, s: -2, a: 0 },
            Name::Dyne => MksUnit { m: 1, k: 1, s: -2, a: 0 },
            Name::Joule => MksUnit { m: 2, k: 1, s: -2, a: 0 },
            Name::Erg => MksUnit { m: 2, k: 1, s: -2, a: 0 },
            Name::StefanBolzmannConstant => MksUnit { m: 0, k: 1, s: -3, a: 0 },
            Name::ThomsonCrossSection => MksUnit { m: 2, k: 0, s: 0, a: 0 },
            Name::BohrMagneton => MksUnit { m: 2, k: 0, s: 0, a: 1 },
            Name::NuclearMagneton => MksUnit { m: 2, k: 0, s: 0, a: 1 },
            Name::ElectronMagneticMoment => MksUnit { m: 2, k: 0, s: 0, a: 1 },
            Name::ProtonMagneticMoment => MksUnit { m: 2, k: 0, s: 0, a: 1 },
            Name::Faraday => MksUnit { m: 0, k: 0, s: 1, a: 1 },
            Name::ElectronCharge => MksUnit { m: 0, k: 0, s: 1, a: 1 },
            Name::VacuumPermittivity => MksUnit { m: -3, k: -1, s: 4, a: 2 },
            Name::VacuumPermeability => MksUnit { m: 1, k: 1, s: -2, a: -2 },
            Name::Debye => MksUnit { m: -2, k: 0, s: 2, a: 1 },
            Name::Gauss => MksUnit { m: 0, k: 1, s: -2, a: -1 },
        }
    }
}

} // verus!
