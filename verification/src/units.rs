//! Unit-tagged quantities: volume, mass, lever arm, mass moment and
//! centre of gravity.
//!
//! A quantity stores a whole number of billionths of its unit, so
//! `Volume::Liter(62_000_000_000)` is 62 litres and
//! `LeverArm::Meter(429_400_000)` is 0.4294 m.  A mass moment is the exact
//! product of a mass and an arm and therefore counts 10^-18 kilogram metres.
//!
//! Gallons become litres, and litres become kilograms, by multiplying with
//! the exact ratio and rounding down once.  The way back takes the largest
//! value that the way there does not carry beyond the given one: gallons come
//! back as they were, and a volume worked out from a mass weighs that mass.

use crate::arith::{
    div_floor, floor_div, lemma_floor_div_bounds, lemma_scaled_monotone,
    lemma_scaled_of_unscaled, lemma_unscaled_is_largest, lemma_unscaled_of_scaled, scale_floor,
    scaled, unscale_floor, unscaled,
};
use crate::decimal::{decimal_text, format_decimal};
use vstd::prelude::*;
use vstd::string::StringExecFns;

verus! {

/// Stored units per whole unit of a volume, mass or length.
pub const SCALE: i128 = 1_000_000_000;

/// Stored units per whole kilogram metre of a mass moment.
pub const MOMENT_SCALE: i128 = 1_000_000_000_000_000_000;

/// Largest magnitude of a quantity that may be loaded into an airplane:
/// one hundred thousand whole units.
pub const LIMIT: i128 = 100_000_000_000_000;

/// Largest magnitude, in kilograms, of a mass that may enter an airplane: a
/// gallon of fuel weighs less than three kilograms.
pub const MASS_LIMIT: i128 = 300_000_000_000_000;

/// Largest magnitude of gallons that are turned into another unit.
pub const GALLON_LIMIT: i128 = 1_000_000_000_000_000_000_000_000_000_000;

/// Largest magnitude of litres that are turned into another unit: the
/// litres of `GALLON_LIMIT`.
pub const LITER_LIMIT: i128 = 3_785_410_000_000_000_000_000_000_000_000;

/// Largest magnitude of kilograms that are turned into a volume of fuel.
pub const KILO_LIMIT: i128 = 2_000_000_000_000_000_000_000_000_000_000;

/// One gallon is `378541 / 100000` litres.
pub const LITERS_PER_100000_GALLONS: i128 = 378_541;

/// Avgas weighs 0.72 kg per litre.
pub const AVGAS_KG_PER_100_LITERS: i128 = 72;

/// Mogas weighs 0.74 kg per litre.
pub const MOGAS_KG_PER_100_LITERS: i128 = 74;

/// Whether a stored number may enter an airplane.
pub open spec fn in_range(x: int) -> bool {
    -LIMIT <= x <= LIMIT
}

/// Litres in `g` gallons, rounded down.
pub open spec fn gallons_to_liters(g: int) -> int {
    scaled(g, LITERS_PER_100000_GALLONS as int, 100_000)
}

/// The most gallons whose litres do not exceed `l`.
pub open spec fn liters_to_gallons(l: int) -> int {
    unscaled(l, LITERS_PER_100000_GALLONS as int, 100_000)
}

/// Kilograms of `l` litres of a fuel that weighs `density` kg per 100
/// litres, rounded down.
pub open spec fn liters_to_kilo(l: int, density: int) -> int {
    scaled(l, density, 100)
}

/// The most litres of a fuel of the given density that weigh no more than
/// `k` kilograms.
pub open spec fn kilo_to_liters(k: int, density: int) -> int {
    unscaled(k, density, 100)
}

/// Gallons turned into litres and back are the gallons.
pub proof fn lemma_gallon_liter_round_trip(g: int)
    ensures
        liters_to_gallons(gallons_to_liters(g)) == g,
{
    lemma_unscaled_of_scaled(g, LITERS_PER_100000_GALLONS as int, 100_000);
}

/// Litres turned into gallons and back lose at most three stored units
/// (0.000000003 l) and never gain.
pub proof fn lemma_liter_gallon_round_trip(l: int)
    ensures
        l - 3 <= gallons_to_liters(liters_to_gallons(l)) <= l,
{
    let g = liters_to_gallons(l);
    lemma_unscaled_is_largest(g, l, LITERS_PER_100000_GALLONS as int, 100_000);
    lemma_unscaled_is_largest(g + 1, l, LITERS_PER_100000_GALLONS as int, 100_000);
    lemma_floor_div_bounds(g * LITERS_PER_100000_GALLONS, 100_000);
    lemma_floor_div_bounds((g + 1) * LITERS_PER_100000_GALLONS, 100_000);
}

/// A volume of fuel worked out from a mass weighs that mass.
pub proof fn lemma_kilo_liter_round_trip(k: int, density: int)
    requires
        0 < density <= 100,
    ensures
        liters_to_kilo(kilo_to_liters(k, density), density) == k,
{
    lemma_scaled_of_unscaled(k, density, 100);
}

/// A mass worked out from a volume of fuel gives back at least that volume,
/// and at most one stored unit more.
pub proof fn lemma_liter_kilo_round_trip(l: int, density: int)
    requires
        50 < density <= 100,
    ensures
        l <= kilo_to_liters(liters_to_kilo(l, density), density) <= l + 1,
{
    let k = liters_to_kilo(l, density);
    lemma_unscaled_is_largest(l, k, density, 100);
    lemma_unscaled_is_largest(l + 2, k, density, 100);
    lemma_floor_div_bounds(l * density, 100);
    lemma_floor_div_bounds((l + 2) * density, 100);
    let z = liters_to_kilo(l + 2, density);
    assert(z > k) by (nonlinear_arith)
        requires
            50 < density <= 100,
            l * density < (k + 1) * 100,
            k * 100 <= l * density,
            (l + 2) * density < (z + 1) * 100,
    ;
}

/// A mass in range weighs at most `MASS_LIMIT`, and its volume in litres is
/// at most four times `LIMIT`.
pub proof fn lemma_mass_bound(mass: Mass)
    requires
        mass.in_range(),
    ensures
        -MASS_LIMIT <= mass.kilograms() <= MASS_LIMIT,
        mass.convertible(),
        mass matches Mass::Avgas(v) ==> -4 * LIMIT <= v.liters() <= 4 * LIMIT,
        mass matches Mass::Mogas(v) ==> -4 * LIMIT <= v.liters() <= 4 * LIMIT,
{
    match mass {
        Mass::Kilo(_) => {},
        Mass::Avgas(v) => {
            lemma_volume_bound(v);
            lemma_floor_div_bounds(v.liters() * AVGAS_KG_PER_100_LITERS, 100);
        },
        Mass::Mogas(v) => {
            lemma_volume_bound(v);
            lemma_floor_div_bounds(v.liters() * MOGAS_KG_PER_100_LITERS, 100);
        },
    }
}

/// A volume in range holds at most four times `LIMIT` in litres.
pub proof fn lemma_volume_bound(v: Volume)
    requires
        v.in_range(),
    ensures
        -4 * LIMIT <= v.liters() <= 4 * LIMIT,
        v.convertible(),
{
    lemma_floor_div_bounds(v.raw() * LITERS_PER_100000_GALLONS, 100_000);
}

/// A volume that can be turned into another unit still can be afterwards.
pub proof fn lemma_convertible_stays(v: Volume)
    requires
        v.convertible(),
    ensures
        -LITER_LIMIT <= v.liters() <= LITER_LIMIT,
        -GALLON_LIMIT <= v.gallons() <= GALLON_LIMIT,
{
    let num = LITERS_PER_100000_GALLONS as int;
    match v {
        Volume::Liter(l) => {
            lemma_floor_div_bounds(GALLON_LIMIT * num, 100_000);
            lemma_floor_div_bounds(-GALLON_LIMIT * num, 100_000);
            assert(gallons_to_liters(GALLON_LIMIT as int) == LITER_LIMIT);
            assert(gallons_to_liters(-GALLON_LIMIT) == -LITER_LIMIT);
            lemma_unscaled_is_largest(-GALLON_LIMIT, l as int, num, 100_000);
            lemma_unscaled_is_largest(GALLON_LIMIT + 1, l as int, num, 100_000);
            lemma_floor_div_bounds((GALLON_LIMIT + 1) * num, 100_000);
        },
        Volume::Gallon(g) => {
            lemma_scaled_monotone(g as int, GALLON_LIMIT as int, num, 100_000);
            lemma_scaled_monotone(-GALLON_LIMIT, g as int, num, 100_000);
            lemma_floor_div_bounds(GALLON_LIMIT * num, 100_000);
            lemma_floor_div_bounds(-GALLON_LIMIT * num, 100_000);
        },
    }
}

/// A position in range lies within `LIMIT` metres of the datum.
pub proof fn lemma_cg_meters_bound(cg: CenterOfGravity)
    requires
        cg.in_range(),
    ensures
        -LIMIT <= cg.meters() <= LIMIT,
        -1000 * LIMIT <= cg.millimeters() <= 1000 * LIMIT,
{
}

/// Distance of a station from the datum.
#[derive(Clone, Copy, Debug, PartialEq, Eq, Structural)]
pub enum LeverArm {
    Meter(i128),
}

impl LeverArm {
    /// The arm in metres.
    pub open spec fn meters(&self) -> int {
        match self {
            LeverArm::Meter(m) => *m as int,
        }
    }

    /// Whether the arm may enter an airplane.
    pub open spec fn spec_in_range(&self) -> bool {
        in_range(self.meters())
    }

    /// The arm in metres.
    pub fn meter(&self) -> (m: i128)
        ensures
            m == self.meters(),
    {
        match self {
            LeverArm::Meter(m) => *m,
        }
    }

    /// Whether the arm may enter an airplane.
    #[verifier::when_used_as_spec(spec_in_range)]
    pub fn in_range(&self) -> (b: bool)
        ensures
            b == self.spec_in_range(),
    {
        let m = self.meter();
        -LIMIT <= m && m <= LIMIT
    }
}

/// A volume of fuel, in litres or in US gallons.
#[derive(Clone, Copy, Debug, PartialEq, Eq, Structural)]
pub enum Volume {
    Liter(i128),
    Gallon(i128),
}

impl Volume {
    /// The stored number, whatever its unit.
    pub open spec fn raw(&self) -> int {
        match self {
            Volume::Liter(v) => *v as int,
            Volume::Gallon(v) => *v as int,
        }
    }

    /// Whether the volume may enter an airplane.
    pub open spec fn spec_in_range(&self) -> bool {
        in_range(self.raw())
    }

    /// Whether the volume is small enough to be turned into another unit.
    /// What comes of it is small enough again.
    pub open spec fn convertible(&self) -> bool {
        match self {
            Volume::Liter(v) => -LITER_LIMIT <= *v <= LITER_LIMIT,
            Volume::Gallon(v) => -GALLON_LIMIT <= *v <= GALLON_LIMIT,
        }
    }

    /// The volume in litres.
    pub open spec fn liters(&self) -> int {
        match self {
            Volume::Liter(v) => *v as int,
            Volume::Gallon(v) => gallons_to_liters(*v as int),
        }
    }

    /// The volume in gallons.
    pub open spec fn gallons(&self) -> int {
        match self {
            Volume::Liter(v) => liters_to_gallons(*v as int),
            Volume::Gallon(v) => *v as int,
        }
    }

    /// The volume with two decimal places and its unit, as in `62.00L`.
    pub open spec fn text(&self) -> Seq<char> {
        match self {
            Volume::Liter(v) => decimal_text(*v as int, 9, 2) + seq!['L'],
            Volume::Gallon(v) => decimal_text(*v as int, 9, 2) + seq!['g', 'a', 'l'],
        }
    }

    /// Whether the volume may enter an airplane.
    #[verifier::when_used_as_spec(spec_in_range)]
    pub fn in_range(&self) -> (b: bool)
        ensures
            b == self.spec_in_range(),
    {
        match self {
            Volume::Liter(v) => -LIMIT <= *v && *v <= LIMIT,
            Volume::Gallon(v) => -LIMIT <= *v && *v <= LIMIT,
        }
    }

    /// The volume in litres.  Gallons that became litres become the same
    /// gallons again.
    pub fn to_liter(&self) -> (l: i128)
        requires
            self.convertible(),
        ensures
            l == self.liters(),
            Volume::Liter(l).convertible(),
            self matches Volume::Gallon(g) ==> Volume::Liter(l).gallons() == g,
    {
        proof {
            lemma_convertible_stays(*self);
            lemma_gallon_liter_round_trip(self.raw());
        }
        match self {
            Volume::Liter(v) => *v,
            Volume::Gallon(v) => scale_floor(*v, LITERS_PER_100000_GALLONS, 100_000),
        }
    }

    /// The volume in gallons: the most gallons that hold no more litres.
    /// They hold less by at most three stored units, and litres that came
    /// of gallons give those gallons.
    pub fn to_gallon(&self) -> (g: i128)
        requires
            self.convertible(),
        ensures
            g == self.gallons(),
            Volume::Gallon(g).convertible(),
            self.liters() - 3 <= Volume::Gallon(g).liters() <= self.liters(),
            forall|gallons: int|
                self.liters() == #[trigger] gallons_to_liters(gallons) ==> g == gallons,
    {
        proof {
            lemma_convertible_stays(*self);
            lemma_liter_gallon_round_trip(self.raw());
            lemma_gallon_liter_round_trip(self.raw());
            assert forall|gallons: int| self.liters() == #[trigger] gallons_to_liters(
                gallons,
            ) implies self.gallons() == gallons by {
                lemma_gallon_liter_round_trip(gallons);
            }
        }
        match self {
            Volume::Liter(v) => unscale_floor(*v, LITERS_PER_100000_GALLONS, 100_000),
            Volume::Gallon(v) => *v,
        }
    }

    /// The volume with two decimal places and its unit.
    pub fn to_string(&self) -> (text: String)
        ensures
            text@ == self.text(),
    {
        match self {
            Volume::Liter(v) => {
                let mut text = format_decimal(*v, 9, 2);
                proof {
                    reveal_strlit("L");
                }
                text.append("L");
                assert(text@ =~= self.text());
                text
            },
            Volume::Gallon(v) => {
                let mut text = format_decimal(*v, 9, 2);
                proof {
                    reveal_strlit("gal");
                }
                text.append("gal");
                assert(text@ =~= self.text());
                text
            },
        }
    }
}

/// A mass, given in kilograms or as a volume of fuel.
#[derive(Clone, Copy, Debug, PartialEq, Eq, Structural)]
pub enum Mass {
    Kilo(i128),
    Avgas(Volume),
    Mogas(Volume),
}

impl Mass {
    /// The stored number, whatever its unit.
    pub open spec fn raw(&self) -> int {
        match self {
            Mass::Kilo(kg) => *kg as int,
            Mass::Avgas(v) => v.raw(),
            Mass::Mogas(v) => v.raw(),
        }
    }

    /// Whether the mass may enter an airplane.
    pub open spec fn spec_in_range(&self) -> bool {
        in_range(self.raw())
    }

    /// Whether the mass is small enough to be weighed: kilograms always
    /// are, fuel where its volume can be turned into litres.
    pub open spec fn convertible(&self) -> bool {
        match self {
            Mass::Kilo(_) => true,
            Mass::Avgas(v) => v.convertible(),
            Mass::Mogas(v) => v.convertible(),
        }
    }

    /// Whether the mass is small enough to be turned into a volume of fuel.
    pub open spec fn fits_a_tank(&self) -> bool {
        self.convertible() && -KILO_LIMIT <= self.kilograms() <= KILO_LIMIT
    }

    /// The mass in kilograms: a fuel volume weighs its litres times the
    /// fuel's density.
    pub open spec fn kilograms(&self) -> int {
        match self {
            Mass::Kilo(kg) => *kg as int,
            Mass::Avgas(v) => liters_to_kilo(v.liters(), AVGAS_KG_PER_100_LITERS as int),
            Mass::Mogas(v) => liters_to_kilo(v.liters(), MOGAS_KG_PER_100_LITERS as int),
        }
    }

    /// The unit in which the mass is given: `kg`, or for a fuel the weight
    /// of one litre or gallon with two decimal places, as in `0.72kg/L`.
    pub open spec fn unit_text(&self) -> Seq<char> {
        match self {
            Mass::Kilo(_) => seq!['k', 'g'],
            Mass::Avgas(Volume::Liter(_)) => decimal_text(
                Mass::Avgas(Volume::Liter(SCALE)).kilograms(),
                9,
                2,
            ) + seq!['k', 'g', '/', 'L'],
            Mass::Avgas(Volume::Gallon(_)) => decimal_text(
                Mass::Avgas(Volume::Gallon(SCALE)).kilograms(),
                9,
                2,
            ) + seq!['k', 'g', '/', 'g', 'a', 'l'],
            Mass::Mogas(Volume::Liter(_)) => decimal_text(
                Mass::Mogas(Volume::Liter(SCALE)).kilograms(),
                9,
                2,
            ) + seq!['k', 'g', '/', 'L'],
            Mass::Mogas(Volume::Gallon(_)) => decimal_text(
                Mass::Mogas(Volume::Gallon(SCALE)).kilograms(),
                9,
                2,
            ) + seq!['k', 'g', '/', 'g', 'a', 'l'],
        }
    }

    /// Whether the mass may enter an airplane.
    #[verifier::when_used_as_spec(spec_in_range)]
    pub fn in_range(&self) -> (b: bool)
        ensures
            b == self.spec_in_range(),
    {
        match self {
            Mass::Kilo(kg) => -LIMIT <= *kg && *kg <= LIMIT,
            Mass::Avgas(v) => v.in_range(),
            Mass::Mogas(v) => v.in_range(),
        }
    }

    /// The mass in kilograms.
    pub fn kilo(&self) -> (kg: i128)
        requires
            self.convertible(),
        ensures
            kg == self.kilograms(),
    {
        match self {
            Mass::Kilo(kg) => *kg,
            Mass::Avgas(v) => scale_floor(v.to_liter(), AVGAS_KG_PER_100_LITERS, 100),
            Mass::Mogas(v) => scale_floor(v.to_liter(), MOGAS_KG_PER_100_LITERS, 100),
        }
    }

    /// The most litres of Avgas that weigh no more than this mass: they
    /// weigh exactly as much.
    pub fn to_avgas(&self) -> (fuel: Mass)
        requires
            self.fits_a_tank(),
        ensures
            fuel matches Mass::Avgas(Volume::Liter(l)) && l == kilo_to_liters(
                self.kilograms(),
                AVGAS_KG_PER_100_LITERS as int,
            ),
            fuel.kilograms() == self.kilograms(),
            fuel.fits_a_tank(),
    {
        proof {
            lemma_kilo_liter_round_trip(self.kilograms(), AVGAS_KG_PER_100_LITERS as int);
            lemma_floor_div_bounds((self.kilograms() + 1) * 100 - 1, AVGAS_KG_PER_100_LITERS as int);
        }
        let liter = unscale_floor(self.kilo(), AVGAS_KG_PER_100_LITERS, 100);
        Mass::Avgas(Volume::Liter(liter))
    }

    /// The most litres of Mogas that weigh no more than this mass: they
    /// weigh exactly as much.
    pub fn to_mogas(&self) -> (fuel: Mass)
        requires
            self.fits_a_tank(),
        ensures
            fuel matches Mass::Mogas(Volume::Liter(l)) && l == kilo_to_liters(
                self.kilograms(),
                MOGAS_KG_PER_100_LITERS as int,
            ),
            fuel.kilograms() == self.kilograms(),
            fuel.fits_a_tank(),
    {
        proof {
            lemma_kilo_liter_round_trip(self.kilograms(), MOGAS_KG_PER_100_LITERS as int);
            lemma_floor_div_bounds((self.kilograms() + 1) * 100 - 1, MOGAS_KG_PER_100_LITERS as int);
        }
        let liter = unscale_floor(self.kilo(), MOGAS_KG_PER_100_LITERS, 100);
        Mass::Mogas(Volume::Liter(liter))
    }

    /// The unit in which the mass is given.
    pub fn unit(&self) -> (text: String)
        ensures
            text@ == self.unit_text(),
    {
        proof {
            reveal_strlit("kg");
            reveal_strlit("kg/L");
            reveal_strlit("kg/gal");
        }
        let (one, suffix): (Mass, &str) = match self {
            Mass::Kilo(_) => {
                let text = String::from_str("kg");
                assert(text@ =~= self.unit_text());
                return text;
            },
            Mass::Avgas(Volume::Liter(_)) => (Mass::Avgas(Volume::Liter(SCALE)), "kg/L"),
            Mass::Avgas(Volume::Gallon(_)) => (Mass::Avgas(Volume::Gallon(SCALE)), "kg/gal"),
            Mass::Mogas(Volume::Liter(_)) => (Mass::Mogas(Volume::Liter(SCALE)), "kg/L"),
            Mass::Mogas(Volume::Gallon(_)) => (Mass::Mogas(Volume::Gallon(SCALE)), "kg/gal"),
        };
        let mut text = format_decimal(one.kilo(), 9, 2);
        text.append(suffix);
        assert(text@ =~= self.unit_text());
        text
    }
}

/// The product of a mass and a lever arm.
#[derive(Clone, Copy, Debug, PartialEq, Eq, Structural)]
pub enum MassMoment {
    KgM(i128),
}

impl MassMoment {
    /// The moment in kilogram metres.
    pub open spec fn kilogram_meters(&self) -> int {
        match self {
            MassMoment::KgM(kgm) => *kgm as int,
        }
    }

    /// The moment in kilogram metres.
    pub fn kgm(&self) -> (kgm: i128)
        ensures
            kgm == self.kilogram_meters(),
    {
        match self {
            MassMoment::KgM(kgm) => *kgm,
        }
    }
}

/// A position along the longitudinal axis; positive numbers lie aft of the
/// datum.
#[derive(Clone, Copy, Debug, PartialEq, Eq, Structural)]
pub enum CenterOfGravity {
    Meter(i128),
    Millimeter(i128),
}

impl CenterOfGravity {
    /// The stored number, whatever its unit.
    pub open spec fn raw(&self) -> int {
        match self {
            CenterOfGravity::Meter(m) => *m as int,
            CenterOfGravity::Millimeter(mm) => *mm as int,
        }
    }

    /// Whether the position may enter an airplane.
    pub open spec fn spec_in_range(&self) -> bool {
        in_range(self.raw())
    }

    /// The position in metres; millimetres are divided by 1000 and rounded
    /// down.
    pub open spec fn meters(&self) -> int {
        match self {
            CenterOfGravity::Meter(m) => *m as int,
            CenterOfGravity::Millimeter(mm) => floor_div(*mm as int, 1000),
        }
    }

    /// The position in millimetres, exactly.
    pub open spec fn millimeters(&self) -> int {
        match self {
            CenterOfGravity::Meter(m) => 1000 * *m,
            CenterOfGravity::Millimeter(mm) => *mm as int,
        }
    }

    /// Whether the position may enter an airplane.
    #[verifier::when_used_as_spec(spec_in_range)]
    pub fn in_range(&self) -> (b: bool)
        ensures
            b == self.spec_in_range(),
    {
        match self {
            CenterOfGravity::Meter(m) => -LIMIT <= *m && *m <= LIMIT,
            CenterOfGravity::Millimeter(mm) => -LIMIT <= *mm && *mm <= LIMIT,
        }
    }

    /// The position in metres.
    pub fn meter(&self) -> (m: i128)
        ensures
            m == self.meters(),
    {
        match self {
            CenterOfGravity::Meter(m) => *m,
            CenterOfGravity::Millimeter(mm) => div_floor(*mm, 1000),
        }
    }

    /// The position in millimetres, exactly.
    pub fn millimeter(&self) -> (mm: i128)
        requires
            self.in_range(),
        ensures
            mm == self.millimeters(),
    {
        match self {
            CenterOfGravity::Meter(m) => 1000 * *m,
            CenterOfGravity::Millimeter(mm) => *mm,
        }
    }
}

} // verus!
