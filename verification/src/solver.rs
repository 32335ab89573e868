//! The load at one more station that brings the airplane to the edge of its
//! envelope.
//!
//! The load is worked out in kilograms: first the mass that moves the centre
//! of gravity onto one of its limits, then, where that is less, what is left
//! up to the maximum take-off weight.  A load of fuel is turned into the
//! volume that weighs those kilograms and, where the tank is smaller, cut
//! down to the tank.

use crate::airplane::{moment_views, Airplane, AirplaneView};
use crate::arith::{
    div_floor, floor_div, lemma_floor_div_bounds, lemma_floor_div_magnitude, lemma_mul_bound,
    lemma_scaled_monotone, lemma_unscaled_is_largest, unscale_floor,
};
use crate::moment::{Moment, MomentView};
use crate::totals::{lemma_sum_push, lemma_totals_fit, MAX_LOADS};
use crate::types::{FuelType, MassType, VolumeType};
use crate::units::{
    in_range, kilo_to_liters, lemma_cg_meters_bound, lemma_gallon_liter_round_trip,
    lemma_kilo_liter_round_trip, lemma_liter_gallon_round_trip, lemma_mass_bound,
    lemma_volume_bound, liters_to_gallons, liters_to_kilo, LeverArm, Mass, Volume,
    AVGAS_KG_PER_100_LITERS, MOGAS_KG_PER_100_LITERS,
};
use vstd::prelude::*;

verus! {

/// A station at least this far behind the datum, half a metre, is held
/// against the rearward limit; one before it against the forward limit.
pub const ARM_SPLIT: i128 = 500_000_000;

/// Why no load was added.
#[derive(Clone, Copy, Debug, PartialEq, Eq, Structural)]
pub enum SolveError {
    /// The station lies exactly on the limit it is held against: no load
    /// there moves the centre of gravity onto the limit.
    ArmAtLimit,
    /// The load worked out is negative.  That is so where the airplane is
    /// heavier than its maximum take-off weight, and where the centre of
    /// gravity and the station lie on the same side of the limit that the
    /// station is held against: mass at the station then moves the centre
    /// of gravity away from that limit, or cannot carry it that far.
    OutsideEnvelope,
    /// The load is larger than a quantity of an airplane may be.
    LoadOutOfRange,
}

/// The kind of load that a fuel makes.
pub open spec fn fuel_kind(fuel: FuelType) -> MassType {
    match fuel {
        FuelType::Avgas => MassType::Avgas,
        FuelType::Mogas => MassType::Mogas,
    }
}

/// The litres that `kg` kilograms of a fuel fill, and of them what goes into
/// the tank: all of them where there is no tank.
pub open spec fn filled_liters(kg: int, density: int, tank: Option<Volume>) -> int {
    let liters = kilo_to_liters(kg, density);
    match tank {
        Some(tank) if liters > tank.liters() => tank.liters(),
        _ => liters,
    }
}

/// The stored number of a load of fuel that `kg` kilograms make: the litres
/// filled, or with a tank given and gallons asked for, their gallons.
pub open spec fn fuel_raw(kg: int, density: int, unit: VolumeType, tank: Option<Volume>) -> int {
    let filled = filled_liters(kg, density, tank);
    if tank.is_some() && unit == VolumeType::Gallon {
        liters_to_gallons(filled)
    } else {
        filled
    }
}

/// The stored number of the load that `kg` kilograms make.  Plain mass is
/// stored as it is.
pub open spec fn load_raw(kg: int, kind: MassType, unit: VolumeType, tank: Option<Volume>) -> int {
    match kind {
        MassType::Kilo => kg,
        MassType::Avgas => fuel_raw(kg, AVGAS_KG_PER_100_LITERS as int, unit, tank),
        MassType::Mogas => fuel_raw(kg, MOGAS_KG_PER_100_LITERS as int, unit, tank),
    }
}

/// The load with the stored number `raw`: without a tank volume a fuel load
/// is in litres whatever unit was asked for.
pub open spec fn load_mass(raw: i128, kind: MassType, unit: VolumeType, tank: Option<Volume>) -> Mass {
    let volume = if tank.is_some() && unit == VolumeType::Gallon {
        Volume::Gallon(raw)
    } else {
        Volume::Liter(raw)
    };
    match kind {
        MassType::Kilo => Mass::Kilo(raw),
        MassType::Avgas => Mass::Avgas(volume),
        MassType::Mogas => Mass::Mogas(volume),
    }
}

/// Whether the tank holds less than the fuel that `kg` kilograms make.
pub open spec fn tank_cuts(kg: int, kind: MassType, tank: Option<Volume>) -> bool {
    match (kind, tank) {
        (MassType::Avgas, Some(tank)) => kilo_to_liters(kg, AVGAS_KG_PER_100_LITERS as int)
            > tank.liters(),
        (MassType::Mogas, Some(tank)) => kilo_to_liters(kg, MOGAS_KG_PER_100_LITERS as int)
            > tank.liters(),
        _ => false,
    }
}

impl AirplaneView {
    /// The limit that a load at `arm` is held against, in millimetres.
    pub open spec fn binding_cg_limit(self, arm: LeverArm) -> int {
        if arm.meters() >= ARM_SPLIT {
            self.limits.rearward_cg_limit.millimeters()
        } else {
            self.limits.forward_cg_limit.millimeters()
        }
    }

    /// The kilograms at `arm` that move the centre of gravity exactly onto
    /// the binding limit, rounded down:
    /// `(limit * total_mass - total_mass_moment) / (arm - limit)`, with arm,
    /// limit and moment taken in millimetres.
    pub open spec fn cg_limited_mass(self, arm: LeverArm) -> int {
        let limit = self.binding_cg_limit(arm);
        floor_div(
            limit * self.total_mass() - 1000 * self.total_mass_moment(),
            1000 * arm.meters() - limit,
        )
    }

    /// The load at `arm` in kilograms: the mass that moves the centre of
    /// gravity onto the binding limit, or what is left up to the maximum
    /// take-off weight where that is less or equal.
    pub open spec fn max_added_mass(self, arm: LeverArm) -> int {
        let kg = self.cg_limited_mass(arm);
        if kg + self.total_mass() >= self.limits.mtow.kilograms() {
            self.limits.mtow.kilograms() - self.total_mass()
        } else {
            kg
        }
    }

    /// The load at `arm`, or why there is none.
    pub open spec fn max_load(
        self,
        arm: LeverArm,
        kind: MassType,
        unit: VolumeType,
        tank: Option<Volume>,
    ) -> Result<Mass, SolveError> {
        let raw = load_raw(self.max_added_mass(arm), kind, unit, tank);
        if 1000 * arm.meters() == self.binding_cg_limit(arm) {
            Err(SolveError::ArmAtLimit)
        } else if self.max_added_mass(arm) < 0 {
            Err(SolveError::OutsideEnvelope)
        } else if !in_range(raw) {
            Err(SolveError::LoadOutOfRange)
        } else {
            Ok(load_mass(raw as i128, kind, unit, tank))
        }
    }
}

/// The airplane with the load `mass`, named `name`, added at `arm`.
pub open spec fn with_load(
    plane: AirplaneView,
    name: Seq<char>,
    arm: LeverArm,
    mass: Mass,
) -> AirplaneView {
    AirplaneView {
        moments: plane.moments.push(MomentView { name, lever_arm: arm, mass }),
        ..plane
    }
}

/// What a load made from `kg` kilograms weighs and holds.
///
/// It never weighs more than `kg`.  Plain mass, and fuel in litres that no
/// tank cuts, weigh `kg` exactly.  Fuel that the tank cuts is the tank: its
/// litres, or with gallons asked for its gallons, which for a tank given in
/// gallons are the number it was given with.
pub proof fn lemma_load_weight(kg: int, kind: MassType, unit: VolumeType, tank: Option<Volume>)
    requires
        in_range(load_raw(kg, kind, unit, tank)),
    ensures
        ({
            let load = load_mass(load_raw(kg, kind, unit, tank) as i128, kind, unit, tank);
            &&& load.kilograms() <= kg
            &&& !tank_cuts(kg, kind, tank) && (unit == VolumeType::Liter || tank.is_none())
                ==> load.kilograms() == kg
            &&& tank_cuts(kg, kind, tank) && unit == VolumeType::Liter ==> load.raw()
                == tank.unwrap().liters()
            &&& tank_cuts(kg, kind, tank) && unit == VolumeType::Gallon ==> load.raw()
                == tank.unwrap().gallons()
        }),
{
    if kind != MassType::Kilo {
        let d = if kind == MassType::Avgas {
            AVGAS_KG_PER_100_LITERS as int
        } else {
            MOGAS_KG_PER_100_LITERS as int
        };
        let liters = kilo_to_liters(kg, d);
        let filled = filled_liters(kg, d, tank);
        lemma_kilo_liter_round_trip(kg, d);
        lemma_liter_gallon_round_trip(filled);
        lemma_scaled_monotone(filled, liters, d, 100);
        lemma_scaled_monotone(
            crate::units::gallons_to_liters(liters_to_gallons(filled)),
            filled,
            d,
            100,
        );
        if let Some(Volume::Gallon(g)) = tank {
            lemma_gallon_liter_round_trip(g as int);
        }
    }
}

/// The load never lifts the airplane above its maximum take-off weight.
pub proof fn lemma_max_load_within_mtow(
    plane: AirplaneView,
    name: Seq<char>,
    arm: LeverArm,
    kind: MassType,
    unit: VolumeType,
    tank: Option<Volume>,
)
    requires
        plane.max_load(arm, kind, unit, tank) is Ok,
    ensures
        ({
            let mass = plane.max_load(arm, kind, unit, tank)->Ok_0;
            &&& mass.kilograms() <= plane.max_added_mass(arm)
            &&& plane.total_mass() + mass.kilograms() <= plane.limits.mtow.kilograms()
            &&& with_load(plane, name, arm, mass).total_mass() <= plane.limits.mtow.kilograms()
        }),
{
    let mass = plane.max_load(arm, kind, unit, tank)->Ok_0;
    lemma_load_weight(plane.max_added_mass(arm), kind, unit, tank);
    lemma_sum_push(
        plane.moments,
        MomentView { name, lever_arm: arm, mass },
        |m: MomentView| m.kilograms(),
    );
}

/// The load does not carry the centre of gravity past the limit it is held
/// against: with a station behind that limit the centre of gravity ends at
/// or before it, with a station before it at or behind it.  Moment and limit
/// are in millimetres.
pub proof fn lemma_max_load_respects_binding_limit(
    plane: AirplaneView,
    name: Seq<char>,
    arm: LeverArm,
    kind: MassType,
    unit: VolumeType,
    tank: Option<Volume>,
)
    requires
        plane.max_load(arm, kind, unit, tank) is Ok,
    ensures
        ({
            let mass = plane.max_load(arm, kind, unit, tank)->Ok_0;
            let loaded = with_load(plane, name, arm, mass);
            let limit = plane.binding_cg_limit(arm);
            &&& 1000 * arm.meters() > limit ==> 1000 * loaded.total_mass_moment() <= limit
                * loaded.total_mass()
            &&& 1000 * arm.meters() < limit ==> 1000 * loaded.total_mass_moment() >= limit
                * loaded.total_mass()
        }),
{
    let mass = plane.max_load(arm, kind, unit, tank)->Ok_0;
    let load = MomentView { name, lever_arm: arm, mass };
    let limit = plane.binding_cg_limit(arm);
    let total = plane.total_mass();
    let moment = plane.total_mass_moment();
    let a = arm.meters();
    let d = 1000 * a - limit;
    let kg = mass.kilograms();
    let most = plane.cg_limited_mass(arm);
    lemma_max_load_within_mtow(plane, name, arm, kind, unit, tank);
    lemma_sum_push(plane.moments, load, |m: MomentView| m.kilograms());
    lemma_sum_push(plane.moments, load, |m: MomentView| m.kilogram_meters());
    lemma_floor_div_bounds(limit * total - 1000 * moment, d);
    assert(kg <= most);
    if d > 0 {
        assert(1000 * (moment + kg * a) <= limit * (total + kg)) by (nonlinear_arith)
            requires
                d > 0,
                d == 1000 * a - limit,
                kg <= most,
                most * d <= limit * total - 1000 * moment,
        ;
    } else {
        assert(1000 * (moment + kg * a) >= limit * (total + kg)) by (nonlinear_arith)
            requires
                d < 0,
                d == 1000 * a - limit,
                kg <= most,
                limit * total - 1000 * moment <= most * d,
        ;
    }
}

/// Fuel is lighter than a kilogram per litre: it fills at least as many
/// litres as it weighs kilograms, and fewer than twice as many.
pub proof fn lemma_fuel_fills_more_liters(kg: int, density: int)
    requires
        0 <= kg,
        50 < density <= 100,
    ensures
        kg <= kilo_to_liters(kg, density) <= 2 * kg + 1,
{
    lemma_unscaled_is_largest(kg, kg, density, 100);
    lemma_floor_div_bounds(kg * density, 100);
    let q = liters_to_kilo(kg, density);
    assert(q <= kg) by (nonlinear_arith)
        requires
            q * 100 <= kg * density,
            0 <= kg,
            0 < density <= 100,
    ;
    let l = kilo_to_liters(kg, density);
    lemma_floor_div_bounds((kg + 1) * 100 - 1, density);
    assert(l <= 2 * kg + 1) by (nonlinear_arith)
        requires
            l * density <= (kg + 1) * 100 - 1,
            50 < density,
            0 <= kg,
    ;
}

/// No tank in range holds more litres than this.
pub const LARGEST_TANK: i128 = 400_000_000_000_000;

impl Airplane {
    /// The load at `arm` in kilograms.
    fn max_added_mass(&self, arm: &LeverArm) -> (kg: Result<i128, SolveError>)
        requires
            self@.in_range(),
            arm.in_range(),
        ensures
            match kg {
                Ok(kg) => {
                    &&& 1000 * arm.meters() != self@.binding_cg_limit(*arm)
                    &&& kg == self@.max_added_mass(*arm)
                    &&& 0 <= kg
                },
                Err(SolveError::ArmAtLimit) => 1000 * arm.meters() == self@.binding_cg_limit(
                    *arm,
                ),
                Err(SolveError::OutsideEnvelope) => {
                    &&& 1000 * arm.meters() != self@.binding_cg_limit(*arm)
                    &&& self@.max_added_mass(*arm) < 0
                },
                Err(SolveError::LoadOutOfRange) => false,
            },
    {
        proof {
            lemma_cg_meters_bound(self@.limits.rearward_cg_limit);
            lemma_cg_meters_bound(self@.limits.forward_cg_limit);
        }
        let arm_mm = 1000 * arm.meter();
        let cg_limit = if arm.meter() >= ARM_SPLIT {
            self.limits().rearward_cg_limit().millimeter()
        } else {
            self.limits().forward_cg_limit().millimeter()
        };
        if arm_mm == cg_limit {
            return Err(SolveError::ArmAtLimit);
        }
        let mass = self.total_mass().kilo();
        let moment = self.total_mass_moment().kgm();
        proof {
            lemma_totals_fit(self@.moments);
            lemma_mass_bound(self@.limits.mtow);
            lemma_mul_bound(
                cg_limit as int,
                mass as int,
                100_000_000_000_000_000,
                300_000_000_000_000_000_000,
            );
            lemma_floor_div_magnitude(
                cg_limit * mass - 1000 * moment,
                arm_mm - cg_limit,
                60_000_000_000_000_000_000_000_000_000_000_000_000,
            );
        }
        let kg_max_mass = div_floor(cg_limit * mass - 1000 * moment, arm_mm - cg_limit);
        let mtow = self.limits().mtow().kilo();
        let kg = if kg_max_mass + mass >= mtow {
            mtow - mass
        } else {
            kg_max_mass
        };
        if kg < 0 {
            Err(SolveError::OutsideEnvelope)
        } else {
            Ok(kg)
        }
    }

    /// The load at `arm`, or why there is none.
    fn max_load(
        &self,
        arm: &LeverArm,
        kind: MassType,
        unit: VolumeType,
        max_volume: Option<Volume>,
    ) -> (load: Result<Mass, SolveError>)
        requires
            self@.in_range(),
            arm.in_range(),
            max_volume matches Some(v) ==> v.in_range(),
        ensures
            load == self@.max_load(*arm, kind, unit, max_volume),
    {
        let kg = match self.max_added_mass(arm) {
            Ok(kg) => kg,
            Err(e) => {
                return Err(e);
            },
        };
        let max_mass = Mass::Kilo(kg);
        let fuel_density = match kind {
            MassType::Kilo => {
                return if max_mass.in_range() {
                    Ok(max_mass)
                } else {
                    Err(SolveError::LoadOutOfRange)
                };
            },
            MassType::Avgas => AVGAS_KG_PER_100_LITERS,
            MassType::Mogas => MOGAS_KG_PER_100_LITERS,
        };
        proof {
            lemma_fuel_fills_more_liters(kg as int, fuel_density as int);
        }
        let volume = match max_volume {
            None => {
                if kg > LARGEST_TANK {
                    return Err(SolveError::LoadOutOfRange);
                }
                Volume::Liter(unscale_floor(kg, fuel_density, 100))
            },
            Some(max_volume) => {
                proof {
                    lemma_volume_bound(max_volume);
                }
                let tank_liter = max_volume.to_liter();
                let volume_liter = if kg > LARGEST_TANK {
                    tank_liter
                } else {
                    let liter = unscale_floor(kg, fuel_density, 100);
                    if liter > tank_liter {
                        tank_liter
                    } else {
                        liter
                    }
                };
                match unit {
                    VolumeType::Liter => Volume::Liter(volume_liter),
                    VolumeType::Gallon => Volume::Gallon(
                        Volume::Liter(volume_liter).to_gallon(),
                    ),
                }
            },
        };
        if !volume.in_range() {
            return Err(SolveError::LoadOutOfRange);
        }
        match kind {
            MassType::Mogas => Ok(Mass::Mogas(volume)),
            _ => Ok(Mass::Avgas(volume)),
        }
    }

    /// Adds the load that `load` describes and hands it back.
    fn add_load(&mut self, name: String, arm: LeverArm, load: Mass) -> (added: &Moment)
        requires
            old(self)@.in_range(),
            old(self)@.moments.len() < MAX_LOADS,
            arm.in_range(),
            load.in_range(),
        ensures
            added@ == (MomentView { name: name@, lever_arm: arm, mass: load }),
            final(self)@ == with_load(old(self)@, name@, arm, load),
            final(self)@.in_range(),
    {
        let moment = Moment::new(name, arm, load);
        self.add_moment(moment);
        let moments = self.moments();
        let n = moments.len();
        assert(self@.moments.len() == n);
        assert(moment_views(moments@)[n - 1] == moments@[n - 1]@);
        &moments[n - 1]
    }

    /// Works out the load of the given kind at `arm` that brings the
    /// airplane to the edge of its envelope, adds it and hands it back.
    ///
    /// A load of fuel is in litres.  Where `max_volume` is given, the load is
    /// no larger than that volume; plain mass has no volume, and
    /// `max_volume` is not looked at.  The airplane has to have room for one
    /// more load.
    pub fn add_max_mass_within_limits(
        &mut self,
        name: String,
        arm: LeverArm,
        kind: MassType,
        max_volume: Option<Volume>,
    ) -> (added: Result<&Moment, SolveError>)
        requires
            old(self)@.in_range(),
            old(self)@.moments.len() < MAX_LOADS,
            arm.in_range(),
            max_volume matches Some(v) ==> v.in_range(),
        ensures
            match added {
                Ok(moment) => {
                    &&& old(self)@.max_load(arm, kind, VolumeType::Liter, max_volume) == Ok::<
                        Mass,
                        SolveError,
                    >(moment@.mass)
                    &&& moment@.name == name@
                    &&& moment@.lever_arm == arm
                    &&& final(self)@ == with_load(old(self)@, name@, arm, moment@.mass)
                    &&& final(self)@.in_range()
                    &&& final(self)@.total_mass() <= final(self)@.limits.mtow.kilograms()
                    &&& moment@.mass.kilograms() <= old(self)@.max_added_mass(arm)
                    &&& !tank_cuts(old(self)@.max_added_mass(arm), kind, max_volume)
                        ==> moment@.mass.kilograms() == old(self)@.max_added_mass(arm)
                    &&& tank_cuts(old(self)@.max_added_mass(arm), kind, max_volume)
                        ==> moment@.mass.raw() == max_volume.unwrap().liters()
                },
                Err(e) => {
                    &&& old(self)@.max_load(arm, kind, VolumeType::Liter, max_volume) == Err::<
                        Mass,
                        SolveError,
                    >(e)
                    &&& final(self)@ == old(self)@
                },
            },
    {
        match self.max_load(&arm, kind, VolumeType::Liter, max_volume) {
            Ok(load) => {
                proof {
                    lemma_max_load_within_mtow(
                        self@,
                        name@,
                        arm,
                        kind,
                        VolumeType::Liter,
                        max_volume,
                    );
                    lemma_load_weight(
                        self@.max_added_mass(arm),
                        kind,
                        VolumeType::Liter,
                        max_volume,
                    );
                }
                Ok(self.add_load(name, arm, load))
            },
            Err(e) => Err(e),
        }
    }

    /// Works out the load of fuel at `arm` that brings the airplane to the
    /// edge of its envelope, adds it and hands it back.
    ///
    /// Where `max_volume` is given, the load is no larger than that volume
    /// and is kept in the unit `volume`; without it the load is in litres.
    /// The airplane has to have room for one more load.
    pub fn add_max_fuel_within_limits(
        &mut self,
        name: String,
        arm: LeverArm,
        fuel: FuelType,
        volume: VolumeType,
        max_volume: Option<Volume>,
    ) -> (added: Result<&Moment, SolveError>)
        requires
            old(self)@.in_range(),
            old(self)@.moments.len() < MAX_LOADS,
            arm.in_range(),
            max_volume matches Some(v) ==> v.in_range(),
        ensures
            match added {
                Ok(moment) => {
                    &&& old(self)@.max_load(arm, fuel_kind(fuel), volume, max_volume) == Ok::<
                        Mass,
                        SolveError,
                    >(moment@.mass)
                    &&& moment@.name == name@
                    &&& moment@.lever_arm == arm
                    &&& final(self)@ == with_load(old(self)@, name@, arm, moment@.mass)
                    &&& final(self)@.in_range()
                    &&& final(self)@.total_mass() <= final(self)@.limits.mtow.kilograms()
                    &&& moment@.mass.kilograms() <= old(self)@.max_added_mass(arm)
                    &&& max_volume.is_none() ==> moment@.mass.kilograms() == old(
                        self,
                    )@.max_added_mass(arm)
                    &&& !tank_cuts(old(self)@.max_added_mass(arm), fuel_kind(fuel), max_volume)
                        && volume == VolumeType::Liter ==> moment@.mass.kilograms() == old(
                        self,
                    )@.max_added_mass(arm)
                    &&& tank_cuts(old(self)@.max_added_mass(arm), fuel_kind(fuel), max_volume)
                        ==> moment@.mass.raw() == match volume {
                        VolumeType::Liter => max_volume.unwrap().liters(),
                        VolumeType::Gallon => max_volume.unwrap().gallons(),
                    }
                },
                Err(e) => {
                    &&& old(self)@.max_load(arm, fuel_kind(fuel), volume, max_volume) == Err::<
                        Mass,
                        SolveError,
                    >(e)
                    &&& final(self)@ == old(self)@
                },
            },
    {
        let kind = match fuel {
            FuelType::Mogas => MassType::Mogas,
            FuelType::Avgas => MassType::Avgas,
        };
        match self.max_load(&arm, kind, volume, max_volume) {
            Ok(load) => {
                proof {
                    lemma_max_load_within_mtow(self@, name@, arm, kind, volume, max_volume);
                    lemma_load_weight(self@.max_added_mass(arm), kind, volume, max_volume);
                }
                Ok(self.add_load(name, arm, load))
            },
            Err(e) => Err(e),
        }
    }
}

} // verus!
