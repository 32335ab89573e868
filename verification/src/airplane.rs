//! The airplane: its loads, its envelope, and what follows from them.

use crate::arith::{div_floor, floor_div, lemma_floor_div_bounds, lemma_mul_bound};
use crate::limits::{Limits, LimitsView};
use crate::moment::{Moment, MomentView};
use crate::totals::{
    all_in_range, lemma_sum_push, lemma_total_kilogram_meters_any_order,
    lemma_total_kilograms_any_order, lemma_totals_fit, total_kilogram_meters, total_kilograms,
    MAX_LOADS,
};
use crate::units::{
    lemma_cg_meters_bound, lemma_mass_bound, lemma_volume_bound, liters_to_kilo, CenterOfGravity,
    Mass, MassMoment, Volume, AVGAS_KG_PER_100_LITERS, MOGAS_KG_PER_100_LITERS,
};
use vstd::prelude::*;

verus! {

/// An airplane with its loads in the order in which they were added.
pub struct Airplane {
    callsign: String,
    moments: Vec<Moment>,
    limits: Limits,
    fuel_consumption_trip: Volume,
}

/// What an `Airplane` holds.
pub ghost struct AirplaneView {
    pub callsign: Seq<char>,
    pub moments: Seq<MomentView>,
    pub limits: LimitsView,
    pub fuel_consumption_trip: Volume,
}

/// Whether `moment / mass` is at most `limit`.  A zero mass has no such
/// ratio, and the answer is no.
pub open spec fn ratio_at_most(moment: int, mass: int, limit: int) -> bool {
    (mass > 0 && moment <= limit * mass) || (mass < 0 && moment >= limit * mass)
}

/// Whether `moment / mass` is at least `limit`.  A zero mass has no such
/// ratio, and the answer is no.
pub open spec fn ratio_at_least(moment: int, mass: int, limit: int) -> bool {
    (mass > 0 && moment >= limit * mass) || (mass < 0 && moment <= limit * mass)
}

/// What each of the loads holds.
pub open spec fn moment_views(moments: Seq<Moment>) -> Seq<MomentView> {
    moments.map_values(|m: Moment| m@)
}

impl AirplaneView {
    /// Whether the airplane is in range: it carries no more than `MAX_LOADS`
    /// loads, and every quantity of it is in range.  All that is computed
    /// of an airplane is computed of one in range.
    pub open spec fn in_range(self) -> bool {
        &&& self.moments.len() <= MAX_LOADS
        &&& all_in_range(self.moments)
        &&& self.limits.in_range()
        &&& self.fuel_consumption_trip.in_range()
    }

    /// The kilograms of all loads together.
    pub open spec fn total_mass(self) -> int {
        total_kilograms(self.moments)
    }

    /// The mass moments of all loads together.
    pub open spec fn total_mass_moment(self) -> int {
        total_kilogram_meters(self.moments)
    }

    /// The centre of gravity in metres, rounded down: the total mass moment
    /// divided by the total mass.  An airplane without mass has none.
    pub open spec fn center_of_gravity(self) -> Option<int> {
        if self.total_mass() == 0 {
            None
        } else {
            Some(floor_div(self.total_mass_moment(), self.total_mass()))
        }
    }

    /// Whether the airplane is inside its envelope: no heavier than the
    /// maximum take-off weight, and the exact centre of gravity neither
    /// behind the rearward nor before the forward limit.  All three bounds
    /// are inclusive, and nothing is rounded: the centre of gravity in
    /// millimetres, `1000 * total_mass_moment / total_mass`, is held against
    /// the limits in millimetres.
    pub open spec fn within_limits(self) -> bool {
        &&& self.total_mass() <= self.limits.mtow.kilograms()
        &&& ratio_at_most(
            1000 * self.total_mass_moment(),
            self.total_mass(),
            self.limits.rearward_cg_limit.millimeters(),
        )
        &&& ratio_at_least(
            1000 * self.total_mass_moment(),
            self.total_mass(),
            self.limits.forward_cg_limit.millimeters(),
        )
    }

    /// Whether the last load is fuel.
    pub open spec fn ends_with_fuel(self) -> bool {
        self.moments.len() > 0 && !(self.moments.last().mass is Kilo)
    }

    /// The kilograms of fuel left in the last load when the trip's
    /// consumption, in litres, has been burned from it.  Nothing burns from
    /// plain mass.
    pub open spec fn landing_fuel_kilograms(self) -> int {
        let burned = self.fuel_consumption_trip.liters();
        match self.moments.last().mass {
            Mass::Avgas(v) => liters_to_kilo(v.liters() - burned, AVGAS_KG_PER_100_LITERS as int),
            Mass::Mogas(v) => liters_to_kilo(v.liters() - burned, MOGAS_KG_PER_100_LITERS as int),
            Mass::Kilo(kg) => kg as int,
        }
    }

    /// The total mass at landing: every load but the last as it is, and of
    /// the last what the trip has left.
    pub open spec fn total_mass_landing(self) -> int {
        total_kilograms(self.moments.drop_last()) + self.landing_fuel_kilograms()
    }

    /// The total mass moment at landing.
    pub open spec fn total_mass_moment_landing(self) -> int {
        total_kilogram_meters(self.moments.drop_last()) + self.landing_fuel_kilograms()
            * self.moments.last().lever_arm.meters()
    }
}

/// Totals, centre of gravity and whether the airplane is inside its
/// envelope do not depend on the order of the loads.
pub proof fn lemma_order_of_loads_is_immaterial(a: AirplaneView, b: AirplaneView)
    requires
        a.moments.to_multiset() == b.moments.to_multiset(),
        a.limits == b.limits,
    ensures
        a.total_mass() == b.total_mass(),
        a.total_mass_moment() == b.total_mass_moment(),
        a.center_of_gravity() == b.center_of_gravity(),
        a.within_limits() == b.within_limits(),
{
    lemma_total_kilograms_any_order(a.moments, b.moments);
    lemma_total_kilogram_meters_any_order(a.moments, b.moments);
}

impl View for Airplane {
    type V = AirplaneView;

    closed spec fn view(&self) -> AirplaneView {
        AirplaneView {
            callsign: self.callsign@,
            moments: moment_views(self.moments@),
            limits: self.limits@,
            fuel_consumption_trip: self.fuel_consumption_trip,
        }
    }
}

impl Airplane {
    /// An airplane with the given loads, envelope and fuel consumption of
    /// the trip.  Nothing is held against anything here.
    pub fn new(
        callsign: String,
        moments: Vec<Moment>,
        limits: Limits,
        fuel_consumption_trip: Volume,
    ) -> (plane: Airplane)
        ensures
            plane@ == (AirplaneView {
                callsign: callsign@,
                moments: moment_views(moments@),
                limits: limits@,
                fuel_consumption_trip,
            }),
    {
        Airplane { callsign, moments, limits, fuel_consumption_trip }
    }

    /// The envelope of the airplane.
    pub fn limits(&self) -> (limits: &Limits)
        ensures
            limits@ == self@.limits,
    {
        &self.limits
    }

    /// The registration under which the airplane flies.
    pub fn callsign(&self) -> (callsign: &String)
        ensures
            callsign@ == self@.callsign,
    {
        &self.callsign
    }

    /// The loads in the order in which they were added.
    pub fn moments(&self) -> (moments: &Vec<Moment>)
        ensures
            moment_views(moments@) == self@.moments,
    {
        &self.moments
    }

    /// The volume of fuel that the trip burns.
    pub fn fuel_consumption_trip(&self) -> (volume: &Volume)
        ensures
            *volume == self@.fuel_consumption_trip,
    {
        &self.fuel_consumption_trip
    }

    /// Whether every quantity of the airplane is in range.
    pub fn in_range(&self) -> (b: bool)
        ensures
            b == self@.in_range(),
    {
        if self.moments.len() > MAX_LOADS || !self.limits.in_range()
            || !self.fuel_consumption_trip.in_range() {
            return false;
        }
        let ghost loads = self@.moments;
        let n = self.moments.len();
        let mut i: usize = 0;
        while i < n
            invariant
                i <= n == self.moments.len(),
                loads == moment_views(self.moments@),
                all_in_range(loads.take(i as int)),
            decreases n - i,
        {
            if !self.moments[i].in_range() {
                assert(!loads[i as int].in_range());
                return false;
            }
            assert forall|j: int| 0 <= j < i + 1 implies (#[trigger] loads.take(
                i + 1,
            )[j]).in_range() by {
                if j < i {
                    assert(loads.take(i as int)[j].in_range());
                }
            }
            i = i + 1;
        }
        assert(loads.take(n as int) =~= loads);
        true
    }

    /// Adds a load behind the others, whatever it is: it is not held
    /// against the envelope.
    pub fn add_moment(&mut self, moment: Moment)
        ensures
            final(self)@ == (AirplaneView {
                moments: old(self)@.moments.push(moment@),
                ..old(self)@
            }),
    {
        self.moments.push(moment);
        assert(moment_views(self.moments@) =~= moment_views(old(self).moments@).push(moment@));
    }

    /// The kilograms of all loads together.
    pub fn total_mass(&self) -> (mass: Mass)
        requires
            self@.in_range(),
        ensures
            mass == Mass::Kilo(self@.total_mass() as i128),
            mass.kilograms() == self@.total_mass(),
            mass.convertible(),
    {
        let ghost loads = self@.moments;
        let n = self.moments.len();
        let mut sum: i128 = 0;
        let mut i: usize = 0;
        while i < n
            invariant
                i <= n == self.moments.len(),
                loads == moment_views(self.moments@),
                all_in_range(loads),
                sum == total_kilograms(loads.take(i as int)),
                -300_000_000_000_000 * i <= sum <= 300_000_000_000_000 * i,
                n <= MAX_LOADS,
            decreases n - i,
        {
            let kg = {
                proof {
                    lemma_mass_bound(loads[i as int].mass);
                }
                self.moments[i].mass().kilo()
            };
            proof {
                assert(loads.take(i + 1) =~= loads.take(i as int).push(loads[i as int]));
                lemma_sum_push(
                    loads.take(i as int),
                    loads[i as int],
                    |m: MomentView| m.kilograms(),
                );
            }
            sum = sum + kg;
            i = i + 1;
        }
        assert(loads.take(n as int) =~= loads);
        Mass::Kilo(sum)
    }

    /// The mass moments of all loads together.
    pub fn total_mass_moment(&self) -> (moment: MassMoment)
        requires
            self@.in_range(),
        ensures
            moment == MassMoment::KgM(self@.total_mass_moment() as i128),
            moment.kilogram_meters() == self@.total_mass_moment(),
    {
        let ghost loads = self@.moments;
        let n = self.moments.len();
        let mut sum: i128 = 0;
        let mut i: usize = 0;
        while i < n
            invariant
                i <= n == self.moments.len(),
                loads == moment_views(self.moments@),
                all_in_range(loads),
                sum == total_kilogram_meters(loads.take(i as int)),
                -30_000_000_000_000_000_000_000_000_000 * i <= sum
                    <= 30_000_000_000_000_000_000_000_000_000 * i,
                n <= MAX_LOADS,
            decreases n - i,
        {
            let kgm = self.moments[i].total().kgm();
            proof {
                lemma_mass_bound(loads[i as int].mass);
                lemma_mul_bound(
                    loads[i as int].mass.kilograms(),
                    loads[i as int].lever_arm.meters(),
                    300_000_000_000_000,
                    100_000_000_000_000,
                );
                assert(loads.take(i + 1) =~= loads.take(i as int).push(loads[i as int]));
                lemma_sum_push(
                    loads.take(i as int),
                    loads[i as int],
                    |m: MomentView| m.kilogram_meters(),
                );
            }
            sum = sum + kgm;
            i = i + 1;
        }
        assert(loads.take(n as int) =~= loads);
        MassMoment::KgM(sum)
    }

    /// The centre of gravity, in metres and rounded down; none for an
    /// airplane without mass.
    pub fn center_of_gravity(&self) -> (cg: Option<CenterOfGravity>)
        requires
            self@.in_range(),
        ensures
            match cg {
                Some(cg) => self@.center_of_gravity() == Some(cg.meters()) && cg is Meter,
                None => self@.center_of_gravity().is_none(),
            },
    {
        let kg_mass = self.total_mass().kilo();
        let kgm_moment = self.total_mass_moment().kgm();
        proof {
            lemma_totals_fit(self@.moments);
        }
        if kg_mass == 0 {
            None
        } else {
            Some(CenterOfGravity::Meter(div_floor(kgm_moment, kg_mass)))
        }
    }

    /// Whether the airplane is inside its envelope.
    pub fn within_limits(&self) -> (inside: bool)
        requires
            self@.in_range(),
        ensures
            inside == self@.within_limits(),
    {
        let mass = self.total_mass().kilo();
        let moment = self.total_mass_moment().kgm();
        proof {
            lemma_mass_bound(self@.limits.mtow);
        }
        let mtow = self.limits.mtow().kilo();
        let rearward = self.limits.rearward_cg_limit().millimeter();
        let forward = self.limits.forward_cg_limit().millimeter();
        proof {
            lemma_totals_fit(self@.moments);
            lemma_cg_meters_bound(self@.limits.rearward_cg_limit);
            lemma_cg_meters_bound(self@.limits.forward_cg_limit);
            lemma_mul_bound(
                rearward as int,
                mass as int,
                100_000_000_000_000_000,
                300_000_000_000_000_000_000,
            );
            lemma_mul_bound(
                forward as int,
                mass as int,
                100_000_000_000_000_000,
                300_000_000_000_000_000_000,
            );
        }
        let moment = 1000 * moment;
        let aft = rearward * mass;
        let fore = forward * mass;
        let behind_ok = (mass > 0 && moment <= aft) || (mass < 0 && moment >= aft);
        let before_ok = (mass > 0 && moment >= fore) || (mass < 0 && moment <= fore);
        mass <= mtow && behind_ok && before_ok
    }

    /// The fuel of the last load less what the trip burns, in litres.
    fn landing_fuel(&self) -> (fuel: Mass)
        requires
            self@.in_range(),
            self@.ends_with_fuel(),
        ensures
            fuel.kilograms() == self@.landing_fuel_kilograms(),
            -900_000_000_000_000 <= fuel.raw() <= 900_000_000_000_000,
            -900_000_000_000_000 <= fuel.kilograms() <= 900_000_000_000_000,
    {
        let n = self.moments.len();
        let fuel_moment = &self.moments[n - 1];
        proof {
            assert(self@.moments.last() == fuel_moment@);
            lemma_mass_bound(fuel_moment@.mass);
            lemma_volume_bound(self@.fuel_consumption_trip);
        }
        let burned = self.fuel_consumption_trip.to_liter();
        let fuel = match fuel_moment.mass() {
            Mass::Mogas(v) => Mass::Mogas(Volume::Liter(v.to_liter() - burned)),
            Mass::Avgas(v) => Mass::Avgas(Volume::Liter(v.to_liter() - burned)),
            Mass::Kilo(_) => vstd::pervasive::unreached(),
        };
        proof {
            lemma_floor_div_bounds(fuel.raw() * AVGAS_KG_PER_100_LITERS, 100);
            lemma_floor_div_bounds(fuel.raw() * MOGAS_KG_PER_100_LITERS, 100);
        }
        fuel
    }

    /// The total mass moment at landing, when the trip's fuel has been
    /// burned from the last load, which has to be fuel.
    pub fn total_mass_moment_landing(&self) -> (moment: MassMoment)
        requires
            self@.in_range(),
            self@.ends_with_fuel(),
        ensures
            moment == MassMoment::KgM(self@.total_mass_moment_landing() as i128),
            moment.kilogram_meters() == self@.total_mass_moment_landing(),
    {
        let n = self.moments.len();
        let fuel_moment = &self.moments[n - 1];
        let ghost loads = self@.moments;
        proof {
            assert(loads.last() == fuel_moment@);
            assert(loads.drop_last().push(loads.last()) =~= loads);
            lemma_sum_push(
                loads.drop_last(),
                loads.last(),
                |m: MomentView| m.kilogram_meters(),
            );
            lemma_totals_fit(loads);
            lemma_mass_bound(loads.last().mass);
        }
        let fuel_kgm = fuel_moment.total().kgm();
        proof {
            lemma_mul_bound(
                loads.last().mass.kilograms(),
                loads.last().lever_arm.meters(),
                300_000_000_000_000,
                100_000_000_000_000,
            );
        }
        let mass_moment_without_fuel = self.total_mass_moment().kgm() - fuel_kgm;
        let kg = self.landing_fuel().kilo();
        let m = fuel_moment.lever_arm().meter();
        proof {
            lemma_mul_bound(kg as int, m as int, 900_000_000_000_000, 100_000_000_000_000);
        }
        MassMoment::KgM(mass_moment_without_fuel + kg * m)
    }

    /// The total mass at landing, when the trip's fuel has been burned from
    /// the last load, which has to be fuel.
    pub fn total_mass_landing(&self) -> (mass: Mass)
        requires
            self@.in_range(),
            self@.ends_with_fuel(),
        ensures
            mass == Mass::Kilo(self@.total_mass_landing() as i128),
            mass.kilograms() == self@.total_mass_landing(),
            mass.convertible(),
    {
        let n = self.moments.len();
        let fuel_moment = &self.moments[n - 1];
        let ghost loads = self@.moments;
        proof {
            assert(loads.last() == fuel_moment@);
            assert(loads.drop_last().push(loads.last()) =~= loads);
            lemma_sum_push(loads.drop_last(), loads.last(), |m: MomentView| m.kilograms());
            lemma_totals_fit(loads);
            lemma_mass_bound(loads.last().mass);
        }
        let mass_without_fuel = self.total_mass().kilo() - fuel_moment.mass().kilo();
        let kg = self.landing_fuel().kilo();
        Mass::Kilo(mass_without_fuel + kg)
    }
}

} // verus!
