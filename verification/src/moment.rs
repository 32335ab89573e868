//! A named load at a station.

use crate::arith::lemma_mul_bound;
use crate::units::{lemma_mass_bound, LeverArm, Mass, MassMoment};
use vstd::prelude::*;

verus! {

/// A named load: a mass at a distance from the datum.
pub struct Moment {
    name: String,
    lever_arm: LeverArm,
    mass: Mass,
}

/// What a `Moment` holds.
pub ghost struct MomentView {
    pub name: Seq<char>,
    pub lever_arm: LeverArm,
    pub mass: Mass,
}

impl MomentView {
    /// Whether arm and mass may enter an airplane.
    pub open spec fn in_range(self) -> bool {
        self.lever_arm.in_range() && self.mass.in_range()
    }

    /// The load in kilograms.
    pub open spec fn kilograms(self) -> int {
        self.mass.kilograms()
    }

    /// The load's mass moment: its kilograms times the metres of its arm.
    pub open spec fn kilogram_meters(self) -> int {
        self.mass.kilograms() * self.lever_arm.meters()
    }
}

impl View for Moment {
    type V = MomentView;

    closed spec fn view(&self) -> MomentView {
        MomentView { name: self.name@, lever_arm: self.lever_arm, mass: self.mass }
    }
}

impl Clone for Moment {
    fn clone(&self) -> (copy: Moment)
        ensures
            copy@ == self@,
    {
        Moment { name: self.name.clone(), lever_arm: self.lever_arm, mass: self.mass }
    }
}

impl Moment {
    /// A load of the given name, arm and mass; none of them is checked.
    pub fn new(name: String, lever_arm: LeverArm, mass: Mass) -> (moment: Moment)
        ensures
            moment@ == (MomentView { name: name@, lever_arm, mass }),
    {
        Moment { name, lever_arm, mass }
    }

    /// Where the load sits.
    pub fn lever_arm(&self) -> (arm: &LeverArm)
        ensures
            *arm == self@.lever_arm,
    {
        &self.lever_arm
    }

    /// What the load weighs.
    pub fn mass(&self) -> (mass: &Mass)
        ensures
            *mass == self@.mass,
    {
        &self.mass
    }

    /// What the load is called.
    pub fn name(&self) -> (name: &String)
        ensures
            name@ == self@.name,
    {
        &self.name
    }

    /// Whether arm and mass may enter an airplane.
    pub fn in_range(&self) -> (b: bool)
        ensures
            b == self@.in_range(),
    {
        self.lever_arm.in_range() && self.mass.in_range()
    }

    /// The load's mass moment: its kilograms times the metres of its arm.
    pub fn total(&self) -> (moment: MassMoment)
        requires
            self@.in_range(),
        ensures
            moment.kilogram_meters() == self@.kilogram_meters(),
    {
        let kg = self.mass.kilo();
        let m = self.lever_arm.meter();
        proof {
            lemma_mass_bound(self.mass);
            lemma_mul_bound(kg as int, m as int, 300_000_000_000_000, 100_000_000_000_000);
        }
        MassMoment::KgM(kg * m)
    }
}

} // verus!
