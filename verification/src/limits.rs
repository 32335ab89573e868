//! The certified envelope of an airplane.

use crate::units::{CenterOfGravity, Mass};
use vstd::prelude::*;

verus! {

/// The envelope: lightest and heaviest permitted weight, and the foremost
/// and rearmost permitted centre of gravity.
#[derive(Clone, Copy, Debug)]
pub struct Limits {
    minimum_weight: Mass,
    mtow: Mass,
    forward_cg_limit: CenterOfGravity,
    rearward_cg_limit: CenterOfGravity,
}

/// What a `Limits` holds.
pub ghost struct LimitsView {
    pub minimum_weight: Mass,
    pub mtow: Mass,
    pub forward_cg_limit: CenterOfGravity,
    pub rearward_cg_limit: CenterOfGravity,
}

impl LimitsView {
    /// Whether all four limits may enter an airplane.
    pub open spec fn in_range(self) -> bool {
        &&& self.minimum_weight.in_range()
        &&& self.mtow.in_range()
        &&& self.forward_cg_limit.in_range()
        &&& self.rearward_cg_limit.in_range()
    }
}

impl View for Limits {
    type V = LimitsView;

    closed spec fn view(&self) -> LimitsView {
        LimitsView {
            minimum_weight: self.minimum_weight,
            mtow: self.mtow,
            forward_cg_limit: self.forward_cg_limit,
            rearward_cg_limit: self.rearward_cg_limit,
        }
    }
}

impl Limits {
    /// An envelope with the given bounds.  That the forward limit lies
    /// before the rearward one is left to the caller.
    pub fn new(
        minimum_weight: Mass,
        mtow: Mass,
        forward_cg_limit: CenterOfGravity,
        rearward_cg_limit: CenterOfGravity,
    ) -> (limits: Limits)
        ensures
            limits@ == (LimitsView {
                minimum_weight,
                mtow,
                forward_cg_limit,
                rearward_cg_limit,
            }),
    {
        Limits { minimum_weight, mtow, forward_cg_limit, rearward_cg_limit }
    }

    /// The lightest permitted weight.
    pub fn minimum_weight(&self) -> (mass: &Mass)
        ensures
            *mass == self@.minimum_weight,
    {
        &self.minimum_weight
    }

    /// The maximum take-off weight.
    pub fn mtow(&self) -> (mass: &Mass)
        ensures
            *mass == self@.mtow,
    {
        &self.mtow
    }

    /// The foremost permitted centre of gravity.
    pub fn forward_cg_limit(&self) -> (cg: &CenterOfGravity)
        ensures
            *cg == self@.forward_cg_limit,
    {
        &self.forward_cg_limit
    }

    /// The rearmost permitted centre of gravity.
    pub fn rearward_cg_limit(&self) -> (cg: &CenterOfGravity)
        ensures
            *cg == self@.rearward_cg_limit,
    {
        &self.rearward_cg_limit
    }

    /// Whether all four limits may enter an airplane.
    pub fn in_range(&self) -> (b: bool)
        ensures
            b == self@.in_range(),
    {
        self.minimum_weight.in_range() && self.mtow.in_range() && self.forward_cg_limit.in_range()
            && self.rearward_cg_limit.in_range()
    }
}

} // verus!
