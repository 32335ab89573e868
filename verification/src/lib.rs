//! Weight and balance of a small aircraft, in exact fixed-point arithmetic.
//!
//! Loads at stations along the airplane add up to a total mass and a total
//! mass moment; their ratio is the centre of gravity.  An airplane is fit to
//! fly when mass and centre of gravity lie inside its envelope.  The solver
//! works out the load at one more station that brings the centre of gravity
//! onto a limit or the mass up to the maximum take-off weight.

pub mod airplane;
pub mod arith;
pub mod decimal;
pub mod limits;
pub mod moment;
pub mod solver;
pub mod table;
pub mod totals;
pub mod types;
pub mod units;

pub use crate::airplane::{Airplane, AirplaneView};
pub use crate::limits::{Limits, LimitsView};
pub use crate::moment::{Moment, MomentView};
pub use crate::solver::SolveError;
pub use crate::table::weight_and_balance_table_strings;
pub use crate::types::{FuelType, MassType, VolumeType};
pub use crate::units::{CenterOfGravity, LeverArm, Mass, MassMoment, Volume};
