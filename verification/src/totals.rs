//! Sums over the loads of an airplane, and what holds of them.

use crate::arith::lemma_mul_bound;
use crate::moment::MomentView;
use crate::units::{lemma_mass_bound, LIMIT, MASS_LIMIT};
use vstd::prelude::*;

verus! {

/// The sum of `f` over the loads, in their order.
pub open spec fn sum_over(loads: Seq<MomentView>, f: spec_fn(MomentView) -> int) -> int
    decreases loads.len(),
{
    if loads.len() == 0 {
        0
    } else {
        sum_over(loads.drop_last(), f) + f(loads.last())
    }
}

/// The kilograms of all loads together.
pub open spec fn total_kilograms(loads: Seq<MomentView>) -> int {
    sum_over(loads, |m: MomentView| m.kilograms())
}

/// The mass moments of all loads together.
pub open spec fn total_kilogram_meters(loads: Seq<MomentView>) -> int {
    sum_over(loads, |m: MomentView| m.kilogram_meters())
}

/// Whether every load may enter an airplane.
pub open spec fn all_in_range(loads: Seq<MomentView>) -> bool {
    forall|i: int| 0 <= i < loads.len() ==> (#[trigger] loads[i]).in_range()
}

/// A load added at the end adds its share to the sum.
pub proof fn lemma_sum_push(loads: Seq<MomentView>, load: MomentView, f: spec_fn(MomentView) -> int)
    ensures
        sum_over(loads.push(load), f) == sum_over(loads, f) + f(load),
{
    assert(loads.push(load).drop_last() =~= loads);
}

/// A load taken out anywhere takes its share out of the sum.
pub proof fn lemma_sum_remove(loads: Seq<MomentView>, i: int, f: spec_fn(MomentView) -> int)
    requires
        0 <= i < loads.len(),
    ensures
        sum_over(loads, f) == sum_over(loads.remove(i), f) + f(loads[i]),
    decreases loads.len(),
{
    if i == loads.len() - 1 {
        assert(loads.remove(i) =~= loads.drop_last());
    } else {
        lemma_sum_remove(loads.drop_last(), i, f);
        assert(loads.remove(i).drop_last() =~= loads.drop_last().remove(i));
        assert(loads.remove(i).last() == loads.last());
    }
}

/// The sum does not depend on the order of the loads.
pub proof fn lemma_sum_permutation(
    a: Seq<MomentView>,
    b: Seq<MomentView>,
    f: spec_fn(MomentView) -> int,
)
    requires
        a.to_multiset() == b.to_multiset(),
    ensures
        sum_over(a, f) == sum_over(b, f),
    decreases a.len(),
{
    broadcast use vstd::seq_lib::group_to_multiset_ensures;

    a.to_multiset_ensures();
    b.to_multiset_ensures();
    if a.len() == 0 {
        assert(b.len() == 0);
    } else {
        let x = a.last();
        assert(a.drop_last().push(x) =~= a);
        assert(a.to_multiset().count(x) > 0);
        assert(b.contains(x));
        let i = choose|i: int| 0 <= i < b.len() && b[i] == x;
        assert(a.drop_last() =~= a.remove(a.len() - 1));
        assert(a.drop_last().to_multiset() =~= b.remove(i).to_multiset());
        lemma_sum_permutation(a.drop_last(), b.remove(i), f);
        lemma_sum_remove(b, i, f);
    }
}

/// The sum of terms that each lie within `bound` lies within `bound` times
/// their number.
pub proof fn lemma_sum_bound(loads: Seq<MomentView>, f: spec_fn(MomentView) -> int, bound: int)
    requires
        forall|i: int| 0 <= i < loads.len() ==> -bound <= #[trigger] f(loads[i]) <= bound,
    ensures
        -bound * loads.len() <= sum_over(loads, f) <= bound * loads.len(),
    decreases loads.len(),
{
    let n = loads.len() as int;
    if n == 0 {
        assert(bound * n == 0 && -bound * n == 0) by (nonlinear_arith)
            requires
                n == 0,
        ;
    } else {
        let rest = loads.drop_last();
        assert forall|i: int| 0 <= i < rest.len() implies -bound <= #[trigger] f(rest[i])
            <= bound by {
            assert(rest[i] == loads[i]);
        }
        lemma_sum_bound(rest, f, bound);
        assert(-bound <= f(loads[loads.len() - 1]) <= bound);
        let k = rest.len() as int;
        assert(bound * n == bound * k + bound && -bound * n == -bound * k - bound)
            by (nonlinear_arith)
            requires
                n == k + 1,
        ;
    }
}

/// The total mass is the same for every order of the loads.
pub proof fn lemma_total_kilograms_any_order(a: Seq<MomentView>, b: Seq<MomentView>)
    requires
        a.to_multiset() == b.to_multiset(),
    ensures
        total_kilograms(a) == total_kilograms(b),
{
    lemma_sum_permutation(a, b, |m: MomentView| m.kilograms());
}

/// The total mass moment is the same for every order of the loads.
pub proof fn lemma_total_kilogram_meters_any_order(a: Seq<MomentView>, b: Seq<MomentView>)
    requires
        a.to_multiset() == b.to_multiset(),
    ensures
        total_kilogram_meters(a) == total_kilogram_meters(b),
{
    lemma_sum_permutation(a, b, |m: MomentView| m.kilogram_meters());
}

/// Loads in range sum to at most `MASS_LIMIT` kilograms and
/// `MASS_LIMIT * LIMIT` kilogram metres each.
pub proof fn lemma_totals_bound(loads: Seq<MomentView>)
    requires
        all_in_range(loads),
    ensures
        -MASS_LIMIT * loads.len() <= total_kilograms(loads) <= MASS_LIMIT * loads.len(),
        -MASS_LIMIT * LIMIT * loads.len() <= total_kilogram_meters(loads) <= MASS_LIMIT * LIMIT
            * loads.len(),
{
    let kg = |m: MomentView| m.kilograms();
    let kgm = |m: MomentView| m.kilogram_meters();
    assert forall|i: int| 0 <= i < loads.len() implies -MASS_LIMIT <= #[trigger] kg(loads[i])
        <= MASS_LIMIT by {
        lemma_mass_bound(loads[i].mass);
    }
    assert forall|i: int| 0 <= i < loads.len() implies -MASS_LIMIT * LIMIT <= #[trigger] kgm(
        loads[i],
    ) <= MASS_LIMIT * LIMIT by {
        lemma_mass_bound(loads[i].mass);
        lemma_mul_bound(
            loads[i].mass.kilograms(),
            loads[i].lever_arm.meters(),
            300_000_000_000_000,
            100_000_000_000_000,
        );
    }
    lemma_sum_bound(loads, kg, MASS_LIMIT as int);
    lemma_sum_bound(loads, kgm, MASS_LIMIT * LIMIT);
}

/// The most loads that an airplane in range carries.
pub const MAX_LOADS: usize = 1_000_000;

/// Largest magnitude of the total mass of any airplane in range.
pub const TOTAL_MASS_LIMIT: i128 = 300_000_000_000_000_000_000;

/// Largest magnitude of the total mass moment of any airplane in range.
pub const TOTAL_MOMENT_LIMIT: i128 = 30_000_000_000_000_000_000_000_000_000_000_000;

/// The totals of as many loads as an airplane in range carries stay inside
/// 128 bits, with room left for the arithmetic on them.
pub proof fn lemma_totals_fit(loads: Seq<MomentView>)
    requires
        all_in_range(loads),
        loads.len() <= MAX_LOADS,
    ensures
        -TOTAL_MASS_LIMIT <= total_kilograms(loads) <= TOTAL_MASS_LIMIT,
        -TOTAL_MOMENT_LIMIT <= total_kilogram_meters(loads) <= TOTAL_MOMENT_LIMIT,
{
    lemma_totals_bound(loads);
    let n = loads.len() as int;
    let kg = total_kilograms(loads);
    let kgm = total_kilogram_meters(loads);
    assert(-300_000_000_000_000_000_000 <= kg <= 300_000_000_000_000_000_000)
        by (nonlinear_arith)
        requires
            -300_000_000_000_000 * n <= kg <= 300_000_000_000_000 * n,
            0 <= n <= 1_000_000,
    ;
    assert(MASS_LIMIT * LIMIT == 30_000_000_000_000_000_000_000_000_000);
    assert(-30_000_000_000_000_000_000_000_000_000_000_000 <= kgm
        <= 30_000_000_000_000_000_000_000_000_000_000_000) by (nonlinear_arith)
        requires
            -30_000_000_000_000_000_000_000_000_000 * n <= kgm
                <= 30_000_000_000_000_000_000_000_000_000 * n,
            0 <= n <= 1_000_000,
    ;
}

} // verus!
