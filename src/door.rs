use vstd::prelude::*;
use itertools::Itertools;

verus! {

broadcast use vstd::seq_lib::group_to_multiset_ensures;

/// The value that the door's equation `_ + _ * _^2 + _^3 - _` takes when its
/// blanks are filled with `p` in order.
pub open spec fn door_value(p: Seq<i32>) -> int {
    p[0] + p[1] * p[2] * p[2] + p[3] * p[3] * p[3] - p[4]
}

/// `p` holds the same values as `values`, in some order.
pub open spec fn is_arrangement(p: Seq<i32>, values: Seq<i32>) -> bool {
    p.to_multiset() == values.to_multiset()
}

/// The values of the five coins found beside the door.
pub open spec fn door_coins() -> Seq<i32> {
    seq![2i32, 3, 5, 7, 9]
}

/// The largest magnitude of a value that the door's equation is evaluated on.
pub const DOOR_BOUND: i32 = 1000;

/// The value the door's equation must reach.
pub const DOOR_TARGET: i64 = 399;

/// Relies on `Itertools::permutations` with `k` equal to the number of
/// values: it yields every ordering of the values' positions, so every
/// arrangement of the values, and nothing else.
#[verifier::external_body]
fn all_arrangements(values: &Vec<i32>) -> (r: Vec<Vec<i32>>)
    requires
        values@.len() > 0,
    ensures
        forall|i: int| 0 <= i < r@.len() ==> is_arrangement(#[trigger] r@[i]@, values@),
        forall|p: Seq<i32>| #[trigger] is_arrangement(p, values@) ==> exists|i: int|
            0 <= i < r@.len() && #[trigger] r@[i]@ == p,
{
    values.iter().copied().permutations(values.len()).collect()
}

/// Evaluates the door's equation on five bounded values.
pub fn door_equation(p: &Vec<i32>) -> (r: i64)
    requires
        p@.len() == 5,
        forall|i: int| 0 <= i < 5 ==> -DOOR_BOUND <= #[trigger] p@[i] <= DOOR_BOUND,
    ensures
        r == door_value(p@),
{
    let a = p[0] as i64;
    let b = p[1] as i64;
    let c = p[2] as i64;
    let d = p[3] as i64;
    let e = p[4] as i64;
    assert(-1000000 <= b * c <= 1000000 && -1000000000 <= b * c * c <= 1000000000) by (nonlinear_arith)
        requires
            -1000 <= b <= 1000,
            -1000 <= c <= 1000,
    ;
    assert(0 <= d * d <= 1000000 && -1000000000 <= d * d * d <= 1000000000) by (nonlinear_arith)
        requires
            -1000 <= d <= 1000,
    ;
    a + b * c * c + d * d * d - e
}

/// Finds an order of five bounded values that makes the door's equation
/// equal `DOOR_TARGET`, or `None` when no order does.
pub fn find_door_order(values: &Vec<i32>) -> (r: Option<Vec<i32>>)
    requires
        values@.len() == 5,
        forall|i: int| 0 <= i < 5 ==> -DOOR_BOUND <= #[trigger] values@[i] <= DOOR_BOUND,
    ensures
        match r {
            Some(p) => is_arrangement(p@, values@) && door_value(p@) == DOOR_TARGET,
            None => forall|p: Seq<i32>| #[trigger] is_arrangement(p, values@) ==> door_value(p) != DOOR_TARGET,
        },
{
    let candidates = all_arrangements(values);
    let mut i: usize = 0;
    while i < candidates.len()
        invariant
            values@.len() == 5,
            forall|j: int| 0 <= j < 5 ==> -DOOR_BOUND <= #[trigger] values@[j] <= DOOR_BOUND,
            forall|j: int| 0 <= j < candidates@.len() ==> is_arrangement(#[trigger] candidates@[j]@, values@),
            i <= candidates@.len(),
            forall|j: int| 0 <= j < i ==> door_value(#[trigger] candidates@[j]@) != DOOR_TARGET,
        decreases candidates@.len() - i,
    {
        let p = &candidates[i];
        assert(is_arrangement(candidates@[i as int]@, values@));
        assert(p@.len() == 5) by {
            assert(p@.to_multiset().len() == values@.to_multiset().len());
        }
        assert forall|k: int| 0 <= k < 5 implies -DOOR_BOUND <= #[trigger] p@[k] <= DOOR_BOUND by {
            assert(p@.to_multiset().count(p@[k]) > 0);
            assert(values@.contains(p@[k]));
        }
        if door_equation(p) == DOOR_TARGET {
            return Some(p.clone());
        }
        i = i + 1;
    }
    None
}

/// The door puzzle: the five coins' values, ordered to satisfy the equation.
pub fn solve_door() -> (r: Option<Vec<i32>>)
    ensures
        match r {
            Some(p) => is_arrangement(p@, door_coins()) && door_value(p@) == DOOR_TARGET,
            None => forall|p: Seq<i32>| #[trigger] is_arrangement(p, door_coins())
                ==> door_value(p) != DOOR_TARGET,
        },
{
    let values = vec![2i32, 3, 5, 7, 9];
    assert(values@ =~= door_coins());
    find_door_order(&values)
}

} // verus!
