//! The value of an objective at a reported point, in exact arithmetic.
//! The value is the sum, over the variables of the point that the
//! objective mentions, of coefficient times value; a variable that the
//! point names more than once counts once, with its last value. The sum
//! is only given where it can be had exactly in double precision as well,
//! that is while the magnitudes of the products add up to less than
//! `2^53`: there it is what a computation in floating point gives too.

use vstd::prelude::*;
use crate::index::{
    last_position, lemma_entry_value_at_last, lemma_last_position, IdIndex,
};
use crate::models::Objective;

verus! {

/// The bound under which sums of products are exact in double precision.
pub const EXACT_LIMIT: i128 = 9007199254740992;

/// Position `k` of the point counts: no later position names the same
/// variable.
pub open spec fn counts(point: Seq<(String, i32)>, k: int) -> bool {
    last_position(point, point[k].0@) == Some(k)
}

/// What position `k` of the point adds to the value: its coefficient
/// times its value where it counts and the objective mentions it, and
/// nothing otherwise.
pub open spec fn product_at(objective: Objective<i64>, point: Seq<(String, i32)>, k: int) -> int {
    if counts(point, k) {
        match objective.coefficient(point[k].0@) {
            Some(c) => c * point[k].1,
            None => 0,
        }
    } else {
        0
    }
}

/// The magnitude of a number.
pub open spec fn magnitude(v: int) -> int {
    if v < 0 {
        -v
    } else {
        v
    }
}

/// The sum of the products of the positions `0..n`.
pub open spec fn value_before(objective: Objective<i64>, point: Seq<(String, i32)>, n: int) -> int
    decreases n,
{
    if n <= 0 {
        0
    } else {
        value_before(objective, point, n - 1) + product_at(objective, point, n - 1)
    }
}

/// The sum of the magnitudes of the products of the positions `0..n`.
pub open spec fn weight_before(objective: Objective<i64>, point: Seq<(String, i32)>, n: int) -> int
    decreases n,
{
    if n <= 0 {
        0
    } else {
        weight_before(objective, point, n - 1) + magnitude(product_at(objective, point, n - 1))
    }
}

/// A number cut down to the range of 32-bit integers: the nearest bound
/// for a number outside the range.
pub open spec fn clamp(v: int) -> i32 {
    if v > i32::MAX {
        i32::MAX
    } else if v < i32::MIN {
        i32::MIN
    } else {
        v as i32
    }
}

/// The value of `objective` at `point`, where it can be had exactly.
pub open spec fn spec_objective_value(
    objective: Objective<i64>,
    point: Seq<(String, i32)>,
) -> Option<i32> {
    if weight_before(objective, point, point.len() as int) < EXACT_LIMIT {
        Some(clamp(value_before(objective, point, point.len() as int)))
    } else {
        None
    }
}

/// Magnitudes only add up: the weight of the first positions is at most
/// that of all, and bounds the magnitude of their value.
pub proof fn lemma_weight_grows(
    objective: Objective<i64>,
    point: Seq<(String, i32)>,
    i: int,
    n: int,
)
    requires
        0 <= i <= n,
    ensures
        0 <= weight_before(objective, point, i) <= weight_before(objective, point, n),
        magnitude(value_before(objective, point, i)) <= weight_before(objective, point, i),
    decreases n + i,
{
    if i < n {
        lemma_weight_grows(objective, point, i, n - 1);
    } else if i > 0 {
        lemma_weight_grows(objective, point, i - 1, i - 1);
    }
}

/// An objective that gives no variable of the point a coefficient other
/// than zero is worth zero there: the zero function has the value zero
/// at every point.
pub proof fn lemma_zero_objective_value(objective: Objective<i64>, point: Seq<(String, i32)>)
    requires
        forall|k: int|
            0 <= k < point.len() ==> {
                let c = #[trigger] objective.coefficient(point[k].0@);
                c is None || c == Some(0i64)
            },
    ensures
        spec_objective_value(objective, point) == Some(0i32),
{
    lemma_all_products_zero(objective, point, point.len() as int);
}

proof fn lemma_all_products_zero(objective: Objective<i64>, point: Seq<(String, i32)>, n: int)
    requires
        0 <= n <= point.len(),
        forall|k: int|
            0 <= k < point.len() ==> {
                let c = #[trigger] objective.coefficient(point[k].0@);
                c is None || c == Some(0i64)
            },
    ensures
        value_before(objective, point, n) == 0,
        weight_before(objective, point, n) == 0,
    decreases n,
{
    if n > 0 {
        lemma_all_products_zero(objective, point, n - 1);
        let c = objective.coefficient(point[n - 1].0@);
        assert(c is None || c == Some(0i64));
        assert(product_at(objective, point, n - 1) == 0) by (nonlinear_arith)
            requires
                product_at(objective, point, n - 1) == 0 || (c == Some(0i64) && product_at(
                    objective,
                    point,
                    n - 1,
                ) == 0 * point[n - 1].1),
        ;
    }
}

/// The value of an objective with integer coefficients at a point, or
/// nothing where the magnitudes of the products add up to `2^53` or more.
pub fn objective_value(objective: &Objective<i64>, point: &Vec<(String, i32)>) -> (value: Option<
    i32,
>)
    ensures
        value == spec_objective_value(*objective, point@),
{
    let positions = IdIndex::build(point);
    let coefficients = IdIndex::build(&objective.entries);
    let mut sum: i128 = 0;
    let mut weight: i128 = 0;
    let mut k: usize = 0;
    while k < point.len()
        invariant
            positions.indexes(point@),
            coefficients.indexes(objective.entries@),
            k <= point@.len(),
            sum == value_before(*objective, point@, k as int),
            weight == weight_before(*objective, point@, k as int),
            0 <= weight < EXACT_LIMIT,
            -EXACT_LIMIT < sum < EXACT_LIMIT,
        decreases point@.len() - k,
    {
        proof {
            lemma_entry_value_at_last(objective.entries@, point@[k as int].0@);
            lemma_last_position(point@, point@[k as int].0@);
            lemma_weight_grows(*objective, point@, k + 1, point@.len() as int);
            lemma_weight_grows(*objective, point@, k + 1, k + 1);
        }
        let is_last = match positions.find_last(point, &point[k].0) {
            Some(j) => j == k,
            None => false,
        };
        if is_last {
            match coefficients.find_last(&objective.entries, &point[k].0) {
                Some(e) => {
                    let c: i64 = objective.entries[e].1;
                    let v: i32 = point[k].1;
                    assert(-0x8000_0000_0000_0000_0000_0000 <= (c as int) * (v as int)
                        <= 0x8000_0000_0000_0000_0000_0000) by (nonlinear_arith)
                        requires
                            -0x8000_0000_0000_0000 <= c <= 0x7fff_ffff_ffff_ffff,
                            -0x8000_0000 <= v <= 0x7fff_ffff,
                    ;
                    let product: i128 = (c as i128) * (v as i128);
                    let size: i128 = if product < 0 {
                        -product
                    } else {
                        product
                    };
                    weight = weight + size;
                    if weight >= EXACT_LIMIT {
                        return None;
                    }
                    sum = sum + product;
                },
                None => {},
            }
        }
        k = k + 1;
    }
    let value: i32 = if sum > 2147483647 {
        2147483647
    } else if sum < -2147483648 {
        -2147483648
    } else {
        sum as i32
    };
    Some(value)
}

} // verus!
