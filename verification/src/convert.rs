//! The polyhedron in the shape that the simplex and branch-and-bound
//! engine takes: every row carries a pair of bounds, of which only the
//! upper one is in force.

use vstd::prelude::*;
use crate::models::{ApiIntegerSparseMatrix, ApiVariable, Objective, SparseLEIntegerPolyhedron};

verus! {

/// Coordinate arrays without a declared shape.
#[derive(Clone, Debug, PartialEq, Eq)]
pub struct GlpkMatrix {
    pub rows: Vec<i32>,
    pub cols: Vec<i32>,
    pub vals: Vec<i32>,
}

/// The polyhedron as the engine reads it. With `double_bound` off a row
/// `(lower, upper)` means `a_r x <= upper`.
#[derive(Debug, PartialEq, Eq)]
pub struct GlpkPolyhedron {
    pub a: GlpkMatrix,
    pub b: Vec<(i32, i32)>,
    pub variables: Vec<ApiVariable>,
    pub double_bound: bool,
}

/// The row bounds made from right-hand sides: `(0, b_r)` for each row.
pub open spec fn row_bounds(b: Seq<i32>) -> Seq<(i32, i32)> {
    Seq::new(b.len(), |r: int| (0i32, b[r]))
}

impl GlpkPolyhedron {
    /// `self` states `le` in the engine's shape.
    pub open spec fn states(&self, le: SparseLEIntegerPolyhedron) -> bool {
        &&& self.a.rows@ == le.a.rows@
        &&& self.a.cols@ == le.a.cols@
        &&& self.a.vals@ == le.a.vals@
        &&& self.b@ == row_bounds(le.b@)
        &&& self.variables@ == le.variables@
        &&& !self.double_bound
    }
}

/// A copy of an integer array.
pub fn copy_integers(source: &Vec<i32>) -> (copy: Vec<i32>)
    ensures
        copy@ == source@,
{
    let mut copy: Vec<i32> = Vec::new();
    let mut k: usize = 0;
    while k < source.len()
        invariant
            k <= source@.len(),
            copy@ == source@.take(k as int),
        decreases source@.len() - k,
    {
        copy.push(source[k]);
        proof {
            assert(source@.take(k + 1) =~= source@.take(k as int).push(source@[k as int]));
        }
        k = k + 1;
    }
    assert(source@.take(source@.len() as int) =~= source@);
    copy
}

/// A copy of a list of variables.
pub fn copy_variables(source: &Vec<ApiVariable>) -> (copy: Vec<ApiVariable>)
    ensures
        copy@ == source@,
{
    let mut copy: Vec<ApiVariable> = Vec::new();
    let mut k: usize = 0;
    while k < source.len()
        invariant
            k <= source@.len(),
            copy@ == source@.take(k as int),
        decreases source@.len() - k,
    {
        copy.push(source[k].clone());
        proof {
            assert(source@.take(k + 1) =~= source@.take(k as int).push(source@[k as int]));
        }
        k = k + 1;
    }
    assert(source@.take(source@.len() as int) =~= source@);
    copy
}

fn to_glpk_matrix(m: &ApiIntegerSparseMatrix) -> (g: GlpkMatrix)
    ensures
        g.rows@ == m.rows@,
        g.cols@ == m.cols@,
        g.vals@ == m.vals@,
{
    GlpkMatrix {
        rows: copy_integers(&m.rows),
        cols: copy_integers(&m.cols),
        vals: copy_integers(&m.vals),
    }
}

/// States `le` in the engine's shape: the same entries and variables, and
/// each right-hand side `b_r` as the row bounds `(0, b_r)` with only the
/// upper one in force.
pub fn to_glpk_polyhedron(le: &SparseLEIntegerPolyhedron) -> (g: GlpkPolyhedron)
    ensures
        g.states(*le),
{
    let a = to_glpk_matrix(&le.a);
    let mut b: Vec<(i32, i32)> = Vec::new();
    let mut r: usize = 0;
    while r < le.b.len()
        invariant
            r <= le.b@.len(),
            b@.len() == r,
            forall|q: int| 0 <= q < r ==> (#[trigger] b@[q]) == (0i32, le.b@[q]),
        decreases le.b@.len() - r,
    {
        b.push((0, le.b[r]));
        r = r + 1;
    }
    assert(b@ =~= row_bounds(le.b@));
    GlpkPolyhedron { a, b, variables: copy_variables(&le.variables), double_bound: false }
}

/// `borrowed` lists the entries of `objective`, in order, with the
/// identifiers borrowed from it.
pub open spec fn borrows_from<C>(borrowed: Seq<(&str, C)>, objective: Objective<C>) -> bool {
    &&& borrowed.len() == objective.entries@.len()
    &&& forall|k: int|
        0 <= k < borrowed.len() ==> (#[trigger] borrowed[k]).0@ == objective.entries@[k].0@
            && borrowed[k].1 == objective.entries@[k].1
}

/// The entries of an objective with borrowed identifiers, as the engine
/// takes them.
pub fn to_borrowed_objective<'a, C: Copy>(obj: &'a Objective<C>) -> (borrowed: Vec<(&'a str, C)>)
    ensures
        borrows_from(borrowed@, *obj),
{
    let mut borrowed: Vec<(&'a str, C)> = Vec::new();
    let mut k: usize = 0;
    while k < obj.entries.len()
        invariant
            k <= obj.entries@.len(),
            borrowed@.len() == k,
            forall|i: int|
                0 <= i < k ==> (#[trigger] borrowed@[i]).0@ == obj.entries@[i].0@ && borrowed@[i].1
                    == obj.entries@[i].1,
        decreases obj.entries@.len() - k,
    {
        borrowed.push((obj.entries[k].0.as_str(), obj.entries[k].1));
        k = k + 1;
    }
    borrowed
}

/// Each objective of a list with borrowed identifiers, in order.
pub fn to_many_borrowed_objectives<'a, C: Copy>(objectives: &'a Vec<Objective<C>>) -> (borrowed:
    Vec<Vec<(&'a str, C)>>)
    ensures
        borrowed@.len() == objectives@.len(),
        forall|o: int|
            0 <= o < borrowed@.len() ==> borrows_from((#[trigger] borrowed@[o])@, objectives@[o]),
{
    let mut borrowed: Vec<Vec<(&'a str, C)>> = Vec::new();
    let mut o: usize = 0;
    while o < objectives.len()
        invariant
            o <= objectives@.len(),
            borrowed@.len() == o,
            forall|p: int|
                0 <= p < o ==> borrows_from((#[trigger] borrowed@[p])@, objectives@[p]),
        decreases objectives@.len() - o,
    {
        borrowed.push(to_borrowed_objective(&objectives[o]));
        o = o + 1;
    }
    borrowed
}

} // verus!
