//! The request and response as a caller writes and reads them.

use vstd::prelude::*;
use vstd::string::*;
use crate::models::{Objective, SolverDirection, Status};

verus! {

/// A decision variable with its inclusive bounds `(lower, upper)`.
#[derive(Debug, PartialEq, Eq)]
pub struct Variable {
    pub id: String,
    pub bound: (i32, i32),
}

impl Variable {
    /// A variable with the given identifier and bounds.
    pub fn new(id: &str, lower: i32, upper: i32) -> (v: Variable)
        ensures
            v.id@ == id@,
            v.bound == (lower, upper),
    {
        Variable { id: String::from_str(id), bound: (lower, upper) }
    }
}

impl Clone for Variable {
    fn clone(&self) -> (r: Self)
        ensures
            r == *self,
    {
        Variable { id: self.id.clone(), bound: (self.bound.0, self.bound.1) }
    }
}

/// Dimensions of a matrix.
#[derive(Clone, Copy, Debug, PartialEq, Eq, Structural)]
pub struct Shape {
    pub nrows: usize,
    pub ncols: usize,
}

/// An integer matrix in coordinate form.
#[derive(Clone, Debug, PartialEq, Eq)]
pub struct IntegerSparseMatrix {
    pub rows: Vec<i32>,
    pub cols: Vec<i32>,
    pub vals: Vec<i32>,
    pub shape: Shape,
}

impl IntegerSparseMatrix {
    /// A matrix from its coordinate arrays and dimensions.
    pub fn new(rows: Vec<i32>, cols: Vec<i32>, vals: Vec<i32>, nrows: usize, ncols: usize) -> (m:
        IntegerSparseMatrix)
        ensures
            m.rows == rows,
            m.cols == cols,
            m.vals == vals,
            m.shape == (Shape { nrows, ncols }),
    {
        IntegerSparseMatrix { rows, cols, vals, shape: Shape { nrows, ncols } }
    }
}

/// The feasible region `A x <= b` with bounded variables.
#[derive(Clone, Debug, PartialEq, Eq)]
pub struct SparseLEIntegerPolyhedron {
    pub a: IntegerSparseMatrix,
    pub b: Vec<i32>,
    pub variables: Vec<Variable>,
}

/// A request to optimise each of `objectives` over `polyhedron`.
#[derive(Clone, Debug, PartialEq)]
pub struct SolveRequest<C> {
    pub polyhedron: SparseLEIntegerPolyhedron,
    pub objectives: Vec<Objective<C>>,
    pub direction: SolverDirection,
}

/// The answer to one objective, as the service sends it.
#[derive(Clone, Debug, PartialEq, Eq)]
pub struct Solution {
    pub status: Status,
    pub objective: i32,
    pub solution: Vec<(String, i64)>,
    pub error: Option<String>,
}

/// The answers to a request, one per objective.
#[derive(Clone, Debug, PartialEq, Eq)]
pub struct SolveResponse {
    pub solutions: Vec<Solution>,
}

} // verus!
