//! Step-by-step construction of a request.

use vstd::prelude::*;
use vstd::string::*;
use crate::client::error::GlpkError;
use crate::client::types::{
    IntegerSparseMatrix, Shape, SolveRequest, SparseLEIntegerPolyhedron, Variable,
};
use crate::models::{Objective, SolverDirection};

verus! {

/// A request under construction.
#[derive(Debug)]
pub struct SolveRequestBuilder<C> {
    pub variables: Vec<Variable>,
    pub constraint_rows: Vec<i32>,
    pub constraint_cols: Vec<i32>,
    pub constraint_vals: Vec<i32>,
    pub b: Vec<i32>,
    pub objectives: Vec<Objective<C>>,
    pub direction: Option<SolverDirection>,
}

impl<C> SolveRequestBuilder<C> {
    /// What `build` objects to, if anything: the first of a missing
    /// variable, a missing objective, a missing direction, and coordinate
    /// arrays of different lengths.
    pub open spec fn objection(&self) -> Option<Seq<char>> {
        if self.variables@.len() == 0 {
            Some("At least one variable is required"@)
        } else if self.objectives@.len() == 0 {
            Some("At least one objective is required"@)
        } else if self.direction is None {
            Some("Direction (maximize/minimize) must be set"@)
        } else if self.constraint_rows@.len() != self.constraint_cols@.len()
            || self.constraint_rows@.len() != self.constraint_vals@.len() {
            Some("Constraint matrix rows, cols, and vals must have the same length"@)
        } else {
            None
        }
    }

    /// `request` holds what the builder has gathered, with a matrix of one
    /// row per right-hand side and one column per variable.
    pub open spec fn gathered_in(&self, request: SolveRequest<C>) -> bool {
        &&& request.polyhedron.a.rows@ == self.constraint_rows@
        &&& request.polyhedron.a.cols@ == self.constraint_cols@
        &&& request.polyhedron.a.vals@ == self.constraint_vals@
        &&& request.polyhedron.a.shape == (Shape {
            nrows: self.b@.len() as usize,
            ncols: self.variables@.len() as usize,
        })
        &&& request.polyhedron.b@ == self.b@
        &&& request.polyhedron.variables@ == self.variables@
        &&& request.objectives@ == self.objectives@
        &&& Some(request.direction) == self.direction
    }

    /// A builder that has gathered nothing yet.
    pub fn new() -> (builder: Self)
        ensures
            builder.variables@.len() == 0,
            builder.constraint_rows@.len() == 0,
            builder.constraint_cols@.len() == 0,
            builder.constraint_vals@.len() == 0,
            builder.b@.len() == 0,
            builder.objectives@.len() == 0,
            builder.direction is None,
    {
        SolveRequestBuilder {
            variables: Vec::new(),
            constraint_rows: Vec::new(),
            constraint_cols: Vec::new(),
            constraint_vals: Vec::new(),
            b: Vec::new(),
            objectives: Vec::new(),
            direction: None,
        }
    }

    /// Adds a decision variable.
    pub fn add_variable(self, variable: Variable) -> (builder: Self)
        ensures
            builder == (SolveRequestBuilder { variables: builder.variables, ..self }),
            builder.variables@ == self.variables@.push(variable),
    {
        let mut builder = self;
        builder.variables.push(variable);
        builder
    }

    /// Adds several decision variables.
    pub fn add_variables(self, variables: Vec<Variable>) -> (builder: Self)
        ensures
            builder == (SolveRequestBuilder { variables: builder.variables, ..self }),
            builder.variables@ == self.variables@ + variables@,
    {
        let mut builder = self;
        let mut variables = variables;
        builder.variables.append(&mut variables);
        builder
    }

    /// Adds the entries of one constraint and its right-hand side.
    pub fn add_constraint(
        self,
        rows: Vec<i32>,
        cols: Vec<i32>,
        vals: Vec<i32>,
        b_value: i32,
    ) -> (builder: Self)
        ensures
            builder.constraint_rows@ == self.constraint_rows@ + rows@,
            builder.constraint_cols@ == self.constraint_cols@ + cols@,
            builder.constraint_vals@ == self.constraint_vals@ + vals@,
            builder.b@ == self.b@.push(b_value),
            builder.variables == self.variables,
            builder.objectives == self.objectives,
            builder.direction == self.direction,
    {
        let mut builder = self;
        let mut rows = rows;
        let mut cols = cols;
        let mut vals = vals;
        builder.constraint_rows.append(&mut rows);
        builder.constraint_cols.append(&mut cols);
        builder.constraint_vals.append(&mut vals);
        builder.b.push(b_value);
        builder
    }

    /// Replaces all entries of the constraint matrix.
    pub fn set_constraint_matrix(self, rows: Vec<i32>, cols: Vec<i32>, vals: Vec<i32>) -> (builder:
        Self)
        ensures
            builder == (SolveRequestBuilder {
                constraint_rows: rows,
                constraint_cols: cols,
                constraint_vals: vals,
                ..self
            }),
    {
        let mut builder = self;
        builder.constraint_rows = rows;
        builder.constraint_cols = cols;
        builder.constraint_vals = vals;
        builder
    }

    /// Replaces all right-hand sides.
    pub fn set_constraint_rhs(self, b: Vec<i32>) -> (builder: Self)
        ensures
            builder == (SolveRequestBuilder { b, ..self }),
    {
        let mut builder = self;
        builder.b = b;
        builder
    }

    /// Adds an objective.
    pub fn add_objective(self, objective: Objective<C>) -> (builder: Self)
        ensures
            builder == (SolveRequestBuilder { objectives: builder.objectives, ..self }),
            builder.objectives@ == self.objectives@.push(objective),
    {
        let mut builder = self;
        builder.objectives.push(objective);
        builder
    }

    /// Adds several objectives.
    pub fn add_objectives(self, objectives: Vec<Objective<C>>) -> (builder: Self)
        ensures
            builder == (SolveRequestBuilder { objectives: builder.objectives, ..self }),
            builder.objectives@ == self.objectives@ + objectives@,
    {
        let mut builder = self;
        let mut objectives = objectives;
        builder.objectives.append(&mut objectives);
        builder
    }

    /// Sets the direction of optimisation.
    pub fn direction(self, direction: SolverDirection) -> (builder: Self)
        ensures
            builder == (SolveRequestBuilder { direction: Some(direction), ..self }),
    {
        let mut builder = self;
        builder.direction = Some(direction);
        builder
    }

    /// Makes the request, or says what is missing.
    pub fn build(self) -> (r: Result<SolveRequest<C>, GlpkError>)
        ensures
            r is Ok <==> self.objection() is None,
            r matches Ok(request) ==> self.gathered_in(request),
            r matches Err(error) ==> error matches GlpkError::InvalidRequest(text) && Some(text@)
                == self.objection(),
    {
        if self.variables.len() == 0 {
            return Err(
                GlpkError::InvalidRequest(String::from_str("At least one variable is required")),
            );
        }
        if self.objectives.len() == 0 {
            return Err(
                GlpkError::InvalidRequest(String::from_str("At least one objective is required")),
            );
        }
        let direction = match self.direction {
            Some(direction) => direction,
            None => {
                return Err(
                    GlpkError::InvalidRequest(
                        String::from_str("Direction (maximize/minimize) must be set"),
                    ),
                );
            },
        };
        let nrows = self.b.len();
        let ncols = self.variables.len();
        if self.constraint_rows.len() != self.constraint_cols.len() || self.constraint_rows.len()
            != self.constraint_vals.len() {
            return Err(
                GlpkError::InvalidRequest(
                    String::from_str(
                        "Constraint matrix rows, cols, and vals must have the same length",
                    ),
                ),
            );
        }
        let matrix = IntegerSparseMatrix {
            rows: self.constraint_rows,
            cols: self.constraint_cols,
            vals: self.constraint_vals,
            shape: Shape { nrows, ncols },
        };
        let polyhedron = SparseLEIntegerPolyhedron {
            a: matrix,
            b: self.b,
            variables: self.variables,
        };
        Ok(SolveRequest { polyhedron, objectives: self.objectives, direction })
    }
}

} // verus!
