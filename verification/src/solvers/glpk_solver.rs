//! Adapter for the simplex and branch-and-bound engine. The engine takes
//! the whole batch of objectives in one call, so the adapter's part is to
//! screen the request and to state the polyhedron in the engine's shape.

use vstd::prelude::*;
use crate::convert::{to_glpk_polyhedron, GlpkPolyhedron};
use crate::models::{Objective, SolverDirection, SparseLEIntegerPolyhedron};
use crate::solver::{all_empty_space, screen, Plan};
use crate::validate::{names_first_undeclared, objectives_declared, SolveInputError};

verus! {

/// The simplex and branch-and-bound backend.
#[derive(Clone, Copy, Debug, PartialEq, Eq)]
pub struct GlpkSolver;

/// What the engine is called with, besides the objectives themselves.
#[derive(Debug, PartialEq, Eq)]
pub struct GlpkProblem {
    pub polyhedron: GlpkPolyhedron,
    pub maximize: bool,
    /// Whether the engine may write to the terminal; always off.
    pub terminal_output: bool,
}

impl GlpkProblem {
    /// `self` is the call for `polyhedron` and `direction`.
    pub open spec fn describes(
        &self,
        polyhedron: SparseLEIntegerPolyhedron,
        direction: SolverDirection,
    ) -> bool {
        &&& self.polyhedron.states(polyhedron)
        &&& self.maximize == (direction == SolverDirection::Maximize)
        &&& !self.terminal_output
    }
}

impl GlpkProblem {
    /// Both problems give the engine the same call.
    pub open spec fn agrees(&self, other: GlpkProblem) -> bool {
        &&& self.polyhedron.a.rows@ == other.polyhedron.a.rows@
        &&& self.polyhedron.a.cols@ == other.polyhedron.a.cols@
        &&& self.polyhedron.a.vals@ == other.polyhedron.a.vals@
        &&& self.polyhedron.b@ == other.polyhedron.b@
        &&& self.polyhedron.variables@ == other.polyhedron.variables@
        &&& self.polyhedron.double_bound == other.polyhedron.double_bound
        &&& self.maximize == other.maximize
        &&& self.terminal_output == other.terminal_output
    }
}

/// Planning the same request twice gives the engine the same call.
pub proof fn lemma_problem_determined(
    first: GlpkProblem,
    second: GlpkProblem,
    polyhedron: SparseLEIntegerPolyhedron,
    direction: SolverDirection,
)
    requires
        first.describes(polyhedron, direction),
        second.describes(polyhedron, direction),
    ensures
        first.agrees(second),
{
}

impl GlpkSolver {
    pub fn new() -> (s: Self) {
        GlpkSolver
    }

    /// The backend's name in diagnostics and configuration.
    pub fn name(&self) -> (n: &'static str)
        ensures
            n@ == "GLPK"@,
    {
        "GLPK"
    }

    /// Screens the request and prepares the engine call. The engine has no
    /// presolve switch of its own, so `use_presolve` changes nothing.
    pub fn plan<C>(
        &self,
        polyhedron: &SparseLEIntegerPolyhedron,
        objectives: &Vec<Objective<C>>,
        direction: SolverDirection,
        use_presolve: bool,
    ) -> (r: Result<Plan<GlpkProblem>, SolveInputError>)
        ensures
            r is Err <==> !objectives_declared(polyhedron.variables@, objectives@),
            r matches Ok(Plan::EmptySpace(_)) <==> objectives_declared(
                polyhedron.variables@,
                objectives@,
            ) && polyhedron.a.nnz() == 0,
            r matches Err(error) ==> names_first_undeclared(
                polyhedron.variables@,
                objectives@,
                error@,
            ),
            r matches Ok(Plan::EmptySpace(solutions)) ==> polyhedron.a.nnz() == 0
                && all_empty_space(solutions@, objectives@.len() as int),
            r matches Ok(Plan::Engine(problem)) ==> polyhedron.a.nnz() > 0 && problem.describes(
                *polyhedron,
                direction,
            ),
    {
        match screen(polyhedron, objectives) {
            Err(error) => Err(error),
            Ok(Some(solutions)) => Ok(Plan::EmptySpace(solutions)),
            Ok(None) => {
                let maximize = match direction {
                    SolverDirection::Maximize => true,
                    SolverDirection::Minimize => false,
                };
                Ok(
                    Plan::Engine(
                        GlpkProblem {
                            polyhedron: to_glpk_polyhedron(polyhedron),
                            maximize,
                            terminal_output: false,
                        },
                    ),
                )
            },
        }
    }
}

} // verus!
