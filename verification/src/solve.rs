//! A request on its way to an engine: the dimension check, the screening
//! of the objectives, and the description of the engine's work in the
//! shape of the configured backend.

use vstd::prelude::*;
use crate::models::{Objective, SolveRequest, SolverDirection, SparseLEIntegerPolyhedron};
use crate::solver::{all_empty_space, Plan};
use crate::solver_factory::{Solver, SolverType};
use crate::solvers::glpk_solver::GlpkProblem;
use crate::solvers::gurobi_solver::GurobiModel;
use crate::solvers::hexaly_solver::{HexalyProblem, HexalySolver};
use crate::solvers::highs_solver::HighsModel;
use crate::validate::{
    dimension_error, names_first_undeclared, objectives_declared, validate_solve_request,
    SolveInputError,
};

verus! {

/// The work of an engine, in the shape of its backend.
#[derive(Debug, PartialEq, Eq)]
pub enum EnginePlan {
    Glpk(GlpkProblem),
    Highs(HighsModel),
    Gurobi(GurobiModel),
    /// What every objective shares of the local-search engine's work.
    /// The model of one objective is made from it by
    /// `HexalySolver::model_for`, once the coefficients are rounded to
    /// integers.
    Hexaly(HexalyProblem),
}

impl EnginePlan {
    /// `self` is the plan of the backend `solver_type` for the given
    /// request.
    pub open spec fn describes(
        &self,
        solver_type: SolverType,
        polyhedron: SparseLEIntegerPolyhedron,
        direction: SolverDirection,
        use_presolve: bool,
    ) -> bool {
        match self {
            EnginePlan::Glpk(problem) => solver_type == SolverType::Glpk && problem.describes(
                polyhedron,
                direction,
            ),
            EnginePlan::Highs(model) => solver_type == SolverType::Highs && model.describes(
                polyhedron,
                direction,
                use_presolve,
            ),
            EnginePlan::Gurobi(model) => solver_type == SolverType::Gurobi && model.describes(
                polyhedron,
                direction,
                use_presolve,
            ),
            EnginePlan::Hexaly(problem) => solver_type == SolverType::Hexaly && problem.describes(
                polyhedron,
                direction,
            ),
        }
    }
}

impl EnginePlan {
    /// Both plans give the engine the same work.
    pub open spec fn agrees(&self, other: EnginePlan) -> bool {
        match (*self, other) {
            (EnginePlan::Glpk(first), EnginePlan::Glpk(second)) => first.agrees(second),
            (EnginePlan::Highs(first), EnginePlan::Highs(second)) => first.agrees(second),
            (EnginePlan::Gurobi(first), EnginePlan::Gurobi(second)) => first.agrees(second),
            (EnginePlan::Hexaly(first), EnginePlan::Hexaly(second)) => first.agrees(second),
            _ => false,
        }
    }
}

/// Planning the same request twice for the same backend, with the same
/// presolve setting, gives the engine the same work. What the engine then
/// reports is turned into answers by functions of the report alone, so
/// that equal reports give equal answers.
pub proof fn lemma_plan_determined(
    first: EnginePlan,
    second: EnginePlan,
    solver_type: SolverType,
    polyhedron: SparseLEIntegerPolyhedron,
    direction: SolverDirection,
    use_presolve: bool,
)
    requires
        first.describes(solver_type, polyhedron, direction, use_presolve),
        second.describes(solver_type, polyhedron, direction, use_presolve),
    ensures
        first.agrees(second),
{
    match (first, second) {
        (EnginePlan::Glpk(a), EnginePlan::Glpk(b)) => {
            crate::solvers::glpk_solver::lemma_problem_determined(a, b, polyhedron, direction);
        },
        (EnginePlan::Highs(a), EnginePlan::Highs(b)) => {
            crate::solvers::highs_solver::lemma_model_determined(
                a,
                b,
                polyhedron,
                direction,
                use_presolve,
            );
        },
        (EnginePlan::Gurobi(a), EnginePlan::Gurobi(b)) => {
            crate::solvers::gurobi_solver::lemma_model_determined(
                a,
                b,
                polyhedron,
                direction,
                use_presolve,
            );
        },
        (EnginePlan::Hexaly(a), EnginePlan::Hexaly(b)) => {
            crate::solvers::hexaly_solver::lemma_problem_determined(a, b, polyhedron, direction);
        },
        _ => {},
    }
}

impl Solver {
    /// Screens the request and describes the engine's work. Whatever the
    /// backend, an objective that mentions an undeclared variable rejects
    /// the request, and a matrix without entries is answered without any
    /// engine.
    pub fn plan<C>(
        &self,
        polyhedron: &SparseLEIntegerPolyhedron,
        objectives: &Vec<Objective<C>>,
        direction: SolverDirection,
        use_presolve: bool,
    ) -> (r: Result<Plan<EnginePlan>, SolveInputError>)
        requires
            polyhedron.a.readable(),
        ensures
            r is Err <==> !objectives_declared(polyhedron.variables@, objectives@),
            r matches Ok(Plan::EmptySpace(_)) <==> objectives_declared(
                polyhedron.variables@,
                objectives@,
            ) && polyhedron.a.nnz() == 0,
            r matches Err(error) ==> names_first_undeclared(
                polyhedron.variables@,
                objectives@,
                error@,
            ),
            r matches Ok(Plan::EmptySpace(solutions)) ==> all_empty_space(
                solutions@,
                objectives@.len() as int,
            ),
            r matches Ok(Plan::Engine(plan)) ==> plan.describes(
                self.solver_type(),
                *polyhedron,
                direction,
                use_presolve,
            ),
    {
        match self {
            Solver::Glpk(solver) => {
                match solver.plan(polyhedron, objectives, direction, use_presolve) {
                    Err(error) => Err(error),
                    Ok(Plan::EmptySpace(solutions)) => Ok(Plan::EmptySpace(solutions)),
                    Ok(Plan::Engine(problem)) => Ok(Plan::Engine(EnginePlan::Glpk(problem))),
                }
            },
            Solver::Highs(solver) => {
                match solver.plan(polyhedron, objectives, direction, use_presolve) {
                    Err(error) => Err(error),
                    Ok(Plan::EmptySpace(solutions)) => Ok(Plan::EmptySpace(solutions)),
                    Ok(Plan::Engine(model)) => Ok(Plan::Engine(EnginePlan::Highs(model))),
                }
            },
            Solver::Gurobi(solver) => {
                match solver.plan(polyhedron, objectives, direction, use_presolve) {
                    Err(error) => Err(error),
                    Ok(Plan::EmptySpace(solutions)) => Ok(Plan::EmptySpace(solutions)),
                    Ok(Plan::Engine(model)) => Ok(Plan::Engine(EnginePlan::Gurobi(model))),
                }
            },
            Solver::Hexaly(_) => {
                match crate::solver::screen(polyhedron, objectives) {
                    Err(error) => Err(error),
                    Ok(Some(solutions)) => Ok(Plan::EmptySpace(solutions)),
                    Ok(None) => Ok(
                        Plan::Engine(
                            EnginePlan::Hexaly(HexalySolver::problem(polyhedron, direction)),
                        ),
                    ),
                }
            },
        }
    }
}

/// Takes a request as far as the engine: rejects it where its dimensions
/// disagree, before anything else is looked at; rejects it where an
/// objective mentions an undeclared variable; answers it where the matrix
/// is empty; and otherwise describes the engine's work.
pub fn solve<C>(solver: &Solver, req: &SolveRequest<C>, use_presolve: bool) -> (r: Result<
    Plan<EnginePlan>,
    SolveInputError,
>)
    requires
        req.polyhedron.a.readable(),
    ensures
        r is Err <==> !req.polyhedron.dimensions_agree() || !objectives_declared(
            req.polyhedron.variables@,
            req.objectives@,
        ),
        r matches Err(error) ==> (if req.polyhedron.dimensions_agree() {
            names_first_undeclared(req.polyhedron.variables@, req.objectives@, error@)
        } else {
            Some(error@) == dimension_error(req.polyhedron)
        }),
        r matches Ok(Plan::EmptySpace(_)) <==> req.polyhedron.dimensions_agree()
            && objectives_declared(req.polyhedron.variables@, req.objectives@)
            && req.polyhedron.a.nnz() == 0,
        r matches Ok(Plan::EmptySpace(solutions)) ==> all_empty_space(
            solutions@,
            req.objectives@.len() as int,
        ),
        r matches Ok(Plan::Engine(plan)) ==> plan.describes(
            solver.solver_type(),
            req.polyhedron,
            req.direction,
            use_presolve,
        ),
{
    match validate_solve_request(req) {
        Err(error) => Err(error),
        Ok(()) => solver.plan(&req.polyhedron, &req.objectives, req.direction, use_presolve),
    }
}

} // verus!
