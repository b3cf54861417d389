//! Choice of the backend from its configured name.

use vstd::prelude::*;
use vstd::string::*;
use crate::solvers::glpk_solver::GlpkSolver;
use crate::solvers::gurobi_solver::GurobiSolver;
use crate::solvers::hexaly_solver::HexalySolver;
use crate::solvers::highs_solver::HighsSolver;

verus! {

/// The backends that can be configured.
#[derive(Clone, Copy, Debug, PartialEq, Eq, Structural)]
pub enum SolverType {
    Glpk,
    Highs,
    Gurobi,
    Hexaly,
}

/// The lowercase form of a text, as `str::to_lowercase` gives it.
pub uninterp spec fn lowercase_of(s: Seq<char>) -> Seq<char>;

/// Calls `str::to_lowercase`, which maps each character of the text to
/// its Unicode lowercase form. The contract only gives the result a name.
#[verifier::external_body]
fn to_lowercase(s: &str) -> (lower: String)
    ensures
        lower@ == lowercase_of(s@),
{
    s.to_lowercase()
}

impl SolverType {
    /// The backend that a name in lowercase stands for.
    pub open spec fn spec_from_lowercase(name: Seq<char>) -> Option<SolverType> {
        if name == "glpk"@ {
            Some(SolverType::Glpk)
        } else if name == "highs"@ {
            Some(SolverType::Highs)
        } else if name == "gurobi"@ {
            Some(SolverType::Gurobi)
        } else if name == "hexaly"@ {
            Some(SolverType::Hexaly)
        } else {
            None
        }
    }

    /// Reads a backend name that is already in lowercase: `glpk`, `highs`,
    /// `gurobi` or `hexaly`. Any other text names no backend.
    pub fn from_lowercase(name: &str) -> (r: Option<SolverType>)
        ensures
            r == Self::spec_from_lowercase(name@),
    {
        let name = String::from_str(name);
        if name == String::from_str("glpk") {
            Some(SolverType::Glpk)
        } else if name == String::from_str("highs") {
            Some(SolverType::Highs)
        } else if name == String::from_str("gurobi") {
            Some(SolverType::Gurobi)
        } else if name == String::from_str("hexaly") {
            Some(SolverType::Hexaly)
        } else {
            None
        }
    }

    /// Reads a backend name without regard to case.
    pub fn from_str(s: &str) -> (r: Option<SolverType>)
        ensures
            r == Self::spec_from_lowercase(lowercase_of(s@)),
    {
        let lower = to_lowercase(s);
        Self::from_lowercase(lower.as_str())
    }
}

/// A backend, ready to be shared by all requests: it holds no state.
#[derive(Clone, Copy, Debug, PartialEq, Eq)]
pub enum Solver {
    Glpk(GlpkSolver),
    Highs(HighsSolver),
    Gurobi(GurobiSolver),
    Hexaly(HexalySolver),
}

impl Solver {
    /// Which backend this is.
    pub open spec fn solver_type(&self) -> SolverType {
        match self {
            Solver::Glpk(_) => SolverType::Glpk,
            Solver::Highs(_) => SolverType::Highs,
            Solver::Gurobi(_) => SolverType::Gurobi,
            Solver::Hexaly(_) => SolverType::Hexaly,
        }
    }

    /// The name of a backend in diagnostics and configuration.
    pub open spec fn spec_name(solver_type: SolverType) -> Seq<char> {
        match solver_type {
            SolverType::Glpk => "GLPK"@,
            SolverType::Highs => "HiGHS"@,
            SolverType::Gurobi => "Gurobi"@,
            SolverType::Hexaly => "Hexaly"@,
        }
    }

    /// The backend's name in diagnostics and configuration.
    pub fn name(&self) -> (n: &'static str)
        ensures
            n@ == Self::spec_name(self.solver_type()),
    {
        match self {
            Solver::Glpk(solver) => solver.name(),
            Solver::Highs(solver) => solver.name(),
            Solver::Gurobi(solver) => solver.name(),
            Solver::Hexaly(solver) => solver.name(),
        }
    }
}

/// The backend of the given type.
pub fn create_solver(solver_type: SolverType) -> (solver: Solver)
    ensures
        solver.solver_type() == solver_type,
{
    match solver_type {
        SolverType::Glpk => Solver::Glpk(GlpkSolver::new()),
        SolverType::Highs => Solver::Highs(HighsSolver::new()),
        SolverType::Gurobi => Solver::Gurobi(GurobiSolver::new()),
        SolverType::Hexaly => Solver::Hexaly(HexalySolver::new()),
    }
}

} // verus!
