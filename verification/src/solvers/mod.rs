//! One adapter per optimisation engine.

pub mod glpk_solver;
pub mod gurobi_solver;
pub mod hexaly_solver;
pub mod highs_session;
pub mod highs_solver;

pub use glpk_solver::GlpkSolver;
pub use gurobi_solver::GurobiSolver;
pub use hexaly_solver::HexalySolver;
pub use highs_solver::HighsSolver;
