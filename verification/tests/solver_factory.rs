use glpk_api::hexaly::HexalyOptimizer;
use glpk_api::solver_factory::{create_solver, SolverType};

#[test]
fn test_solver_type_from_str() {
    assert_eq!(SolverType::from_str("glpk"), Some(SolverType::Glpk));
    assert_eq!(SolverType::from_str("GLPK"), Some(SolverType::Glpk));
    assert_eq!(SolverType::from_str("highs"), Some(SolverType::Highs));
    assert_eq!(SolverType::from_str("HiGHS"), Some(SolverType::Highs));
    assert_eq!(SolverType::from_str("gurobi"), Some(SolverType::Gurobi));
    assert_eq!(SolverType::from_str("Gurobi"), Some(SolverType::Gurobi));
    assert_eq!(SolverType::from_str("hexaly"), Some(SolverType::Hexaly));
    assert_eq!(SolverType::from_str("Hexaly"), Some(SolverType::Hexaly));
    assert_eq!(SolverType::from_str("unknown"), None);
}

#[test]
fn test_create_glpk_solver() {
    let solver = create_solver(SolverType::Glpk);
    assert_eq!(solver.name(), "GLPK");
}

#[test]
fn test_create_highs_solver() {
    let solver = create_solver(SolverType::Highs);
    assert_eq!(solver.name(), "HiGHS");
}

#[test]
fn test_create_gurobi_solver() {
    let solver = create_solver(SolverType::Gurobi);
    assert_eq!(solver.name(), "Gurobi");
}

#[test]
fn test_create_hexaly_solver() {
    let solver = create_solver(SolverType::Hexaly);
    assert_eq!(solver.name(), "Hexaly");
}

#[test]
fn test_create_solver() {
    let solver = HexalyOptimizer::new();
    assert!(solver.is_ok());
}
