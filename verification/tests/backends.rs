use glpk_api::models::{
    ApiIntegerSparseMatrix, ApiShape, ApiSolution, ApiVariable, Objective, SolveRequest,
    SolverDirection, SparseLEIntegerPolyhedron, Status,
};
use glpk_api::solve::{solve, EnginePlan};
use glpk_api::solver::{assign, column_costs, empty_space_solutions, screen, Plan};
use glpk_api::solver_factory::{create_solver, Solver, SolverType};
use glpk_api::solvers::gurobi_solver::{GurobiRun, GurobiStep, GurobiVariableKind};
use glpk_api::solvers::highs_solver::{HighsLoadStep, HighsRun};
use glpk_api::solvers::{GlpkSolver, GurobiSolver, HexalySolver, HighsSolver};

fn variable(id: &str, lower: i32, upper: i32) -> ApiVariable {
    ApiVariable { id: id.to_string(), bound: (lower, upper) }
}

fn objective(entries: &[(&str, f64)]) -> Objective<f64> {
    Objective { entries: entries.iter().map(|(id, c)| (id.to_string(), *c)).collect() }
}

fn rounded(entries: &[(&str, i64)]) -> Objective<i64> {
    Objective { entries: entries.iter().map(|(id, c)| (id.to_string(), *c)).collect() }
}

fn triangle() -> SparseLEIntegerPolyhedron {
    SparseLEIntegerPolyhedron {
        a: ApiIntegerSparseMatrix {
            rows: vec![0, 0, 1, 1, 2, 2],
            cols: vec![0, 1, 0, 2, 1, 2],
            vals: vec![1, 1, 1, 1, 1, 1],
            shape: ApiShape { nrows: 3, ncols: 3 },
        },
        b: vec![1, 1, 1],
        variables: vec![variable("x1", 0, 1), variable("x2", 0, 1), variable("x3", 0, 1)],
    }
}

fn knapsack() -> SparseLEIntegerPolyhedron {
    SparseLEIntegerPolyhedron {
        a: ApiIntegerSparseMatrix {
            rows: vec![0, 0],
            cols: vec![0, 1],
            vals: vec![2, 3],
            shape: ApiShape { nrows: 1, ncols: 2 },
        },
        b: vec![100],
        variables: vec![variable("x", 0, 100), variable("y", 0, 100)],
    }
}

fn without_entries() -> SparseLEIntegerPolyhedron {
    SparseLEIntegerPolyhedron {
        a: ApiIntegerSparseMatrix {
            rows: vec![],
            cols: vec![],
            vals: vec![],
            shape: ApiShape { nrows: 0, ncols: 2 },
        },
        b: vec![],
        variables: vec![variable("x", 0, 5), variable("y", 0, 5)],
    }
}

fn empty_space() -> ApiSolution {
    ApiSolution { status: Status::EmptySpace, objective: 0, solution: vec![], error: None }
}

/// The value of an objective with whole coefficients at a solution.
fn objective_value(objective: &Objective<f64>, solution: &ApiSolution) -> i32 {
    let whole = Objective {
        entries: objective.entries.iter().map(|(id, c)| (id.clone(), *c as i64)).collect(),
    };
    glpk_api::objective::objective_value(&whole, &solution.solution).unwrap()
}

fn all_backends() -> Vec<Solver> {
    vec![
        create_solver(SolverType::Glpk),
        create_solver(SolverType::Highs),
        create_solver(SolverType::Gurobi),
        create_solver(SolverType::Hexaly),
    ]
}

#[test]
fn an_empty_matrix_is_answered_without_an_engine_by_every_backend() {
    let polyhedron = without_entries();
    let objectives = vec![objective(&[("x", 1.0)]), objective(&[])];
    for solver in all_backends() {
        let plan = solver.plan(&polyhedron, &objectives, SolverDirection::Maximize, true).unwrap();
        assert_eq!(plan, Plan::EmptySpace(vec![empty_space(), empty_space()]));
    }
    let integer_objectives = vec![rounded(&[("x", 1)]), rounded(&[])];
    let plan = HexalySolver::new()
        .plan(&polyhedron, &integer_objectives, SolverDirection::Minimize, false)
        .unwrap();
    assert_eq!(plan, Plan::EmptySpace(vec![empty_space(), empty_space()]));
}

#[test]
fn an_empty_matrix_with_no_objectives_gives_no_answers() {
    let none: Vec<Objective<f64>> = Vec::new();
    let plan = GlpkSolver::new()
        .plan(&without_entries(), &none, SolverDirection::Maximize, false)
        .unwrap();
    assert_eq!(plan, Plan::EmptySpace(vec![]));
    assert!(empty_space_solutions(0).is_empty());
    assert_eq!(empty_space_solutions(3), vec![empty_space(), empty_space(), empty_space()]);
}

#[test]
fn an_undeclared_variable_is_rejected_by_every_backend() {
    let polyhedron = triangle();
    let objectives = vec![objective(&[("x1", 1.0)]), objective(&[("nope", 1.0)])];
    for solver in all_backends() {
        let error = solver
            .plan(&polyhedron, &objectives, SolverDirection::Maximize, false)
            .unwrap_err();
        assert_eq!(error.details, "Objective contains missing variable nope");
    }
    let error = HexalySolver::new()
        .plan(&polyhedron, &vec![rounded(&[("nope", 1)])], SolverDirection::Maximize, false)
        .unwrap_err();
    assert_eq!(error.details, "Objective contains missing variable nope");
}

#[test]
fn an_undeclared_variable_is_rejected_even_with_an_empty_matrix() {
    let objectives = vec![objective(&[("z", 1.0)])];
    assert!(screen(&without_entries(), &objectives).is_err());
    for solver in all_backends() {
        assert!(solver
            .plan(&without_entries(), &objectives, SolverDirection::Maximize, false)
            .is_err());
    }
}

#[test]
fn screening_lets_a_sound_request_through() {
    let objectives = vec![objective(&[("x1", 1.0)])];
    assert_eq!(screen(&triangle(), &objectives), Ok(None));
}

#[test]
fn a_request_with_mismatched_dimensions_reaches_no_backend() {
    let mut polyhedron = triangle();
    polyhedron.variables.pop();
    let req = SolveRequest {
        polyhedron,
        objectives: vec![objective(&[("x1", 1.0)])],
        direction: SolverDirection::Maximize,
    };
    for solver in all_backends() {
        let error = solve(&solver, &req, false).unwrap_err();
        assert_eq!(
            error.details,
            "Number of variables must match number of columns in A got 2 variables and 3 columns"
        );
    }
}

#[test]
fn dimensions_are_checked_before_the_objectives() {
    let mut polyhedron = triangle();
    polyhedron.b.pop();
    let req = SolveRequest {
        polyhedron,
        objectives: vec![objective(&[("nope", 1.0)])],
        direction: SolverDirection::Maximize,
    };
    let error = solve(&create_solver(SolverType::Glpk), &req, false).unwrap_err();
    assert_eq!(
        error.details,
        "Number of values in b must match number of rows in A got 2 values and 3 rows"
    );
}

#[test]
fn solve_hands_each_backend_its_own_plan() {
    let req = SolveRequest {
        polyhedron: triangle(),
        objectives: vec![objective(&[("x3", 1.0)])],
        direction: SolverDirection::Maximize,
    };
    match solve(&create_solver(SolverType::Glpk), &req, true).unwrap() {
        Plan::Engine(EnginePlan::Glpk(problem)) => {
            assert!(problem.maximize);
            assert!(!problem.terminal_output);
            assert_eq!(problem.polyhedron.b, vec![(0, 1), (0, 1), (0, 1)]);
            assert_eq!(problem.polyhedron.a.rows, vec![0, 0, 1, 1, 2, 2]);
            assert_eq!(problem.polyhedron.variables, triangle().variables);
            assert!(!problem.polyhedron.double_bound);
        }
        other => panic!("unexpected plan {:?}", other),
    }
    assert!(matches!(
        solve(&create_solver(SolverType::Highs), &req, true).unwrap(),
        Plan::Engine(EnginePlan::Highs(_))
    ));
    assert!(matches!(
        solve(&create_solver(SolverType::Gurobi), &req, true).unwrap(),
        Plan::Engine(EnginePlan::Gurobi(_))
    ));
    match solve(&create_solver(SolverType::Hexaly), &req, true).unwrap() {
        Plan::Engine(EnginePlan::Hexaly(problem)) => {
            assert!(problem.maximize);
            assert_eq!(problem.bounds, vec![(0, 1), (0, 1), (0, 1)]);
            let rows: Vec<(usize, Vec<(usize, i32)>, i32)> =
                problem.rows.iter().map(|r| (r.index, r.terms.clone(), r.rhs)).collect();
            assert_eq!(
                rows,
                vec![
                    (0, vec![(0, 1), (1, 1)], 1),
                    (1, vec![(0, 1), (2, 1)], 1),
                    (2, vec![(1, 1), (2, 1)], 1),
                ]
            );
        }
        other => panic!("unexpected plan {:?}", other),
    }
}

#[test]
fn planning_twice_gives_the_same_plan() {
    let objectives = vec![objective(&[("x", 1.0), ("y", 2.0)])];
    for solver in all_backends() {
        let first = solver.plan(&knapsack(), &objectives, SolverDirection::Maximize, true);
        let second = solver.plan(&knapsack(), &objectives, SolverDirection::Maximize, true);
        assert_eq!(first, second);
    }
}

#[test]
fn the_native_handle_model_of_the_triangle() {
    let model = HighsSolver::model(&triangle(), SolverDirection::Maximize, true);
    assert!(model.presolve);
    assert!(!model.output_flag);
    assert_eq!(model.presolve_option(), "on");
    assert_eq!(model.sense, -1);
    assert_eq!(model.n_rows, 3);
    assert_eq!(model.row_lower, vec![None, None, None]);
    assert_eq!(model.row_upper, vec![1, 1, 1]);
    assert_eq!(model.matrix.col_start, vec![0, 2, 4, 6]);
    assert_eq!(model.matrix.col_index, vec![0, 1, 0, 2, 1, 2]);
    assert_eq!(model.matrix.col_value, vec![1, 1, 1, 1, 1, 1]);
    assert_eq!(model.col_lower, vec![0, 0, 0]);
    assert_eq!(model.col_upper, vec![1, 1, 1]);
    assert_eq!(model.col_integrality, vec![1, 1, 1]);
}

#[test]
fn the_native_handle_model_minimising_without_presolve() {
    let model = HighsSolver::model(&knapsack(), SolverDirection::Minimize, false);
    assert!(!model.presolve);
    assert_eq!(model.presolve_option(), "off");
    assert_eq!(model.sense, 1);
    assert_eq!(model.row_upper, vec![100]);
    assert_eq!(model.matrix.col_start, vec![0, 1, 2]);
    assert_eq!(model.matrix.col_index, vec![0, 0]);
    assert_eq!(model.matrix.col_value, vec![2, 3]);
    assert_eq!(model.col_lower, vec![0, 0]);
    assert_eq!(model.col_upper, vec![100, 100]);
}

#[test]
fn native_handle_status_numbers() {
    assert_eq!(HighsSolver::convert_status(7), Some(Status::Optimal));
    assert_eq!(HighsSolver::convert_status(8), Some(Status::Infeasible));
    assert_eq!(HighsSolver::convert_status(9), Some(Status::Unbounded));
    assert_eq!(HighsSolver::convert_status(10), Some(Status::Unbounded));
    for other in [0, 1, 2, 3, 4, 5, 6, 11, 12, 13, 14, 15, 16, 17] {
        assert_eq!(HighsSolver::convert_status(other), Some(Status::Undefined));
    }
}

#[test]
fn a_native_handle_status_outside_the_vocabulary_is_no_status() {
    for unknown in [-1, 18, 99, i32::MIN, i32::MAX] {
        assert_eq!(HighsSolver::convert_status(unknown), None);
    }
    let run = HighsRun::Solved { model_status: 99, solution: vec![], objective: 0 };
    let error = HighsSolver::solution(run).unwrap_err();
    assert_eq!(error.details, "HiGHS returned the unrecognized model status 99");
    assert_eq!(
        HighsSolver::unknown_status(-1).details,
        "HiGHS returned the unrecognized model status -1"
    );
    let runs = vec![
        HighsRun::Solved { model_status: 7, solution: vec![], objective: 0 },
        HighsRun::Failed(4),
        HighsRun::Solved { model_status: 18, solution: vec![], objective: 0 },
        HighsRun::Solved { model_status: 99, solution: vec![], objective: 0 },
    ];
    let error = HighsSolver::solutions(runs).unwrap_err();
    assert_eq!(error.details, "HiGHS returned the unrecognized model status 18");
}

#[test]
fn the_native_handle_model_is_loaded_rows_first() {
    let model = HighsSolver::model(&triangle(), SolverDirection::Maximize, true);
    assert_eq!(
        model.load_steps(),
        vec![
            HighsLoadStep::SetPresolve,
            HighsLoadStep::SetOutputFlag,
            HighsLoadStep::SetSense,
            HighsLoadStep::AddRows,
            HighsLoadStep::AddColumns,
            HighsLoadStep::MarkInteger(0),
            HighsLoadStep::MarkInteger(1),
            HighsLoadStep::MarkInteger(2),
        ]
    );
    let none = HighsSolver::model(&without_entries(), SolverDirection::Minimize, false);
    assert_eq!(none.load_steps().len(), 5 + 2);
    let empty = SparseLEIntegerPolyhedron {
        a: ApiIntegerSparseMatrix {
            rows: vec![],
            cols: vec![],
            vals: vec![],
            shape: ApiShape { nrows: 0, ncols: 0 },
        },
        b: vec![],
        variables: vec![],
    };
    assert_eq!(
        HighsSolver::model(&empty, SolverDirection::Minimize, false).load_steps(),
        vec![
            HighsLoadStep::SetPresolve,
            HighsLoadStep::SetOutputFlag,
            HighsLoadStep::SetSense,
            HighsLoadStep::AddRows,
            HighsLoadStep::AddColumns,
        ]
    );
}

#[test]
fn a_failed_run_answers_its_objective_alone() {
    let runs = vec![
        HighsRun::Solved { model_status: 7, solution: vec![("x".to_string(), 2)], objective: 2 },
        HighsRun::Failed(-1),
        HighsRun::Solved { model_status: 8, solution: vec![("x".to_string(), 0)], objective: 0 },
    ];
    let answers = HighsSolver::solutions(runs).unwrap();
    assert_eq!(answers.len(), 3);
    assert_eq!(
        answers[0],
        ApiSolution {
            status: Status::Optimal,
            objective: 2,
            solution: vec![("x".to_string(), 2)],
            error: None
        }
    );
    assert_eq!(
        answers[1],
        ApiSolution {
            status: Status::Undefined,
            objective: 0,
            solution: vec![],
            error: Some("HiGHS solve failed with status -1".to_string()),
        }
    );
    assert_eq!(answers[2].status, Status::Infeasible);
    assert_eq!(
        HighsSolver::solution(HighsRun::Failed(3)).unwrap().error,
        Some("HiGHS solve failed with status 3".to_string())
    );
    assert_eq!(HighsSolver::instance_failure().details, "Failed to create HiGHS instance");
}

#[test]
fn costs_follow_the_columns() {
    let variables = triangle().variables;
    let costs = column_costs(&variables, &objective(&[("x3", 1.0), ("x1", -2.5)]));
    assert_eq!(costs, vec![Some(-2.5), None, Some(1.0)]);
}

#[test]
fn the_zero_objective_gives_no_column_a_cost() {
    let variables = triangle().variables;
    assert_eq!(column_costs(&variables, &objective(&[])), vec![None, None, None]);
    assert!(GurobiSolver::objective_terms(&variables, &objective(&[])).is_empty());
    let zero = objective(&[]);
    let solution = ApiSolution {
        status: Status::Optimal,
        objective: 0,
        solution: assign(&variables, &vec![1, 0, 1]),
        error: None,
    };
    assert_eq!(objective_value(&zero, &solution), 0);
}

#[test]
fn reported_values_are_named_in_column_order() {
    let variables = triangle().variables;
    assert_eq!(
        assign(&variables, &vec![0, 0, 1]),
        vec![("x1".to_string(), 0), ("x2".to_string(), 0), ("x3".to_string(), 1)]
    );
    assert_eq!(
        assign(&variables, &vec![5]),
        vec![("x1".to_string(), 5), ("x2".to_string(), 0), ("x3".to_string(), 0)]
    );
    assert!(assign(&vec![], &vec![1, 2]).is_empty());
}

#[test]
fn the_commercial_model_of_the_triangle() {
    let model = GurobiSolver::model(&triangle(), SolverDirection::Maximize, true);
    assert_eq!((model.output_flag, model.threads, model.presolve), (0, 0, -1));
    assert!(model.maximize);
    let names: Vec<&str> = model.variables.iter().map(|v| v.name.as_str()).collect();
    assert_eq!(names, vec!["x1", "x2", "x3"]);
    assert!(model.variables.iter().all(|v| v.kind == GurobiVariableKind::Binary));
    let constraints: Vec<(&str, usize, Vec<(usize, i32)>, i32)> = model
        .constraints
        .iter()
        .map(|c| (c.name.as_str(), c.row.index, c.row.terms.clone(), c.row.rhs))
        .collect();
    assert_eq!(
        constraints,
        vec![
            ("c0", 0, vec![(0, 1), (1, 1)], 1),
            ("c1", 1, vec![(0, 1), (2, 1)], 1),
            ("c2", 2, vec![(1, 1), (2, 1)], 1),
        ]
    );
}

#[test]
fn the_commercial_model_names_constraints_by_their_rows() {
    let polyhedron = SparseLEIntegerPolyhedron {
        a: ApiIntegerSparseMatrix {
            rows: vec![11, 3],
            cols: vec![0, 0],
            vals: vec![1, 1],
            shape: ApiShape { nrows: 12, ncols: 1 },
        },
        b: vec![0, 0, 0, 7],
        variables: vec![variable("x", -5, 5)],
    };
    let model = GurobiSolver::model(&polyhedron, SolverDirection::Minimize, false);
    assert_eq!(model.presolve, 0);
    assert!(!model.maximize);
    assert_eq!(model.variables[0].kind, GurobiVariableKind::Integer { lower: -5, upper: 5 });
    let constraints: Vec<(&str, i32)> =
        model.constraints.iter().map(|c| (c.name.as_str(), c.row.rhs)).collect();
    assert_eq!(constraints, vec![("c3", 7), ("c11", 0)]);
}

#[test]
fn binary_is_chosen_for_zero_one_bounds_only() {
    assert_eq!(GurobiVariableKind::of(&variable("a", 0, 1)), GurobiVariableKind::Binary);
    assert_eq!(
        GurobiVariableKind::of(&variable("b", 0, 2)),
        GurobiVariableKind::Integer { lower: 0, upper: 2 }
    );
    assert_eq!(
        GurobiVariableKind::of(&variable("c", 1, 1)),
        GurobiVariableKind::Integer { lower: 1, upper: 1 }
    );
    assert_eq!(
        GurobiVariableKind::of(&variable("d", -1, 1)),
        GurobiVariableKind::Integer { lower: -1, upper: 1 }
    );
}

#[test]
fn commercial_status_numbers() {
    assert_eq!(GurobiSolver::convert_status(2), Some(Status::Optimal));
    assert_eq!(GurobiSolver::convert_status(3), Some(Status::Infeasible));
    assert_eq!(GurobiSolver::convert_status(4), Some(Status::Unbounded));
    assert_eq!(GurobiSolver::convert_status(5), Some(Status::Unbounded));
    for other in [1, 6, 7, 8, 9, 10, 11, 12, 13, 14, 15, 16, 17] {
        assert_eq!(GurobiSolver::convert_status(other), Some(Status::Undefined));
    }
}

#[test]
fn a_commercial_status_outside_the_vocabulary_ends_the_request() {
    for unknown in [0, -2, 18, 99, i32::MIN, i32::MAX] {
        assert_eq!(GurobiSolver::convert_status(unknown), None);
    }
    let runs = vec![
        GurobiRun::Solved { status: 2, solution: vec![("x".to_string(), 1)], objective: 1 },
        GurobiRun::Solved { status: 99, solution: vec![("x".to_string(), 0)], objective: 0 },
        GurobiRun::Refused { step: GurobiStep::Optimize, reason: "later".to_string() },
    ];
    let error = GurobiSolver::solutions(runs).unwrap_err();
    assert_eq!(error.details, "Failed to get model status: unrecognized status 99");
    assert_eq!(
        GurobiSolver::unknown_status(0).details,
        "Failed to get model status: unrecognized status 0"
    );
}

#[test]
fn objective_terms_skip_unmentioned_columns() {
    let variables = triangle().variables;
    let terms = GurobiSolver::objective_terms(&variables, &objective(&[("x3", 2.0), ("x1", 0.0)]));
    assert_eq!(terms, vec![(0, 0.0), (2, 2.0)]);
}

#[test]
fn a_value_that_the_engine_cannot_report_falls_back() {
    let fixed = variable("f", 4, 4);
    let free = variable("g", 0, 9);
    assert_eq!(GurobiSolver::value_or_fixed(&fixed, Some(7)), 7);
    assert_eq!(GurobiSolver::value_or_fixed(&fixed, None), 4);
    assert_eq!(GurobiSolver::value_or_fixed(&free, None), 0);
    assert_eq!(GurobiSolver::value_or_fixed(&free, Some(-3)), -3);
    let entries = GurobiSolver::assignment(&vec![fixed, free], &vec![None]);
    assert_eq!(entries, vec![("f".to_string(), 4), ("g".to_string(), 0)]);
}

#[test]
fn every_refusal_has_its_own_message() {
    let cases = [
        (GurobiStep::CreateEnvironment, "Failed to create Gurobi environment: e"),
        (GurobiStep::SetOutputFlag, "Failed to set Gurobi output flag: e"),
        (GurobiStep::SetThreads, "Failed to set Gurobi thread count: e"),
        (GurobiStep::SetPresolve, "Failed to set Gurobi presolve: e"),
        (GurobiStep::CreateModel, "Failed to create Gurobi model: e"),
        (GurobiStep::AddBinaryVariable, "Failed to add binary variable: e"),
        (GurobiStep::AddIntegerVariable, "Failed to add integer variable: e"),
        (GurobiStep::UpdateAfterVariables, "Failed to update model after adding variables: e"),
        (GurobiStep::AddConstraint, "Failed to add constraint: e"),
        (GurobiStep::UpdateAfterConstraints, "Failed to update model after adding constraints: e"),
        (GurobiStep::SetObjective, "Failed to set objective: e"),
        (GurobiStep::Optimize, "Failed to optimize: e"),
        (GurobiStep::ReadStatus, "Failed to get model status: e"),
    ];
    for (step, message) in cases {
        assert_eq!(GurobiSolver::failure(step, "e").details, message);
    }
}

#[test]
fn the_first_refusal_ends_the_request() {
    let runs = vec![
        GurobiRun::Solved { status: 2, solution: vec![("x".to_string(), 1)], objective: 1 },
        GurobiRun::Refused { step: GurobiStep::Optimize, reason: "out of memory".to_string() },
        GurobiRun::Refused { step: GurobiStep::CreateModel, reason: "later".to_string() },
    ];
    let error = GurobiSolver::solutions(runs).unwrap_err();
    assert_eq!(error.details, "Failed to optimize: out of memory");
}

#[test]
fn runs_that_went_through_are_answered_in_order() {
    let runs = vec![
        GurobiRun::Solved { status: 2, solution: vec![("x".to_string(), 1)], objective: 1 },
        GurobiRun::Solved { status: 5, solution: vec![("x".to_string(), 0)], objective: 0 },
    ];
    let answers = GurobiSolver::solutions(runs).unwrap();
    assert_eq!(answers.len(), 2);
    assert_eq!((answers[0].status, answers[0].objective), (Status::Optimal, 1));
    assert_eq!(answers[1].status, Status::Unbounded);
    assert!(answers.iter().all(|a| a.error.is_none()));
    assert_eq!(GurobiSolver::solutions(vec![]), Ok(vec![]));
}

#[test]
fn three_binaries_of_which_no_two_may_be_one() {
    let polyhedron = triangle();
    let target = objective(&[("x3", 1.0)]);
    let objectives = vec![target.clone()];
    let plan = HighsSolver::new().plan(&polyhedron, &objectives, SolverDirection::Maximize, false);
    assert!(matches!(plan, Ok(Plan::Engine(_))));
    let solution = assign(&polyhedron.variables, &vec![0, 0, 1]);
    let mut answer = HighsSolver::solution(HighsRun::Solved {
        model_status: 7,
        solution,
        objective: 0,
    })
    .unwrap();
    answer.objective = objective_value(&target, &answer);
    assert_eq!(answer.status, Status::Optimal);
    assert_eq!(answer.objective, 1);
    assert_eq!(answer.get(&"x3".to_string()), Some(1));
    assert_eq!(answer.get(&"x1".to_string()), Some(0));
    assert_eq!(answer.get(&"x2".to_string()), Some(0));
    let rows = glpk_api::solver::constraint_rows(&polyhedron);
    for row in rows {
        let lhs: i32 = row
            .terms
            .iter()
            .map(|(col, val)| val * answer.solution[*col].1)
            .sum();
        assert!(lhs <= row.rhs);
    }
}

#[test]
fn two_variables_under_one_weighted_bound() {
    let polyhedron = knapsack();
    let target = objective(&[("x", 1.0), ("y", 2.0)]);
    let model = GurobiSolver::model(&polyhedron, SolverDirection::Maximize, true);
    assert_eq!(model.constraints.len(), 1);
    assert_eq!(model.constraints[0].row.terms, vec![(0, 2), (1, 3)]);
    assert_eq!(model.constraints[0].row.rhs, 100);
    let solution = GurobiSolver::assignment(&polyhedron.variables, &vec![Some(0), Some(33)]);
    let mut answers = GurobiSolver::solutions(vec![GurobiRun::Solved {
        status: 2,
        solution,
        objective: 0,
    }])
    .unwrap();
    answers[0].objective = objective_value(&target, &answers[0]);
    assert_eq!(answers[0].status, Status::Optimal);
    assert_eq!(answers[0].objective, 66);
    assert_eq!(answers[0].get(&"x".to_string()), Some(0));
    assert_eq!(answers[0].get(&"y".to_string()), Some(33));
    assert!(2 * 0 + 3 * 33 <= 100);
}

#[test]
fn backend_names() {
    assert_eq!(GlpkSolver::new().name(), "GLPK");
    assert_eq!(HighsSolver::new().name(), "HiGHS");
    assert_eq!(GurobiSolver::new().name(), "Gurobi");
    assert_eq!(HexalySolver::new().name(), "Hexaly");
}

#[test]
fn lowercase_names_are_read_exactly() {
    assert_eq!(SolverType::from_lowercase("glpk"), Some(SolverType::Glpk));
    assert_eq!(SolverType::from_lowercase("highs"), Some(SolverType::Highs));
    assert_eq!(SolverType::from_lowercase("gurobi"), Some(SolverType::Gurobi));
    assert_eq!(SolverType::from_lowercase("hexaly"), Some(SolverType::Hexaly));
    assert_eq!(SolverType::from_lowercase("GLPK"), None);
    assert_eq!(SolverType::from_lowercase(""), None);
    assert_eq!(SolverType::from_lowercase("glpk "), None);
}

#[test]
fn names_are_read_without_regard_to_case() {
    assert_eq!(SolverType::from_str("gLpK"), Some(SolverType::Glpk));
    assert_eq!(SolverType::from_str("HEXALY"), Some(SolverType::Hexaly));
    assert_eq!(SolverType::from_str(""), None);
    assert_eq!(SolverType::from_str("cplex"), None);
}
