use glpk_api::hexaly::{duplicate_all, Expression, Goal, HexalyOptimizer, Model, Param, State};
use glpk_api::models::{
    ApiIntegerSparseMatrix, ApiShape, ApiVariable, Objective, SolverDirection,
    SparseLEIntegerPolyhedron, Status,
};
use glpk_api::solver::Plan;
use glpk_api::solvers::HexalySolver;

fn variable(id: &str, lower: i32, upper: i32) -> ApiVariable {
    ApiVariable { id: id.to_string(), bound: (lower, upper) }
}

fn rounded(entries: &[(&str, i64)]) -> Objective<i64> {
    Objective { entries: entries.iter().map(|(id, c)| (id.to_string(), *c)).collect() }
}

fn times(coefficient: i64, column: usize) -> Expression {
    Expression::Prod(vec![Expression::Scalar(coefficient), Expression::Int(column)])
}

fn at_most(terms: Vec<Expression>, rhs: i64) -> Expression {
    Expression::Leq(Box::new(Expression::Sum(terms)), Box::new(Expression::Scalar(rhs)))
}

#[test]
fn a_model_is_built_step_by_step() {
    let mut model = Model::new();
    let x = model.int_var(0, 10);
    let y = model.int_var(0, 10);
    assert_eq!((x.duplicate(), y.duplicate()), (Expression::Int(0), Expression::Int(1)));
    let mut sum_xy = model.sum();
    model.add_operand(&mut sum_xy, &x);
    model.add_operand(&mut sum_xy, &y);
    let ten = model.scalar(10);
    let constraint = model.leq(&sum_xy, &ten);
    model.add_constraint(constraint);
    let mut objective = model.sum();
    model.add_operand(&mut objective, &x);
    model.add_operand(&mut objective, &y);
    model.maximize(objective);
    model.close();
    assert_eq!(
        model,
        Model {
            variables: vec![(0, 10), (0, 10)],
            constraints: vec![at_most(vec![Expression::Int(0), Expression::Int(1)], 10)],
            objective: Some(Goal {
                maximize: true,
                expression: Expression::Sum(vec![Expression::Int(0), Expression::Int(1)]),
            }),
            closed: true,
        }
    );
}

#[test]
fn comparisons_and_products() {
    let model = Model::new();
    let a = model.scalar(2);
    let b = model.scalar(3);
    assert_eq!(model.eq(&a, &b), Expression::Eq(Box::new(a.duplicate()), Box::new(b.duplicate())));
    assert_eq!(
        model.geq(&a, &b),
        Expression::Geq(Box::new(a.duplicate()), Box::new(b.duplicate()))
    );
    let mut product = model.prod();
    assert_eq!(product, Expression::Prod(vec![]));
    model.add_operand(&mut product, &a);
    model.add_operand(&mut product, &b);
    assert_eq!(product, Expression::Prod(vec![Expression::Scalar(2), Expression::Scalar(3)]));
    assert_eq!(model.sum(), Expression::Sum(vec![]));
}

#[test]
fn minimising_replaces_the_objective() {
    let mut model = Model::new();
    let x = model.int_var(-1, 1);
    model.maximize(x.duplicate());
    model.minimize(x.duplicate());
    assert_eq!(model.objective, Some(Goal { maximize: false, expression: Expression::Int(0) }));
    assert!(!model.closed);
}

#[test]
fn copies_are_deep() {
    let source = at_most(vec![times(-4, 2), Expression::Int(0)], 9);
    assert_eq!(source.duplicate(), source);
    let list = vec![source.duplicate(), Expression::Scalar(1)];
    assert_eq!(duplicate_all(&list), list);
}

#[test]
fn settings_keep_the_defaults_that_are_not_set() {
    let mut param = Param::new();
    assert_eq!(param, Param { verbosity: None, time_limit: None, nb_threads: None });
    param.set_verbosity(0);
    param.set_time_limit(30);
    assert_eq!(param, Param { verbosity: Some(0), time_limit: Some(30), nb_threads: None });
    param.set_nb_threads(4);
    assert_eq!(param.nb_threads, Some(4));
}

#[test]
fn an_environment_takes_in_what_the_engine_reported() {
    let mut env = HexalyOptimizer::new().unwrap();
    assert_eq!(env.state(), State::Stopped);
    env.param().set_verbosity(0);
    assert_eq!(env.param.verbosity, Some(0));
    let x = env.model().int_var(0, 10);
    let y = env.model().int_var(0, 10);
    env.model().close();
    assert!(env.model.closed);
    env.record_solution(State::Stopped, vec![7, 3]);
    assert_eq!(env.state(), State::Stopped);
    assert_eq!(env.get_int_value(&x) + env.get_int_value(&y), 10);
    assert_eq!(env.get_int_value(&Expression::Int(5)), 0);
}

#[test]
fn run_state_numbers() {
    assert_eq!(State::from_code(0), Some(State::Stopped));
    assert_eq!(State::from_code(1), Some(State::Running));
    assert_eq!(State::from_code(2), Some(State::Paused));
    for unknown in [3, 4, 99, u32::MAX] {
        assert_eq!(State::from_code(unknown), None);
    }
    assert_eq!(HexalySolver::read_state(0), Ok(State::Stopped));
    assert_eq!(HexalySolver::read_state(2), Ok(State::Paused));
    assert_eq!(
        HexalySolver::read_state(7).unwrap_err().details,
        "Hexaly returned the unrecognized run state 7"
    );
}

#[test]
fn the_problem_that_every_objective_shares() {
    let polyhedron = SparseLEIntegerPolyhedron {
        a: ApiIntegerSparseMatrix {
            rows: vec![0, 0, 2],
            cols: vec![0, 1, 1],
            vals: vec![1, -1, -3],
            shape: ApiShape { nrows: 3, ncols: 2 },
        },
        b: vec![8, 0, -2],
        variables: vec![variable("a", 0, 1), variable("b", -4, 4)],
    };
    let problem = HexalySolver::problem(&polyhedron, SolverDirection::Minimize);
    assert!(!problem.maximize);
    assert_eq!(problem.bounds, vec![(0, 1), (-4, 4)]);
    let rows: Vec<(usize, Vec<(usize, i32)>, i32)> =
        problem.rows.iter().map(|r| (r.index, r.terms.clone(), r.rhs)).collect();
    assert_eq!(rows, vec![(0, vec![(0, 1), (1, -1)], 8), (2, vec![(1, -3)], -2)]);
    let objective = rounded(&[("b", 2)]);
    let from_problem =
        HexalySolver::model_for(&problem, &polyhedron.variables, &objective).unwrap();
    let direct = HexalySolver::build(&polyhedron, &objective, SolverDirection::Minimize).unwrap();
    assert_eq!(from_problem, direct);
    assert_eq!(
        from_problem.model.constraints,
        vec![
            at_most(vec![Expression::Int(0), times(-1, 1)], 8),
            at_most(vec![times(-3, 1)], -2),
        ]
    );
    assert_eq!(
        from_problem.model.objective,
        Some(Goal { maximize: false, expression: Expression::Sum(vec![times(2, 1)]) })
    );
}

#[test]
fn run_states_and_statuses() {
    assert_eq!(HexalySolver::convert_status(State::Stopped), Status::Optimal);
    assert_eq!(HexalySolver::convert_status(State::Running), Status::Undefined);
    assert_eq!(HexalySolver::convert_status(State::Paused), Status::Undefined);
}

#[test]
fn the_environment_for_a_mixed_row() {
    let polyhedron = SparseLEIntegerPolyhedron {
        a: ApiIntegerSparseMatrix {
            rows: vec![0, 0, 0, 0, 2],
            cols: vec![0, 1, 2, 3, 1],
            vals: vec![1, -1, 5, 0, -3],
            shape: ApiShape { nrows: 3, ncols: 4 },
        },
        b: vec![8, 0, -2],
        variables: vec![
            variable("a", 0, 1),
            variable("b", -4, 4),
            variable("c", 2, 2),
            variable("d", 0, 9),
        ],
    };
    let objective = rounded(&[("d", -1), ("a", 1), ("c", 0), ("b", 6)]);
    let env = HexalySolver::build(&polyhedron, &objective, SolverDirection::Minimize).unwrap();
    assert_eq!(env.param, Param { verbosity: Some(0), time_limit: None, nb_threads: None });
    assert_eq!(env.state, State::Stopped);
    assert!(env.values.is_empty());
    assert_eq!(
        env.model,
        Model {
            variables: vec![(0, 1), (-4, 4), (2, 2), (0, 9)],
            constraints: vec![
                at_most(vec![Expression::Int(0), times(-1, 1), times(5, 2)], 8),
                at_most(vec![times(-3, 1)], -2),
            ],
            objective: Some(Goal {
                maximize: false,
                expression: Expression::Sum(vec![
                    Expression::Int(0),
                    times(6, 1),
                    times(-1, 3),
                ]),
            }),
            closed: true,
        }
    );
}

#[test]
fn the_zero_objective_gives_an_empty_sum() {
    let polyhedron = SparseLEIntegerPolyhedron {
        a: ApiIntegerSparseMatrix {
            rows: vec![0],
            cols: vec![0],
            vals: vec![1],
            shape: ApiShape { nrows: 1, ncols: 1 },
        },
        b: vec![1],
        variables: vec![variable("x", 0, 1)],
    };
    for objective in [rounded(&[]), rounded(&[("x", 0)])] {
        let env = HexalySolver::build(&polyhedron, &objective, SolverDirection::Maximize).unwrap();
        assert_eq!(
            env.model.objective,
            Some(Goal { maximize: true, expression: Expression::Sum(vec![]) })
        );
    }
}

#[test]
fn one_environment_per_objective() {
    let polyhedron = SparseLEIntegerPolyhedron {
        a: ApiIntegerSparseMatrix {
            rows: vec![0, 0],
            cols: vec![0, 1],
            vals: vec![2, 3],
            shape: ApiShape { nrows: 1, ncols: 2 },
        },
        b: vec![100],
        variables: vec![variable("x", 0, 100), variable("y", 0, 100)],
    };
    let objectives = vec![rounded(&[("x", 1), ("y", 2)]), rounded(&[("y", -1)])];
    let plan = HexalySolver::new()
        .plan(&polyhedron, &objectives, SolverDirection::Maximize, true)
        .unwrap();
    match plan {
        Plan::Engine(environments) => {
            assert_eq!(environments.len(), 2);
            for env in environments.iter() {
                assert_eq!(env.model.constraints, vec![at_most(vec![times(2, 0), times(3, 1)], 100)]);
                assert!(env.model.closed);
            }
            assert_eq!(
                environments[0].model.objective,
                Some(Goal {
                    maximize: true,
                    expression: Expression::Sum(vec![Expression::Int(0), times(2, 1)]),
                })
            );
            assert_eq!(
                environments[1].model.objective,
                Some(Goal { maximize: true, expression: Expression::Sum(vec![times(-1, 1)]) })
            );
        }
        other => panic!("unexpected plan {:?}", other),
    }
}

#[test]
fn reported_values_are_cut_down_to_32_bits() {
    let variables = vec![variable("x", 0, 100), variable("y", 0, 100), variable("z", 0, 1)];
    let mut env = HexalyOptimizer::new().unwrap();
    env.model.close();
    env.record_solution(State::Stopped, vec![33, 4294967297]);
    let entries = HexalySolver::assignment(&env, &variables);
    assert_eq!(
        entries,
        vec![("x".to_string(), 33), ("y".to_string(), 1), ("z".to_string(), 0)]
    );
    let answer = HexalySolver::solution(&env, entries, 66);
    assert_eq!(answer.status, Status::Optimal);
    assert_eq!(answer.objective, 66);
    assert_eq!(answer.error, None);
    env.record_solution(State::Running, vec![]);
    assert_eq!(HexalySolver::solution(&env, vec![], 0).status, Status::Undefined);
}

#[test]
fn the_error_of_an_environment_that_cannot_be_created() {
    assert_eq!(
        HexalySolver::environment_failure("no licence").details,
        "Failed to create Hexaly environment: no licence"
    );
}
