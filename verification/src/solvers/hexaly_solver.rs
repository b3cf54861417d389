//! Adapter for the local-search engine. Every objective gets an
//! environment of its own, whose model states each row of the polyhedron
//! as a comparison between a sum and a constant. The engine works on
//! integers throughout, so objectives reach this adapter with their
//! coefficients already rounded.
//!
//! The engine only tells whether it has stopped, not whether the point it
//! stopped at is proven best: a stopped run is reported as optimal, which
//! overstates what is known.

use vstd::prelude::*;
use crate::hexaly::{
    formulas, product_of, sum_of, Expression, Formula, HexalyOptimizer, Model, State,
};
use crate::matrix::{
    dot, lemma_grouping_keeps_rows, lemma_row_entries_within_shape, row_of, row_value,
};
use crate::models::{
    assignment_view, ApiSolution, ApiVariable, Objective, SolutionView, SolverDirection,
    SparseLEIntegerPolyhedron, Status,
};
use crate::solver::{
    all_empty_space, column_costs, constraint_rows, costs_of, rhs_of, rows_before, rows_match,
    screen, ConstraintRow, Plan,
};
use crate::text::{decimal_text, join, unsigned_to_string};
use crate::validate::{names_first_undeclared, objectives_declared, SolveInputError};

verus! {

/// The local-search backend.
#[derive(Clone, Copy, Debug, PartialEq, Eq)]
pub struct HexalySolver;

/// The term for `coefficient * x[column]`, for a coefficient other than
/// zero: the variable itself for the coefficient 1, and otherwise the
/// product of the coefficient and the variable.
pub open spec fn term(column: int, coefficient: int) -> Formula {
    if coefficient == 1 {
        Formula::Int(column)
    } else {
        Formula::Prod(seq![Formula::Scalar(coefficient), Formula::Int(column)])
    }
}

/// The operands of the sum that states a linear form: one term for each
/// pair with a coefficient other than zero, in order.
pub open spec fn linear_terms(pairs: Seq<(usize, i32)>) -> Seq<Formula>
    decreases pairs.len(),
{
    if pairs.len() == 0 {
        Seq::empty()
    } else {
        let rest = linear_terms(pairs.drop_last());
        if pairs.last().1 == 0 {
            rest
        } else {
            rest.push(term(pairs.last().0 as int, pairs.last().1 as int))
        }
    }
}

/// The constraint that states `sum of value * x[column] <= rhs`.
pub open spec fn row_formula(pairs: Seq<(usize, i32)>, rhs: i32) -> Formula {
    Formula::Leq(
        Box::new(Formula::Sum(linear_terms(pairs))),
        Box::new(Formula::Scalar(rhs as int)),
    )
}

/// The constraints that state the given rows, in order.
pub open spec fn row_formulas(rows: Seq<(int, Seq<(usize, i32)>, i32)>) -> Seq<Formula> {
    Seq::new(rows.len(), |k: int| row_formula(rows[k].1, rows[k].2))
}

/// The coefficient of column `j` under `objective`, zero where the
/// objective does not mention the column's variable.
pub open spec fn cost(variables: Seq<ApiVariable>, objective: Objective<i64>, j: int) -> int {
    match objective.coefficient(variables[j].id@) {
        Some(c) => c as int,
        None => 0,
    }
}

/// The operands of the objective sum over the columns `0..j_end`: one
/// term for each column with a cost other than zero.
pub open spec fn cost_terms(
    variables: Seq<ApiVariable>,
    objective: Objective<i64>,
    j_end: int,
) -> Seq<Formula>
    decreases j_end,
{
    if j_end <= 0 {
        Seq::empty()
    } else {
        let rest = cost_terms(variables, objective, j_end - 1);
        if cost(variables, objective, j_end - 1) == 0 {
            rest
        } else {
            rest.push(term(j_end - 1, cost(variables, objective, j_end - 1)))
        }
    }
}

/// The value of the linear objective over the columns `0..j_end` at the
/// point `x`.
pub open spec fn weighted_sum(
    variables: Seq<ApiVariable>,
    objective: Objective<i64>,
    j_end: int,
    x: Seq<int>,
) -> int
    decreases j_end,
{
    if j_end <= 0 {
        0
    } else {
        weighted_sum(variables, objective, j_end - 1, x) + cost(variables, objective, j_end - 1)
            * x[j_end - 1]
    }
}

/// The bounds of the decision variables made from `variables`.
pub open spec fn variable_bounds(variables: Seq<ApiVariable>) -> Seq<(i64, i64)> {
    Seq::new(variables.len(), |j: int| (variables[j].bound.0 as i64, variables[j].bound.1 as i64))
}

/// The part of the engine's work that every objective shares.
#[derive(Debug, PartialEq, Eq)]
pub struct HexalyProblem {
    /// Inclusive bounds of each decision variable, in the order of the
    /// declared variables.
    pub bounds: Vec<(i64, i64)>,
    /// The rows that hold an entry, each to become one constraint.
    pub rows: Vec<ConstraintRow>,
    pub maximize: bool,
}

impl HexalyProblem {
    /// `self` is the problem of `polyhedron` in the given direction.
    pub open spec fn describes(
        &self,
        polyhedron: SparseLEIntegerPolyhedron,
        direction: SolverDirection,
    ) -> bool {
        &&& self.bounds@ == variable_bounds(polyhedron.variables@)
        &&& rows_match(self.rows@, rows_before(polyhedron, polyhedron.a.shape.nrows as int))
        &&& self.maximize == (direction == SolverDirection::Maximize)
    }

    /// The constraints that state the rows of the problem, in order.
    pub open spec fn formulas(&self) -> Seq<Formula> {
        Seq::new(
            self.rows@.len(),
            |k: int| row_formula(self.rows@[k].terms@, self.rows@[k].rhs),
        )
    }

    /// Both problems give the engine the same bounds, rows and direction.
    pub open spec fn agrees(&self, other: HexalyProblem) -> bool {
        &&& self.bounds@ == other.bounds@
        &&& self.maximize == other.maximize
        &&& self.rows@.len() == other.rows@.len()
        &&& forall|k: int|
            0 <= k < self.rows@.len() ==> (#[trigger] self.rows@[k]).index == other.rows@[k].index
                && self.rows@[k].terms@ == other.rows@[k].terms@ && self.rows@[k].rhs
                == other.rows@[k].rhs
    }
}

/// Making the problem of the same polyhedron twice gives the engine the
/// same bounds, rows and direction.
pub proof fn lemma_problem_determined(
    first: HexalyProblem,
    second: HexalyProblem,
    polyhedron: SparseLEIntegerPolyhedron,
    direction: SolverDirection,
)
    requires
        first.describes(polyhedron, direction),
        second.describes(polyhedron, direction),
    ensures
        first.agrees(second),
{
    assert forall|k: int| 0 <= k < first.rows@.len() implies (#[trigger] first.rows@[k]).index
        == second.rows@[k].index && first.rows@[k].terms@ == second.rows@[k].terms@
        && first.rows@[k].rhs == second.rows@[k].rhs by {
        assert(second.rows@[k].rhs == rows_before(
            polyhedron,
            polyhedron.a.shape.nrows as int,
        )[k].2);
    }
}

/// `env` is the environment for `objective` over `problem`: quiet, closed,
/// nothing reported yet, with one decision variable per bound, one
/// constraint per row, and the objective sum over `variables` in the
/// problem's direction.
pub open spec fn models(
    env: HexalyOptimizer,
    problem: HexalyProblem,
    variables: Seq<ApiVariable>,
    objective: Objective<i64>,
) -> bool {
    &&& env.param.verbosity == Some(0i32)
    &&& env.param.time_limit is None
    &&& env.param.nb_threads is None
    &&& env.state == State::Stopped
    &&& env.values@.len() == 0
    &&& env.model.closed
    &&& env.model.variables@ == problem.bounds@
    &&& env.model.constraint_formulas() == problem.formulas()
    &&& env.model.goal() == Some(
        (problem.maximize, Formula::Sum(cost_terms(variables, objective, variables.len() as int))),
    )
}

/// `env` is the environment for `objective` over `polyhedron`: quiet,
/// closed, nothing reported yet, with one decision variable per declared
/// variable, one constraint per row that holds an entry, and the
/// objective sum in the given direction.
pub open spec fn describes(
    env: HexalyOptimizer,
    polyhedron: SparseLEIntegerPolyhedron,
    objective: Objective<i64>,
    direction: SolverDirection,
) -> bool {
    &&& env.param.verbosity == Some(0i32)
    &&& env.param.time_limit is None
    &&& env.param.nb_threads is None
    &&& env.state == State::Stopped
    &&& env.values@.len() == 0
    &&& env.model.closed
    &&& env.model.variables@ == variable_bounds(polyhedron.variables@)
    &&& env.model.constraint_formulas() == row_formulas(
        rows_before(polyhedron, polyhedron.a.shape.nrows as int),
    )
    &&& env.model.goal() == Some(
        (
            direction == SolverDirection::Maximize,
            Formula::Sum(
                cost_terms(polyhedron.variables@, objective, polyhedron.variables@.len() as int),
            ),
        ),
    )
}

/// Building the environment for the same objective twice gives the engine
/// the same settings and the same model.
pub proof fn lemma_environment_determined(
    first: HexalyOptimizer,
    second: HexalyOptimizer,
    polyhedron: SparseLEIntegerPolyhedron,
    objective: Objective<i64>,
    direction: SolverDirection,
)
    requires
        describes(first, polyhedron, objective, direction),
        describes(second, polyhedron, objective, direction),
    ensures
        first.param == second.param,
        first.model.closed == second.model.closed,
        first.model.variables@ == second.model.variables@,
        first.model.constraint_formulas() == second.model.constraint_formulas(),
        first.model.goal() == second.model.goal(),
{
}

/// The objective sum is worth the linear objective: the costs of the
/// columns times the values of their variables. An objective whose costs
/// are all zero is therefore worth zero at every point.
pub proof fn lemma_cost_terms_value(
    variables: Seq<ApiVariable>,
    objective: Objective<i64>,
    j_end: int,
    x: Seq<int>,
)
    requires
        0 <= j_end <= variables.len(),
    ensures
        sum_of(cost_terms(variables, objective, j_end), x) == weighted_sum(
            variables,
            objective,
            j_end,
            x,
        ),
        (forall|j: int| 0 <= j < j_end ==> cost(variables, objective, j) == 0) ==> sum_of(
            cost_terms(variables, objective, j_end),
            x,
        ) == 0,
    decreases j_end,
{
    if j_end > 0 {
        lemma_cost_terms_value(variables, objective, j_end - 1, x);
        let c = cost(variables, objective, j_end - 1);
        if c != 0 {
            assert(cost_terms(variables, objective, j_end).drop_last() =~= cost_terms(
                variables,
                objective,
                j_end - 1,
            ));
            lemma_term_value(j_end - 1, c, x);
        } else {
            assert(c * x[j_end - 1] == 0) by (nonlinear_arith)
                requires
                    c == 0,
            ;
        }
        if forall|j: int| 0 <= j < j_end ==> cost(variables, objective, j) == 0 {
            lemma_zero_costs(variables, objective, j_end, x);
        }
    }
}

/// A weighted sum whose weights are all zero is zero.
proof fn lemma_zero_costs(
    variables: Seq<ApiVariable>,
    objective: Objective<i64>,
    j_end: int,
    x: Seq<int>,
)
    requires
        0 <= j_end <= variables.len(),
        forall|j: int| 0 <= j < j_end ==> cost(variables, objective, j) == 0,
    ensures
        weighted_sum(variables, objective, j_end, x) == 0,
    decreases j_end,
{
    if j_end > 0 {
        lemma_zero_costs(variables, objective, j_end - 1, x);
        let c = cost(variables, objective, j_end - 1);
        assert(c * x[j_end - 1] == 0) by (nonlinear_arith)
            requires
                c == 0,
        ;
    }
}

/// The sum built from a linear form is worth the form's value: leaving out
/// the zero coefficients and writing a coefficient of 1 without a product
/// changes nothing.
pub proof fn lemma_linear_terms_value(pairs: Seq<(usize, i32)>, x: Seq<int>)
    ensures
        sum_of(linear_terms(pairs), x) == dot(pairs, x),
    decreases pairs.len(),
{
    if pairs.len() > 0 {
        lemma_linear_terms_value(pairs.drop_last(), x);
        let column = pairs.last().0 as int;
        let coefficient = pairs.last().1 as int;
        if coefficient != 0 {
            let rest = linear_terms(pairs.drop_last());
            assert(linear_terms(pairs).drop_last() =~= rest);
            lemma_term_value(column, coefficient, x);
        }
    }
}

/// A term is worth its coefficient times the value of its variable.
pub proof fn lemma_term_value(column: int, coefficient: int, x: Seq<int>)
    ensures
        term(column, coefficient).value(x) == coefficient * x[column],
{
    if coefficient != 1 {
        let operands = seq![Formula::Scalar(coefficient), Formula::Int(column)];
        let first = operands.drop_last();
        assert(first.drop_last() =~= Seq::<Formula>::empty());
        let p0 = product_of(first.drop_last(), x);
        let p1 = product_of(first, x);
        assert(p0 == 1);
        assert(first.last().value(x) == coefficient);
        assert(p1 == p0 * coefficient);
        assert(p1 == coefficient) by (nonlinear_arith)
            requires
                p0 == 1,
                p1 == p0 * coefficient,
        ;
        assert(operands.last().value(x) == x[column]);
        assert(product_of(operands, x) == p1 * x[column]);
    }
}

/// The constraint built from a row holds at a point exactly when the row's
/// inequality does.
pub proof fn lemma_row_formula_states_row(pairs: Seq<(usize, i32)>, rhs: i32, x: Seq<int>)
    ensures
        row_formula(pairs, rhs).value(x) == (if dot(pairs, x) <= rhs {
            1int
        } else {
            0int
        }),
{
    lemma_linear_terms_value(pairs, x);
    assert(Formula::Sum(linear_terms(pairs)).value(x) == sum_of(linear_terms(pairs), x));
    assert(Formula::Scalar(rhs as int).value(x) == rhs);
}

/// The constraint built for a row of the polyhedron holds at a point
/// exactly when the row's inequality `(A x)_r <= b_r` does.
pub proof fn lemma_constraint_states_inequality(
    polyhedron: SparseLEIntegerPolyhedron,
    r: int,
    x: Seq<int>,
)
    ensures
        row_formula(row_of(polyhedron.a, r), rhs_of(polyhedron.b@, r)).value(x) == (if row_value(
            polyhedron.a,
            r,
            x,
            polyhedron.a.rows@.len() as int,
        ) <= rhs_of(polyhedron.b@, r) {
            1int
        } else {
            0int
        }),
{
    lemma_grouping_keeps_rows(polyhedron.a, r, x, polyhedron.a.rows@.len() as int);
    lemma_row_formula_states_row(row_of(polyhedron.a, r), rhs_of(polyhedron.b@, r), x);
}

impl HexalySolver {
    pub fn new() -> (s: Self) {
        HexalySolver
    }

    /// The backend's name in diagnostics and configuration.
    pub fn name(&self) -> (n: &'static str)
        ensures
            n@ == "Hexaly"@,
    {
        "Hexaly"
    }

    /// The status that a run state stands for.
    pub open spec fn spec_convert_status(state: State) -> Status {
        match state {
            State::Stopped => Status::Optimal,
            State::Running => Status::Undefined,
            State::Paused => Status::Undefined,
        }
    }

    /// Reads the engine's run state: a stopped run counts as
    /// optimal, a running or paused one as undefined.
    pub fn convert_status(state: State) -> (s: Status)
        ensures
            s == Self::spec_convert_status(state),
    {
        match state {
            State::Stopped => Status::Optimal,
            State::Running => Status::Undefined,
            State::Paused => Status::Undefined,
        }
    }

    /// The message for a run state outside the engine's vocabulary.
    pub open spec fn unknown_state_message(code: int) -> Seq<char> {
        "Hexaly returned the unrecognized run state "@ + decimal_text(code)
    }

    /// Reads the run state that the engine reported as a number. A number
    /// outside the engine's vocabulary is never read as a state: it ends
    /// the request with the error that names it.
    pub fn read_state(code: u32) -> (r: Result<State, SolveInputError>)
        ensures
            State::spec_from_code(code as int) matches Some(state) ==> r == Ok::<
                State,
                SolveInputError,
            >(state),
            State::spec_from_code(code as int) is None ==> (r matches Err(error) && error@
                == Self::unknown_state_message(code as int)),
    {
        match State::from_code(code) {
            Some(state) => Ok(state),
            None => Err(
                SolveInputError {
                    details: join(
                        "Hexaly returned the unrecognized run state ",
                        unsigned_to_string(code as u64).as_str(),
                    ),
                },
            ),
        }
    }

    /// The error for an environment that the engine could not create.
    pub fn environment_failure(reason: &str) -> (error: SolveInputError)
        ensures
            error@ == "Failed to create Hexaly environment: "@ + reason@,
    {
        SolveInputError { details: join("Failed to create Hexaly environment: ", reason) }
    }

    /// Adds to `sum` the term for `coefficient * variable`; a coefficient
    /// of zero adds nothing.
    fn add_term(model: &Model, sum: &mut Expression, variable: &Expression, coefficient: i64)
        requires
            *old(sum) is Sum,
            variable is Int,
        ensures
            *final(sum) is Sum,
            old(sum).formula() matches Formula::Sum(operands) && final(sum).formula()
                == Formula::Sum(
                if coefficient == 0 {
                    operands
                } else {
                    operands.push(term(variable->Int_0 as int, coefficient as int))
                },
            ),
    {
        if coefficient == 1 {
            model.add_operand(sum, variable);
        } else if coefficient == -1 {
            let neg_one = model.scalar(-1);
            let mut neg_var = model.prod();
            model.add_operand(&mut neg_var, &neg_one);
            model.add_operand(&mut neg_var, variable);
            assert(neg_var.formula() == term(variable->Int_0 as int, -1)) by {
                assert(Seq::<Formula>::empty().push(neg_one.formula()).push(variable.formula())
                    =~= seq![Formula::Scalar(-1), Formula::Int(variable->Int_0 as int)]);
            }
            model.add_operand(sum, &neg_var);
        } else if coefficient != 0 {
            let coeff_expr = model.scalar(coefficient);
            let mut prod_expr = model.prod();
            model.add_operand(&mut prod_expr, &coeff_expr);
            model.add_operand(&mut prod_expr, variable);
            assert(prod_expr.formula() == term(variable->Int_0 as int, coefficient as int)) by {
                assert(Seq::<Formula>::empty().push(coeff_expr.formula()).push(variable.formula())
                    =~= seq![
                    Formula::Scalar(coefficient as int),
                    Formula::Int(variable->Int_0 as int),
                ]);
            }
            model.add_operand(sum, &prod_expr);
        }
    }

    /// The part of the engine's work that is the same for every
    /// objective: the bounds of the decision variables, the rows that hold
    /// an entry, and the direction. Entries outside the declared shape are
    /// dropped.
    pub fn problem(polyhedron: &SparseLEIntegerPolyhedron, direction: SolverDirection) -> (problem:
        HexalyProblem)
        requires
            polyhedron.a.readable(),
        ensures
            problem.describes(*polyhedron, direction),
    {
        let n = polyhedron.variables.len();
        let mut bounds: Vec<(i64, i64)> = Vec::new();
        let mut j: usize = 0;
        while j < n
            invariant
                n == polyhedron.variables@.len(),
                j <= n,
                bounds@ == variable_bounds(polyhedron.variables@).take(j as int),
            decreases n - j,
        {
            let bound = polyhedron.variables[j].bound;
            bounds.push((bound.0 as i64, bound.1 as i64));
            proof {
                assert(variable_bounds(polyhedron.variables@).take(j + 1)
                    =~= variable_bounds(polyhedron.variables@).take(j as int).push(
                    (bound.0 as i64, bound.1 as i64),
                ));
            }
            j = j + 1;
        }
        assert(variable_bounds(polyhedron.variables@).take(n as int) =~= variable_bounds(
            polyhedron.variables@,
        ));
        let maximize = match direction {
            SolverDirection::Maximize => true,
            SolverDirection::Minimize => false,
        };
        HexalyProblem { bounds, rows: constraint_rows(polyhedron), maximize }
    }

    /// Builds the environment for one objective over a problem: a decision
    /// variable per bound, a constraint per row, the objective sum over
    /// `variables` in the problem's direction, and the model closed.
    pub fn model_for(
        problem: &HexalyProblem,
        variables: &Vec<ApiVariable>,
        objective: &Objective<i64>,
    ) -> (r: Result<HexalyOptimizer, SolveInputError>)
        ensures
            r matches Ok(env) && models(env, *problem, variables@, *objective),
    {
        let mut ls = match HexalyOptimizer::new() {
            Ok(env) => env,
            Err(reason) => {
                return Err(Self::environment_failure(reason.as_str()));
            },
        };
        ls.param.set_verbosity(0);

        let mut j: usize = 0;
        while j < problem.bounds.len()
            invariant
                j <= problem.bounds@.len(),
                ls.model.variables@ == problem.bounds@.take(j as int),
                ls.model.constraints@.len() == 0,
                ls.model.objective is None,
                !ls.model.closed,
                ls.param.verbosity == Some(0i32),
                ls.param.time_limit is None,
                ls.param.nb_threads is None,
                ls.state == State::Stopped,
                ls.values@.len() == 0,
            decreases problem.bounds@.len() - j,
        {
            let bound = problem.bounds[j];
            let _ = ls.model.int_var(bound.0, bound.1);
            proof {
                assert(problem.bounds@.take(j + 1) =~= problem.bounds@.take(j as int).push(bound));
            }
            j = j + 1;
        }
        assert(problem.bounds@.take(problem.bounds@.len() as int) =~= problem.bounds@);

        proof {
            assert(formulas(ls.model.constraints@) =~= problem.formulas().take(0));
        }
        let mut k: usize = 0;
        while k < problem.rows.len()
            invariant
                k <= problem.rows@.len(),
                ls.model.variables@ == problem.bounds@,
                ls.model.constraint_formulas() == problem.formulas().take(k as int),
                ls.model.objective is None,
                !ls.model.closed,
                ls.param.verbosity == Some(0i32),
                ls.param.time_limit is None,
                ls.param.nb_threads is None,
                ls.state == State::Stopped,
                ls.values@.len() == 0,
            decreases problem.rows@.len() - k,
        {
            let row = &problem.rows[k];
            let mut constraint_sum = ls.model.sum();
            let mut t: usize = 0;
            assert(row.terms@.take(0) =~= Seq::empty());
            while t < row.terms.len()
                invariant
                    t <= row.terms@.len(),
                    constraint_sum is Sum,
                    constraint_sum.formula() == Formula::Sum(
                        linear_terms(row.terms@.take(t as int)),
                    ),
                decreases row.terms@.len() - t,
            {
                let (col_idx, coeff) = row.terms[t];
                proof {
                    assert(row.terms@.take(t + 1).drop_last() =~= row.terms@.take(t as int));
                }
                let variable = Expression::Int(col_idx);
                Self::add_term(&ls.model, &mut constraint_sum, &variable, coeff as i64);
                t = t + 1;
            }
            assert(row.terms@.take(row.terms@.len() as int) =~= row.terms@);
            let rhs_expr = ls.model.scalar(row.rhs as i64);
            let constraint = ls.model.leq(&constraint_sum, &rhs_expr);
            ls.model.add_constraint(constraint);
            proof {
                assert(problem.formulas().take(k + 1) =~= problem.formulas().take(k as int).push(
                    row_formula(row.terms@, row.rhs),
                ));
            }
            k = k + 1;
        }
        assert(problem.formulas().take(problem.rows@.len() as int) =~= problem.formulas());

        let n = variables.len();
        let costs = column_costs(variables, objective);
        let mut obj_sum = ls.model.sum();
        let mut idx: usize = 0;
        while idx < n
            invariant
                n == variables@.len(),
                costs@ == costs_of(variables@, *objective),
                idx <= n,
                obj_sum is Sum,
                obj_sum.formula() == Formula::Sum(cost_terms(variables@, *objective, idx as int)),
            decreases n - idx,
        {
            let coeff: i64 = match costs[idx] {
                Some(c) => c,
                None => 0,
            };
            let variable = Expression::Int(idx);
            Self::add_term(&ls.model, &mut obj_sum, &variable, coeff);
            idx = idx + 1;
        }

        if problem.maximize {
            ls.model.maximize(obj_sum);
        } else {
            ls.model.minimize(obj_sum);
        }
        ls.model.close();
        Ok(ls)
    }

    /// Builds the environment for one objective: a decision variable per
    /// declared variable, a constraint per row that holds an entry, the
    /// objective sum, and the model closed. Entries outside the declared
    /// shape are dropped.
    pub fn build(
        polyhedron: &SparseLEIntegerPolyhedron,
        objective: &Objective<i64>,
        direction: SolverDirection,
    ) -> (r: Result<HexalyOptimizer, SolveInputError>)
        requires
            polyhedron.a.readable(),
            polyhedron.a.shape.ncols <= polyhedron.variables@.len(),
        ensures
            r matches Ok(env) && describes(env, *polyhedron, *objective, direction),
    {
        let problem = Self::problem(polyhedron, direction);
        proof {
            assert(problem.formulas() =~= row_formulas(
                rows_before(*polyhedron, polyhedron.a.shape.nrows as int),
            ));
        }
        Self::model_for(&problem, &polyhedron.variables, objective)
    }

    /// Screens the request and builds one environment per objective, in
    /// the order of the objectives. The engine has no presolve switch, so
    /// `use_presolve` changes nothing.
    pub fn plan(
        &self,
        polyhedron: &SparseLEIntegerPolyhedron,
        objectives: &Vec<Objective<i64>>,
        direction: SolverDirection,
        use_presolve: bool,
    ) -> (r: Result<Plan<Vec<HexalyOptimizer>>, SolveInputError>)
        requires
            polyhedron.a.readable(),
            polyhedron.a.shape.ncols <= polyhedron.variables@.len(),
        ensures
            r is Err <==> !objectives_declared(polyhedron.variables@, objectives@),
            r matches Ok(Plan::EmptySpace(_)) <==> objectives_declared(
                polyhedron.variables@,
                objectives@,
            ) && polyhedron.a.nnz() == 0,
            r matches Err(error) ==> names_first_undeclared(
                polyhedron.variables@,
                objectives@,
                error@,
            ),
            r matches Ok(Plan::EmptySpace(solutions)) ==> polyhedron.a.nnz() == 0
                && all_empty_space(solutions@, objectives@.len() as int),
            r matches Ok(Plan::Engine(environments)) ==> polyhedron.a.nnz() > 0
                && environments@.len() == objectives@.len() && forall|k: int|
                0 <= k < environments@.len() ==> describes(
                    #[trigger] environments@[k],
                    *polyhedron,
                    objectives@[k],
                    direction,
                ),
    {
        match screen(polyhedron, objectives) {
            Err(error) => Err(error),
            Ok(Some(solutions)) => Ok(Plan::EmptySpace(solutions)),
            Ok(None) => {
                let mut environments: Vec<HexalyOptimizer> = Vec::new();
                let mut k: usize = 0;
                while k < objectives.len()
                    invariant
                        polyhedron.a.readable(),
                        polyhedron.a.shape.ncols <= polyhedron.variables@.len(),
                        k <= objectives@.len(),
                        environments@.len() == k,
                        forall|i: int|
                            0 <= i < k ==> describes(
                                #[trigger] environments@[i],
                                *polyhedron,
                                objectives@[i],
                                direction,
                            ),
                    decreases objectives@.len() - k,
                {
                    match Self::build(polyhedron, &objectives[k], direction) {
                        Ok(environment) => {
                            environments.push(environment);
                        },
                        Err(error) => {
                            return Err(error);
                        },
                    }
                    k = k + 1;
                }
                Ok(Plan::Engine(environments))
            },
        }
    }

    /// The assignment that the engine reported to `env`: each declared
    /// variable with the value of its decision variable, cut down to 32
    /// bits.
    pub fn assignment(env: &HexalyOptimizer, variables: &Vec<ApiVariable>) -> (entries: Vec<
        (String, i32),
    >)
        ensures
            entries@.len() == variables@.len(),
            forall|j: int|
                0 <= j < entries@.len() ==> (#[trigger] entries@[j]).0@ == variables@[j].id@
                    && entries@[j].1 == Self::reported_value(env.values@, j),
    {
        let mut entries: Vec<(String, i32)> = Vec::new();
        let mut j: usize = 0;
        while j < variables.len()
            invariant
                j <= variables@.len(),
                entries@.len() == j,
                forall|i: int|
                    0 <= i < j ==> (#[trigger] entries@[i]).0@ == variables@[i].id@ && entries@[i].1
                        == Self::reported_value(env.values@, i),
            decreases variables@.len() - j,
        {
            let variable = Expression::Int(j);
            let value = env.get_int_value(&variable);
            entries.push((variables[j].id.clone(), #[verifier::truncate] (value as i32)));
            j = j + 1;
        }
        entries
    }

    /// The value reported for decision variable `j`, cut down to 32 bits;
    /// zero where none was reported.
    pub open spec fn reported_value(values: Seq<i64>, j: int) -> i32 {
        if 0 <= j < values.len() {
            values[j] as i32
        } else {
            0i32
        }
    }

    /// The answer for one objective: the status that the run state of
    /// `env` stands for, with the given assignment and objective value.
    pub fn solution(env: &HexalyOptimizer, solution: Vec<(String, i32)>, objective: i32) -> (s:
        ApiSolution)
        ensures
            s@ == (SolutionView {
                status: Self::spec_convert_status(env.state),
                objective: objective as int,
                solution: assignment_view(solution@),
                error: None,
            }),
    {
        ApiSolution {
            status: Self::convert_status(env.state()),
            objective,
            solution,
            error: None,
        }
    }
}

/// In a problem made from a polyhedron that declares no more columns than
/// it has variables, every term of every row names one of the problem's
/// decision variables.
pub proof fn lemma_problem_names_variables(
    problem: HexalyProblem,
    polyhedron: SparseLEIntegerPolyhedron,
    direction: SolverDirection,
)
    requires
        problem.describes(polyhedron, direction),
        polyhedron.a.shape.ncols <= polyhedron.variables@.len(),
    ensures
        forall|k: int, t: int|
            0 <= k < problem.rows@.len() && 0 <= t < problem.rows@[k].terms@.len() ==> (
            #[trigger] problem.rows@[k].terms@[t]).0 < problem.bounds@.len(),
{
    let expected = rows_before(polyhedron, polyhedron.a.shape.nrows as int);
    lemma_rows_within_shape(polyhedron, polyhedron.a.shape.nrows as int);
    assert forall|k: int, t: int|
        0 <= k < problem.rows@.len() && 0 <= t < problem.rows@[k].terms@.len() implies (
    #[trigger] problem.rows@[k].terms@[t]).0 < problem.bounds@.len() by {
        assert(problem.rows@[k].terms@ == expected[k].1);
        assert(expected[k].1[t].0 < polyhedron.a.shape.ncols);
    }
}

/// Every pair of every listed row has its column within the declared
/// shape.
proof fn lemma_rows_within_shape(p: SparseLEIntegerPolyhedron, r_end: int)
    ensures
        forall|q: int, i: int|
            0 <= q < rows_before(p, r_end).len() && 0 <= i < rows_before(p, r_end)[q].1.len()
                ==> (#[trigger] rows_before(p, r_end)[q].1[i]).0 < p.a.shape.ncols,
    decreases r_end,
{
    if r_end > 0 {
        lemma_rows_within_shape(p, r_end - 1);
        lemma_row_entries_within_shape(p.a, r_end - 1, p.a.rows@.len() as int);
        let rest = rows_before(p, r_end - 1);
        assert forall|q: int, i: int|
            0 <= q < rows_before(p, r_end).len() && 0 <= i < rows_before(
                p,
                r_end,
            )[q].1.len() implies (#[trigger] rows_before(p, r_end)[q].1[i]).0
            < p.a.shape.ncols by {
            if q < rest.len() {
                assert(rows_before(p, r_end)[q] == rest[q]);
            }
        }
    }
}

} // verus!
