//! The model that the local-search engine is given: integer decision
//! variables, and constraints and an objective written as expression
//! trees over them. The model is built here as plain data and closed;
//! running it is the engine's part, and what the engine reports is taken
//! back in through `HexalyOptimizer::record_solution`.

use vstd::prelude::*;

verus! {

/// Run state of the engine.
#[derive(Clone, Copy, Debug, PartialEq, Eq, Structural)]
pub enum State {
    Stopped,
    Running,
    Paused,
}

impl State {
    /// The run state that a number of the engine stands for, if any.
    pub open spec fn spec_from_code(code: int) -> Option<State> {
        if code == 0 {
            Some(State::Stopped)
        } else if code == 1 {
            Some(State::Running)
        } else if code == 2 {
            Some(State::Paused)
        } else {
            None
        }
    }

    /// Reads the engine's number for a run state: 0 is stopped, 1 running
    /// and 2 paused. Any other number stands for no state.
    pub fn from_code(code: u32) -> (s: Option<State>)
        ensures
            s == State::spec_from_code(code as int),
    {
        if code == 0 {
            Some(State::Stopped)
        } else if code == 1 {
            Some(State::Running)
        } else if code == 2 {
            Some(State::Paused)
        } else {
            None
        }
    }
}

/// An expression of the model. A decision variable is named by its
/// position among the model's variables.
#[derive(Debug, PartialEq, Eq)]
pub enum Expression {
    Int(usize),
    Scalar(i64),
    Sum(Vec<Expression>),
    Prod(Vec<Expression>),
    Leq(Box<Expression>, Box<Expression>),
    Eq(Box<Expression>, Box<Expression>),
    Geq(Box<Expression>, Box<Expression>),
}

/// An expression as a mathematical term.
pub enum Formula {
    Int(int),
    Scalar(int),
    Sum(Seq<Formula>),
    Prod(Seq<Formula>),
    Leq(Box<Formula>, Box<Formula>),
    Eq(Box<Formula>, Box<Formula>),
    Geq(Box<Formula>, Box<Formula>),
}

/// The terms of a list of expressions.
pub open spec fn formulas(operands: Seq<Expression>) -> Seq<Formula>
    decreases operands,
{
    if operands.len() == 0 {
        Seq::empty()
    } else {
        formulas(operands.drop_last()).push(operands.last().formula())
    }
}

/// The sum of the values of `operands` at the point `x`.
pub open spec fn sum_of(operands: Seq<Formula>, x: Seq<int>) -> int
    decreases operands,
{
    if operands.len() == 0 {
        0
    } else {
        sum_of(operands.drop_last(), x) + operands.last().value(x)
    }
}

/// The product of the values of `operands` at the point `x`.
pub open spec fn product_of(operands: Seq<Formula>, x: Seq<int>) -> int
    decreases operands,
{
    if operands.len() == 0 {
        1
    } else {
        product_of(operands.drop_last(), x) * operands.last().value(x)
    }
}

impl Formula {
    /// The value of the term when variable `j` has the value `x[j]`; a
    /// comparison is worth 1 where it holds and 0 where it does not.
    pub open spec fn value(self, x: Seq<int>) -> int
        decreases self,
    {
        match self {
            Formula::Int(index) => x[index],
            Formula::Scalar(value) => value,
            Formula::Sum(operands) => sum_of(operands, x),
            Formula::Prod(operands) => product_of(operands, x),
            Formula::Leq(left, right) => if left.value(x) <= right.value(x) {
                1
            } else {
                0
            },
            Formula::Eq(left, right) => if left.value(x) == right.value(x) {
                1
            } else {
                0
            },
            Formula::Geq(left, right) => if left.value(x) >= right.value(x) {
                1
            } else {
                0
            },
        }
    }
}

impl Expression {
    /// The term that the expression stands for.
    pub open spec fn formula(self) -> Formula
        decreases self,
    {
        match self {
            Expression::Int(index) => Formula::Int(index as int),
            Expression::Scalar(value) => Formula::Scalar(value as int),
            Expression::Sum(operands) => Formula::Sum(formulas(operands@)),
            Expression::Prod(operands) => Formula::Prod(formulas(operands@)),
            Expression::Leq(left, right) => Formula::Leq(
                Box::new(left.formula()),
                Box::new(right.formula()),
            ),
            Expression::Eq(left, right) => Formula::Eq(
                Box::new(left.formula()),
                Box::new(right.formula()),
            ),
            Expression::Geq(left, right) => Formula::Geq(
                Box::new(left.formula()),
                Box::new(right.formula()),
            ),
        }
    }

    /// A copy of the expression.
    pub fn duplicate(&self) -> (copy: Expression)
        ensures
            copy.formula() == self.formula(),
        decreases self,
    {
        match self {
            Expression::Int(index) => Expression::Int(*index),
            Expression::Scalar(value) => Expression::Scalar(*value),
            Expression::Sum(operands) => Expression::Sum(duplicate_all(operands)),
            Expression::Prod(operands) => Expression::Prod(duplicate_all(operands)),
            Expression::Leq(left, right) => Expression::Leq(
                Box::new(left.duplicate()),
                Box::new(right.duplicate()),
            ),
            Expression::Eq(left, right) => Expression::Eq(
                Box::new(left.duplicate()),
                Box::new(right.duplicate()),
            ),
            Expression::Geq(left, right) => Expression::Geq(
                Box::new(left.duplicate()),
                Box::new(right.duplicate()),
            ),
        }
    }
}

/// A copy of each expression of a list.
pub fn duplicate_all(operands: &Vec<Expression>) -> (copies: Vec<Expression>)
    ensures
        formulas(copies@) == formulas(operands@),
    decreases operands,
{
    let mut copies: Vec<Expression> = Vec::new();
    let mut k: usize = 0;
    while k < operands.len()
        invariant
            k <= operands@.len(),
            copies@.len() == k,
            formulas(copies@) == formulas(operands@.take(k as int)),
        decreases operands@.len() - k,
    {
        let ghost before = copies@;
        let copy = operands[k].duplicate();
        copies.push(copy);
        proof {
            assert(copies@.drop_last() =~= before);
            assert(operands@.take(k + 1).drop_last() =~= operands@.take(k as int));
        }
        k = k + 1;
    }
    assert(operands@.take(operands@.len() as int) =~= operands@);
    copies
}

/// What a model is to optimise.
#[derive(Debug, PartialEq, Eq)]
pub struct Goal {
    pub maximize: bool,
    pub expression: Expression,
}

/// A model under construction, or closed.
#[derive(Debug, PartialEq, Eq)]
pub struct Model {
    /// Inclusive bounds of each decision variable.
    pub variables: Vec<(i64, i64)>,
    pub constraints: Vec<Expression>,
    pub objective: Option<Goal>,
    /// A closed model takes no further variable, constraint or objective.
    pub closed: bool,
}

impl Model {
    /// The constraints as terms.
    pub open spec fn constraint_formulas(&self) -> Seq<Formula> {
        formulas(self.constraints@)
    }

    /// The objective as a direction and a term.
    pub open spec fn goal(&self) -> Option<(bool, Formula)> {
        match self.objective {
            Some(goal) => Some((goal.maximize, goal.expression.formula())),
            None => None,
        }
    }

    /// A model without variables, constraints or objective, open for
    /// editing.
    pub fn new() -> (model: Model)
        ensures
            model.variables@.len() == 0,
            model.constraints@.len() == 0,
            model.objective is None,
            !model.closed,
    {
        Model { variables: Vec::new(), constraints: Vec::new(), objective: None, closed: false }
    }

    /// Adds an integer decision variable with inclusive bounds and hands
    /// back the expression that names it.
    pub fn int_var(&mut self, lower_bound: i64, upper_bound: i64) -> (variable: Expression)
        requires
            !old(self).closed,
        ensures
            variable == Expression::Int(old(self).variables@.len() as usize),
            final(self).variables@ == old(self).variables@.push((lower_bound, upper_bound)),
            final(self).constraints == old(self).constraints,
            final(self).objective == old(self).objective,
            !final(self).closed,
    {
        let index = self.variables.len();
        self.variables.push((lower_bound, upper_bound));
        Expression::Int(index)
    }

    /// A constant.
    pub fn scalar(&self, value: i64) -> (constant: Expression)
        ensures
            constant == Expression::Scalar(value),
    {
        Expression::Scalar(value)
    }

    /// A sum without operands yet.
    pub fn sum(&self) -> (sum: Expression)
        ensures
            sum.formula() == Formula::Sum(Seq::empty()),
    {
        let sum = Expression::Sum(Vec::new());
        assert(formulas(Seq::<Expression>::empty()) =~= Seq::empty());
        sum
    }

    /// A product without operands yet.
    pub fn prod(&self) -> (product: Expression)
        ensures
            product.formula() == Formula::Prod(Seq::empty()),
    {
        let product = Expression::Prod(Vec::new());
        assert(formulas(Seq::<Expression>::empty()) =~= Seq::empty());
        product
    }

    /// Appends `operand` to the operands of a sum or a product.
    pub fn add_operand(&self, expr: &mut Expression, operand: &Expression)
        requires
            *old(expr) is Sum || *old(expr) is Prod,
        ensures
            old(expr).formula() matches Formula::Sum(operands) ==> final(expr).formula()
                == Formula::Sum(operands.push(operand.formula())),
            old(expr).formula() matches Formula::Prod(operands) ==> final(expr).formula()
                == Formula::Prod(operands.push(operand.formula())),
    {
        let copy = operand.duplicate();
        let mut taken = Expression::Scalar(0);
        core::mem::swap(expr, &mut taken);
        match taken {
            Expression::Sum(mut operands) => {
                let ghost before = operands@;
                operands.push(copy);
                proof {
                    assert(operands@.drop_last() =~= before);
                    assert(old(expr).formula() == Formula::Sum(formulas(before)));
                }
                let ghost after = operands@;
                *expr = Expression::Sum(operands);
                assert(expr.formula() == Formula::Sum(formulas(after)));
            },
            Expression::Prod(mut operands) => {
                let ghost before = operands@;
                operands.push(copy);
                proof {
                    assert(operands@.drop_last() =~= before);
                    assert(old(expr).formula() == Formula::Prod(formulas(before)));
                }
                let ghost after = operands@;
                *expr = Expression::Prod(operands);
                assert(expr.formula() == Formula::Prod(formulas(after)));
            },
            _ => {},
        }
    }

    /// The comparison `left <= right`.
    pub fn leq(&self, left: &Expression, right: &Expression) -> (comparison: Expression)
        ensures
            comparison.formula() == Formula::Leq(
                Box::new(left.formula()),
                Box::new(right.formula()),
            ),
    {
        Expression::Leq(Box::new(left.duplicate()), Box::new(right.duplicate()))
    }

    /// The comparison `left == right`.
    pub fn eq(&self, left: &Expression, right: &Expression) -> (comparison: Expression)
        ensures
            comparison.formula() == Formula::Eq(
                Box::new(left.formula()),
                Box::new(right.formula()),
            ),
    {
        Expression::Eq(Box::new(left.duplicate()), Box::new(right.duplicate()))
    }

    /// The comparison `left >= right`.
    pub fn geq(&self, left: &Expression, right: &Expression) -> (comparison: Expression)
        ensures
            comparison.formula() == Formula::Geq(
                Box::new(left.formula()),
                Box::new(right.formula()),
            ),
    {
        Expression::Geq(Box::new(left.duplicate()), Box::new(right.duplicate()))
    }

    /// Adds a constraint: a feasible point gives it a value other than 0.
    pub fn add_constraint(&mut self, constraint: Expression)
        requires
            !old(self).closed,
        ensures
            final(self).constraint_formulas() == old(self).constraint_formulas().push(
                constraint.formula(),
            ),
            final(self).constraints@.len() == old(self).constraints@.len() + 1,
            final(self).variables == old(self).variables,
            final(self).objective == old(self).objective,
            !final(self).closed,
    {
        let ghost before = self.constraints@;
        self.constraints.push(constraint);
        proof {
            assert(self.constraints@.drop_last() =~= before);
        }
    }

    /// Sets the objective, to be made as small as possible.
    pub fn minimize(&mut self, objective: Expression)
        requires
            !old(self).closed,
        ensures
            final(self).goal() == Some((false, objective.formula())),
            final(self).variables == old(self).variables,
            final(self).constraints == old(self).constraints,
            !final(self).closed,
    {
        self.objective = Some(Goal { maximize: false, expression: objective });
    }

    /// Sets the objective, to be made as large as possible.
    pub fn maximize(&mut self, objective: Expression)
        requires
            !old(self).closed,
        ensures
            final(self).goal() == Some((true, objective.formula())),
            final(self).variables == old(self).variables,
            final(self).constraints == old(self).constraints,
            !final(self).closed,
    {
        self.objective = Some(Goal { maximize: true, expression: objective });
    }

    /// Closes the model: from here on it can only be solved.
    pub fn close(&mut self)
        requires
            !old(self).closed,
        ensures
            final(self).closed,
            final(self).variables == old(self).variables,
            final(self).constraints == old(self).constraints,
            final(self).objective == old(self).objective,
    {
        self.closed = true;
    }
}

/// Settings of the engine; a setting left at `None` keeps the engine's
/// default.
#[derive(Clone, Copy, Debug, PartialEq, Eq)]
pub struct Param {
    pub verbosity: Option<i32>,
    pub time_limit: Option<i32>,
    pub nb_threads: Option<i32>,
}

impl Param {
    /// Settings that keep every default of the engine.
    pub fn new() -> (param: Param)
        ensures
            param.verbosity is None,
            param.time_limit is None,
            param.nb_threads is None,
    {
        Param { verbosity: None, time_limit: None, nb_threads: None }
    }

    /// Sets how much the engine prints; 0 is quiet.
    pub fn set_verbosity(&mut self, verbosity: i32)
        ensures
            *final(self) == (Param { verbosity: Some(verbosity), ..*old(self) }),
    {
        self.verbosity = Some(verbosity);
    }

    /// Sets the time limit in seconds.
    pub fn set_time_limit(&mut self, seconds: i32)
        ensures
            *final(self) == (Param { time_limit: Some(seconds), ..*old(self) }),
    {
        self.time_limit = Some(seconds);
    }

    /// Sets the number of threads.
    pub fn set_nb_threads(&mut self, nb_threads: i32)
        ensures
            *final(self) == (Param { nb_threads: Some(nb_threads), ..*old(self) }),
    {
        self.nb_threads = Some(nb_threads);
    }
}

/// One environment of the engine: the model, the settings, and, once the
/// engine has run, what it reported.
#[derive(Debug, PartialEq, Eq)]
pub struct HexalyOptimizer {
    pub model: Model,
    pub param: Param,
    /// The run state last reported by the engine.
    pub state: State,
    /// The value last reported for each decision variable.
    pub values: Vec<i64>,
}

impl Default for HexalyOptimizer {
    /// A fresh environment, as `new` makes it.
    fn default() -> (env: HexalyOptimizer)
        ensures
            env.model.variables@.len() == 0,
            env.model.constraints@.len() == 0,
            env.model.objective is None,
            !env.model.closed,
            env.param.verbosity is None,
            env.param.time_limit is None,
            env.param.nb_threads is None,
            env.state == State::Stopped,
            env.values@.len() == 0,
    {
        HexalyOptimizer {
            model: Model::new(),
            param: Param::new(),
            state: State::Stopped,
            values: Vec::new(),
        }
    }
}

impl HexalyOptimizer {
    /// A fresh environment: an empty open model, default settings, and
    /// nothing reported.
    pub fn new() -> (r: Result<HexalyOptimizer, String>)
        ensures
            r matches Ok(env) && env.model.variables@.len() == 0 && env.model.constraints@.len()
                == 0 && env.model.objective is None && !env.model.closed && env.param.verbosity
                is None && env.param.time_limit is None && env.param.nb_threads is None
                && env.state == State::Stopped && env.values@.len() == 0,
    {
        Ok(HexalyOptimizer::default())
    }

    /// The model, for editing.
    pub fn model(&mut self) -> (model: &mut Model)
        ensures
            *model == old(self).model,
            final(self).model == *final(model),
            final(self).param == old(self).param,
            final(self).state == old(self).state,
            final(self).values@ == old(self).values@,
    {
        &mut self.model
    }

    /// The settings, for editing.
    pub fn param(&mut self) -> (param: &mut Param)
        ensures
            *param == old(self).param,
            final(self).param == *final(param),
            final(self).model == old(self).model,
            final(self).state == old(self).state,
            final(self).values@ == old(self).values@,
    {
        &mut self.param
    }

    /// Takes in what the engine reported after running the closed model:
    /// its run state and the value of each decision variable, in the order
    /// of the model's variables.
    pub fn record_solution(&mut self, state: State, values: Vec<i64>)
        requires
            old(self).model.closed,
        ensures
            final(self).state == state,
            final(self).values@ == values@,
            final(self).model == old(self).model,
            final(self).param == old(self).param,
    {
        self.state = state;
        self.values = values;
    }

    /// The run state last reported.
    pub fn state(&self) -> (state: State)
        ensures
            state == self.state,
    {
        self.state
    }

    /// What `expr` is worth at the reported point, for an expression that
    /// names a decision variable: the value reported for it, or zero where
    /// none was reported.
    pub fn get_int_value(&self, expr: &Expression) -> (value: i64)
        requires
            expr is Int,
        ensures
            value == (if expr->Int_0 < self.values@.len() {
                self.values@[expr->Int_0 as int]
            } else {
                0
            }),
    {
        match expr {
            Expression::Int(index) => if *index < self.values.len() {
                self.values[*index]
            } else {
                0
            },
            _ => 0,
        }
    }
}

} // verus!
