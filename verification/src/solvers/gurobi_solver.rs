//! Adapter for the commercial engine. Every objective gets a model of its
//! own, built row by row inside one environment that is configured once.
//! Any step that the engine refuses ends the whole request.

use vstd::prelude::*;
use vstd::string::*;
use crate::models::{
    assignment_view, ApiSolution, ApiVariable, Objective, SolutionView, SolverDirection,
    SparseLEIntegerPolyhedron, Status,
};
use crate::solver::{
    all_empty_space, column_costs, constraint_rows, costs_of, rows_before, rows_match, screen,
    ConstraintRow, Plan,
};
use crate::text::{count_to_string, decimal_text, join, signed_to_string};
use crate::validate::{names_first_undeclared, objectives_declared, SolveInputError};

verus! {

/// The commercial mixed-integer backend.
#[derive(Clone, Copy, Debug, PartialEq, Eq)]
pub struct GurobiSolver;

/// The steps at which the engine may refuse to go on.
#[derive(Clone, Copy, Debug, PartialEq, Eq, Structural)]
pub enum GurobiStep {
    CreateEnvironment,
    SetOutputFlag,
    SetThreads,
    SetPresolve,
    CreateModel,
    AddBinaryVariable,
    AddIntegerVariable,
    UpdateAfterVariables,
    AddConstraint,
    UpdateAfterConstraints,
    SetObjective,
    Optimize,
    ReadStatus,
}

impl GurobiStep {
    /// How the message for a refusal at this step begins.
    pub open spec fn prefix(self) -> Seq<char> {
        match self {
            GurobiStep::CreateEnvironment => "Failed to create Gurobi environment: "@,
            GurobiStep::SetOutputFlag => "Failed to set Gurobi output flag: "@,
            GurobiStep::SetThreads => "Failed to set Gurobi thread count: "@,
            GurobiStep::SetPresolve => "Failed to set Gurobi presolve: "@,
            GurobiStep::CreateModel => "Failed to create Gurobi model: "@,
            GurobiStep::AddBinaryVariable => "Failed to add binary variable: "@,
            GurobiStep::AddIntegerVariable => "Failed to add integer variable: "@,
            GurobiStep::UpdateAfterVariables => "Failed to update model after adding variables: "@,
            GurobiStep::AddConstraint => "Failed to add constraint: "@,
            GurobiStep::UpdateAfterConstraints => "Failed to update model after adding constraints: "@,
            GurobiStep::SetObjective => "Failed to set objective: "@,
            GurobiStep::Optimize => "Failed to optimize: "@,
            GurobiStep::ReadStatus => "Failed to get model status: "@,
        }
    }

    fn prefix_text(self) -> (p: &'static str)
        ensures
            p@ == self.prefix(),
    {
        match self {
            GurobiStep::CreateEnvironment => "Failed to create Gurobi environment: ",
            GurobiStep::SetOutputFlag => "Failed to set Gurobi output flag: ",
            GurobiStep::SetThreads => "Failed to set Gurobi thread count: ",
            GurobiStep::SetPresolve => "Failed to set Gurobi presolve: ",
            GurobiStep::CreateModel => "Failed to create Gurobi model: ",
            GurobiStep::AddBinaryVariable => "Failed to add binary variable: ",
            GurobiStep::AddIntegerVariable => "Failed to add integer variable: ",
            GurobiStep::UpdateAfterVariables => "Failed to update model after adding variables: ",
            GurobiStep::AddConstraint => "Failed to add constraint: ",
            GurobiStep::UpdateAfterConstraints => "Failed to update model after adding constraints: ",
            GurobiStep::SetObjective => "Failed to set objective: ",
            GurobiStep::Optimize => "Failed to optimize: ",
            GurobiStep::ReadStatus => "Failed to get model status: ",
        }
    }
}

/// How a variable is declared to the engine.
#[derive(Clone, Copy, Debug, PartialEq, Eq, Structural)]
pub enum GurobiVariableKind {
    /// A native binary variable.
    Binary,
    /// A general integer variable within the given bounds.
    Integer { lower: i32, upper: i32 },
}

impl GurobiVariableKind {
    /// Whether the engine may give a variable of this kind the value `v`.
    pub open spec fn admits(self, v: int) -> bool {
        match self {
            GurobiVariableKind::Binary => v == 0 || v == 1,
            GurobiVariableKind::Integer { lower, upper } => lower <= v <= upper,
        }
    }

    /// The kind chosen for a variable.
    pub open spec fn spec_of(variable: ApiVariable) -> GurobiVariableKind {
        if variable.spec_is_binary() {
            GurobiVariableKind::Binary
        } else {
            GurobiVariableKind::Integer { lower: variable.bound.0, upper: variable.bound.1 }
        }
    }

    /// Chooses the kind for a variable: binary for the bounds `(0, 1)`,
    /// general integer with the same bounds otherwise.
    pub fn of(variable: &ApiVariable) -> (kind: GurobiVariableKind)
        ensures
            kind == Self::spec_of(*variable),
    {
        if variable.is_binary() {
            GurobiVariableKind::Binary
        } else {
            GurobiVariableKind::Integer { lower: variable.bound.0, upper: variable.bound.1 }
        }
    }
}

/// Whichever way a variable is declared, the engine may give it exactly
/// the values within its bounds. In particular a variable bounded by
/// `(0, 1)` has the same values as a binary one and as a general integer
/// one.
pub proof fn lemma_kind_keeps_domain(variable: ApiVariable, v: int)
    ensures
        GurobiVariableKind::spec_of(variable).admits(v) <==> variable.admits(v),
        variable.spec_is_binary() ==> (GurobiVariableKind::Binary.admits(v)
            <==> GurobiVariableKind::Integer { lower: 0, upper: 1 }.admits(v)),
{
}

/// A variable as declared to the engine.
#[derive(Debug, PartialEq, Eq)]
pub struct GurobiVariable {
    pub name: String,
    pub kind: GurobiVariableKind,
}

/// A constraint as declared to the engine.
#[derive(Debug, PartialEq, Eq)]
pub struct GurobiConstraint {
    pub name: String,
    pub row: ConstraintRow,
}

/// The name of the constraint made from row `r`.
pub open spec fn constraint_name(r: int) -> Seq<char> {
    "c"@ + decimal_text(r)
}

/// The environment settings and the model that every objective starts
/// from.
#[derive(Debug, PartialEq, Eq)]
pub struct GurobiModel {
    /// Console output of the engine; `0` switches it off.
    pub output_flag: i32,
    /// Number of threads; `0` leaves the choice to the engine.
    pub threads: i32,
    /// `-1` lets the engine decide on presolve, `0` switches it off.
    pub presolve: i32,
    pub maximize: bool,
    pub variables: Vec<GurobiVariable>,
    pub constraints: Vec<GurobiConstraint>,
}

impl GurobiModel {
    /// `self` is the model of `polyhedron` for the given direction and
    /// presolve setting: one variable per declared variable, and one
    /// constraint per row that holds an entry.
    pub open spec fn describes(
        &self,
        polyhedron: SparseLEIntegerPolyhedron,
        direction: SolverDirection,
        use_presolve: bool,
    ) -> bool {
        let rows = rows_before(polyhedron, polyhedron.a.shape.nrows as int);
        &&& self.output_flag == 0
        &&& self.threads == 0
        &&& self.presolve == (if use_presolve {
            -1i32
        } else {
            0i32
        })
        &&& self.maximize == (direction == SolverDirection::Maximize)
        &&& self.variables@.len() == polyhedron.variables@.len()
        &&& forall|j: int|
            0 <= j < self.variables@.len() ==> (#[trigger] self.variables@[j]).name@
                == polyhedron.variables@[j].id@ && self.variables@[j].kind
                == GurobiVariableKind::spec_of(polyhedron.variables@[j])
        &&& self.constraints@.len() == rows.len()
        &&& forall|k: int|
            0 <= k < self.constraints@.len() ==> (#[trigger] self.constraints@[k]).name@
                == constraint_name(rows[k].0) && self.constraints@[k].row.index == rows[k].0
                && self.constraints@[k].row.terms@ == rows[k].1 && self.constraints@[k].row.rhs
                == rows[k].2
    }
}

impl GurobiModel {
    /// Both models give the engine the same settings, variables and
    /// constraints.
    pub open spec fn agrees(&self, other: GurobiModel) -> bool {
        &&& self.output_flag == other.output_flag
        &&& self.threads == other.threads
        &&& self.presolve == other.presolve
        &&& self.maximize == other.maximize
        &&& self.variables@.len() == other.variables@.len()
        &&& forall|j: int|
            0 <= j < self.variables@.len() ==> (#[trigger] self.variables@[j]).name@
                == other.variables@[j].name@ && self.variables@[j].kind
                == other.variables@[j].kind
        &&& self.constraints@.len() == other.constraints@.len()
        &&& forall|k: int|
            0 <= k < self.constraints@.len() ==> (#[trigger] self.constraints@[k]).name@
                == other.constraints@[k].name@ && self.constraints@[k].row.index
                == other.constraints@[k].row.index && self.constraints@[k].row.terms@
                == other.constraints@[k].row.terms@ && self.constraints@[k].row.rhs
                == other.constraints@[k].row.rhs
    }
}

/// Planning the same request twice, with the same presolve setting, gives
/// the engine the same model.
pub proof fn lemma_model_determined(
    first: GurobiModel,
    second: GurobiModel,
    polyhedron: SparseLEIntegerPolyhedron,
    direction: SolverDirection,
    use_presolve: bool,
)
    requires
        first.describes(polyhedron, direction, use_presolve),
        second.describes(polyhedron, direction, use_presolve),
    ensures
        first.agrees(second),
{
    assert forall|j: int| 0 <= j < first.variables@.len() implies (
    #[trigger] first.variables@[j]).name@ == second.variables@[j].name@
        && first.variables@[j].kind == second.variables@[j].kind by {
        assert(second.variables@[j].name@ == polyhedron.variables@[j].id@);
    }
    assert forall|k: int| 0 <= k < first.constraints@.len() implies (
    #[trigger] first.constraints@[k]).name@ == second.constraints@[k].name@
        && first.constraints@[k].row.index == second.constraints@[k].row.index
        && first.constraints@[k].row.terms@ == second.constraints@[k].row.terms@
        && first.constraints@[k].row.rhs == second.constraints@[k].row.rhs by {
        assert(second.constraints@[k].row.rhs == rows_before(
            polyhedron,
            polyhedron.a.shape.nrows as int,
        )[k].2);
    }
}

/// The terms of the objective expression: for each column whose variable
/// the objective mentions, in column order, the column and its
/// coefficient.
pub open spec fn objective_terms_before<C>(
    variables: Seq<ApiVariable>,
    objective: Objective<C>,
    j_end: int,
) -> Seq<(usize, C)>
    decreases j_end,
{
    if j_end <= 0 {
        Seq::empty()
    } else {
        let rest = objective_terms_before(variables, objective, j_end - 1);
        match objective.coefficient(variables[j_end - 1].id@) {
            Some(c) => rest.push(((j_end - 1) as usize, c)),
            None => rest,
        }
    }
}

/// The zero function, written as an objective without entries, gives the
/// objective expression no term.
pub proof fn lemma_zero_objective_terms<C>(
    variables: Seq<ApiVariable>,
    objective: Objective<C>,
    j_end: int,
)
    requires
        objective.entries@.len() == 0,
    ensures
        objective_terms_before(variables, objective, j_end).len() == 0,
    decreases j_end,
{
    if j_end > 0 {
        lemma_zero_objective_terms(variables, objective, j_end - 1);
    }
}

/// What the engine reported for one objective.
#[derive(Debug, PartialEq, Eq)]
pub enum GurobiRun {
    /// The engine refused a step; the text is its own account.
    Refused { step: GurobiStep, reason: String },
    /// The model was optimised: the engine's status number, the values by
    /// variable, and the value of the objective at that point.
    Solved { status: i32, solution: Vec<(String, i32)>, objective: i32 },
}

/// The message for a run that ended with a status number outside the
/// engine's vocabulary.
pub open spec fn unknown_status_message(status: int) -> Seq<char> {
    GurobiStep::ReadStatus.prefix() + "unrecognized status "@ + decimal_text(status)
}

impl GurobiRun {
    /// Why the run ends the request, if it does: the engine refused a
    /// step, or it reported a status number outside its vocabulary.
    pub open spec fn failure(self) -> Option<Seq<char>> {
        match self {
            GurobiRun::Refused { step, reason } => Some(step.prefix() + reason@),
            GurobiRun::Solved { status, .. } => match GurobiSolver::spec_convert_status(
                status as int,
            ) {
                Some(_) => None,
                None => Some(unknown_status_message(status as int)),
            },
        }
    }

    /// The answer that a run stands for, where it does not end the
    /// request.
    pub open spec fn answer(self) -> SolutionView
        recommends
            self.failure() is None,
    {
        SolutionView {
            status: GurobiSolver::spec_convert_status(self->status as int)->0,
            objective: self->objective as int,
            solution: assignment_view(self->solution@),
            error: None,
        }
    }
}

impl GurobiSolver {
    pub fn new() -> (s: Self) {
        GurobiSolver
    }

    /// The backend's name in diagnostics and configuration.
    pub fn name(&self) -> (n: &'static str)
        ensures
            n@ == "Gurobi"@,
    {
        "Gurobi"
    }

    /// The status that the engine's status number stands for, for a
    /// number of the engine's vocabulary, 1 to 17.
    pub open spec fn spec_convert_status(status: int) -> Option<Status> {
        if status == 2 {
            Some(Status::Optimal)
        } else if status == 3 {
            Some(Status::Infeasible)
        } else if status == 4 || status == 5 {
            Some(Status::Unbounded)
        } else if 1 <= status <= 17 {
            Some(Status::Undefined)
        } else {
            None
        }
    }

    /// Reads the engine's status number: 2 is optimal, 3 infeasible,
    /// 4 (infeasible or unbounded) and 5 (unbounded) are unbounded, and
    /// the other numbers that the engine documents, from 1 to 17, are
    /// undefined. A number outside that vocabulary stands for no status.
    pub fn convert_status(status: i32) -> (s: Option<Status>)
        ensures
            s == Self::spec_convert_status(status as int),
    {
        if status == 2 {
            Some(Status::Optimal)
        } else if status == 3 {
            Some(Status::Infeasible)
        } else if status == 4 || status == 5 {
            Some(Status::Unbounded)
        } else if 1 <= status && status <= 17 {
            Some(Status::Undefined)
        } else {
            None
        }
    }

    /// Screens the request and describes the model that every objective
    /// starts from.
    pub fn plan<C>(
        &self,
        polyhedron: &SparseLEIntegerPolyhedron,
        objectives: &Vec<Objective<C>>,
        direction: SolverDirection,
        use_presolve: bool,
    ) -> (r: Result<Plan<GurobiModel>, SolveInputError>)
        requires
            polyhedron.a.readable(),
        ensures
            r is Err <==> !objectives_declared(polyhedron.variables@, objectives@),
            r matches Ok(Plan::EmptySpace(_)) <==> objectives_declared(
                polyhedron.variables@,
                objectives@,
            ) && polyhedron.a.nnz() == 0,
            r matches Err(error) ==> names_first_undeclared(
                polyhedron.variables@,
                objectives@,
                error@,
            ),
            r matches Ok(Plan::EmptySpace(solutions)) ==> polyhedron.a.nnz() == 0
                && all_empty_space(solutions@, objectives@.len() as int),
            r matches Ok(Plan::Engine(model)) ==> polyhedron.a.nnz() > 0 && model.describes(
                *polyhedron,
                direction,
                use_presolve,
            ),
    {
        match screen(polyhedron, objectives) {
            Err(error) => Err(error),
            Ok(Some(solutions)) => Ok(Plan::EmptySpace(solutions)),
            Ok(None) => Ok(Plan::Engine(Self::model(polyhedron, direction, use_presolve))),
        }
    }

    /// Describes the model of `polyhedron`.
    pub fn model(
        polyhedron: &SparseLEIntegerPolyhedron,
        direction: SolverDirection,
        use_presolve: bool,
    ) -> (model: GurobiModel)
        requires
            polyhedron.a.readable(),
        ensures
            model.describes(*polyhedron, direction, use_presolve),
    {
        let maximize = match direction {
            SolverDirection::Maximize => true,
            SolverDirection::Minimize => false,
        };
        let mut variables: Vec<GurobiVariable> = Vec::new();
        let mut j: usize = 0;
        while j < polyhedron.variables.len()
            invariant
                j <= polyhedron.variables@.len(),
                variables@.len() == j,
                forall|i: int|
                    0 <= i < j ==> (#[trigger] variables@[i]).name@ == polyhedron.variables@[i].id@
                        && variables@[i].kind == GurobiVariableKind::spec_of(
                        polyhedron.variables@[i],
                    ),
            decreases polyhedron.variables@.len() - j,
        {
            let variable = &polyhedron.variables[j];
            variables.push(
                GurobiVariable {
                    name: variable.id.clone(),
                    kind: GurobiVariableKind::of(variable),
                },
            );
            j = j + 1;
        }
        let ghost expected = rows_before(*polyhedron, polyhedron.a.shape.nrows as int);
        let rows = constraint_rows(polyhedron);
        let mut constraints: Vec<GurobiConstraint> = Vec::new();
        for row in it: rows
            invariant
                rows_match(it.seq(), expected),
                constraints@.len() == it.index(),
                forall|k: int|
                    0 <= k < constraints@.len() ==> (#[trigger] constraints@[k]).name@
                        == constraint_name(expected[k].0) && constraints@[k].row.index
                        == expected[k].0 && constraints@[k].row.terms@ == expected[k].1
                        && constraints@[k].row.rhs == expected[k].2,
        {
            let name = join("c", count_to_string(row.index).as_str());
            constraints.push(GurobiConstraint { name, row });
        }
        GurobiModel {
            output_flag: 0,
            threads: 0,
            presolve: if use_presolve {
                -1
            } else {
                0
            },
            maximize,
            variables,
            constraints,
        }
    }

    /// The terms of the objective expression for `objective`: for each
    /// column whose variable it mentions, the column and the coefficient.
    pub fn objective_terms<C: Copy>(
        variables: &Vec<ApiVariable>,
        objective: &Objective<C>,
    ) -> (terms: Vec<(usize, C)>)
        ensures
            terms@ == objective_terms_before(variables@, *objective, variables@.len() as int),
    {
        let costs = column_costs(variables, objective);
        let mut terms: Vec<(usize, C)> = Vec::new();
        let mut j: usize = 0;
        while j < variables.len()
            invariant
                costs@ == costs_of(variables@, *objective),
                j <= variables@.len(),
                terms@ == objective_terms_before(variables@, *objective, j as int),
            decreases variables@.len() - j,
        {
            match costs[j] {
                Some(c) => {
                    terms.push((j, c));
                },
                None => {},
            }
            j = j + 1;
        }
        terms
    }

    /// The value taken for a variable: what the engine reported, or, where
    /// it could report none because presolve had removed the variable, the
    /// fixed value of a variable whose bounds coincide, and zero for any
    /// other.
    pub fn value_or_fixed(variable: &ApiVariable, value: Option<i32>) -> (v: i32)
        ensures
            v == Self::spec_value_or_fixed(*variable, value),
    {
        match value {
            Some(v) => v,
            None => if variable.is_fixed() {
                variable.bound.0
            } else {
                0
            },
        }
    }

    /// The value taken for a variable, given what the engine reported.
    pub open spec fn spec_value_or_fixed(variable: ApiVariable, value: Option<i32>) -> i32 {
        match value {
            Some(v) => v,
            None => if variable.spec_is_fixed() {
                variable.bound.0
            } else {
                0
            },
        }
    }

    /// Names the reported values by their variables, in column order; a
    /// value that is missing is filled in as `value_or_fixed` says.
    pub fn assignment(variables: &Vec<ApiVariable>, values: &Vec<Option<i32>>) -> (entries: Vec<
        (String, i32),
    >)
        ensures
            entries@.len() == variables@.len(),
            forall|j: int|
                0 <= j < entries@.len() ==> (#[trigger] entries@[j]).0@ == variables@[j].id@
                    && entries@[j].1 == Self::spec_value_or_fixed(
                    variables@[j],
                    if j < values@.len() {
                        values@[j]
                    } else {
                        None
                    },
                ),
    {
        let mut entries: Vec<(String, i32)> = Vec::new();
        let mut j: usize = 0;
        while j < variables.len()
            invariant
                j <= variables@.len(),
                entries@.len() == j,
                forall|i: int|
                    0 <= i < j ==> (#[trigger] entries@[i]).0@ == variables@[i].id@ && entries@[i].1
                        == Self::spec_value_or_fixed(
                        variables@[i],
                        if i < values@.len() {
                            values@[i]
                        } else {
                            None
                        },
                    ),
            decreases variables@.len() - j,
        {
            let value: Option<i32> = if j < values.len() {
                values[j]
            } else {
                None
            };
            entries.push((variables[j].id.clone(), Self::value_or_fixed(&variables[j], value)));
            j = j + 1;
        }
        entries
    }

    /// The error that ends a request when the engine refuses `step`.
    pub fn failure(step: GurobiStep, reason: &str) -> (error: SolveInputError)
        ensures
            error@ == step.prefix() + reason@,
    {
        SolveInputError { details: join(step.prefix_text(), reason) }
    }

    /// The error that ends a request when the engine reports a status
    /// number outside its vocabulary: such a number is never read as a
    /// status.
    pub fn unknown_status(status: i32) -> (error: SolveInputError)
        ensures
            error@ == unknown_status_message(status as int),
    {
        let text = join("unrecognized status ", signed_to_string(status as i64).as_str());
        let error = Self::failure(GurobiStep::ReadStatus, text.as_str());
        assert(error@ =~= unknown_status_message(status as int));
        error
    }

    /// The answers to a whole request: one per run, in the order of the
    /// runs, unless a run ends the request: the engine refused a step, or
    /// reported a status number outside its vocabulary. Then the request
    /// fails with the message of the first such run.
    pub fn solutions(runs: Vec<GurobiRun>) -> (r: Result<Vec<ApiSolution>, SolveInputError>)
        ensures
            r is Ok <==> forall|k: int|
                0 <= k < runs@.len() ==> (#[trigger] runs@[k]).failure() is None,
            r matches Ok(answers) ==> answers@.len() == runs@.len() && forall|k: int|
                0 <= k < runs@.len() ==> (#[trigger] answers@[k])@ == runs@[k].answer(),
            r matches Err(error) ==> exists|k: int|
                0 <= k < runs@.len() && (#[trigger] runs@[k]).failure() == Some(error@)
                    && forall|i: int| 0 <= i < k ==> (#[trigger] runs@[i]).failure() is None,
    {
        let ghost all = runs@;
        let mut answers: Vec<ApiSolution> = Vec::new();
        for run in it: runs
            invariant
                it.seq() == all,
                answers@.len() == it.index(),
                forall|k: int| 0 <= k < answers@.len() ==> (#[trigger] all[k]).failure() is None,
                forall|k: int|
                    0 <= k < answers@.len() ==> (#[trigger] answers@[k])@ == all[k].answer(),
        {
            match run {
                GurobiRun::Refused { step, reason } => {
                    return Err(Self::failure(step, reason.as_str()));
                },
                GurobiRun::Solved { status, solution, objective } => {
                    match Self::convert_status(status) {
                        Some(status) => {
                            answers.push(ApiSolution { status, objective, solution, error: None });
                        },
                        None => {
                            return Err(Self::unknown_status(status));
                        },
                    }
                },
            }
        }
        Ok(answers)
    }
}

} // verus!
