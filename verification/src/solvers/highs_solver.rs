//! Adapter for the engine that is driven through a native handle. One
//! instance serves all objectives of a request: rows are added first, then
//! the columns with their entries compressed by column, and between two
//! runs only the column costs change.

use vstd::prelude::*;
use vstd::string::*;
use crate::convert::copy_integers;
use crate::matrix::{compress_columns, lemma_compression_determined, ColumnCompressed};
use crate::models::{
    assignment_view, ApiSolution, Objective, SolutionView, SolverDirection,
    SparseLEIntegerPolyhedron, Status,
};
use crate::solver::{all_empty_space, screen, Plan};
use crate::text::{decimal_text, join, signed_to_string};
use crate::validate::{names_first_undeclared, objectives_declared, SolveInputError};

verus! {

/// The native-handle backend.
#[derive(Clone, Copy, Debug, PartialEq, Eq)]
pub struct HighsSolver;

/// Everything the engine is given before the first run.
#[derive(Debug, PartialEq, Eq)]
pub struct HighsModel {
    /// Whether the engine's presolve is switched on.
    pub presolve: bool,
    /// Whether the engine may write to the console; always off.
    pub output_flag: bool,
    /// `1` to minimise, `-1` to maximise.
    pub sense: i32,
    /// Number of rows.
    pub n_rows: usize,
    /// Lower bound of each row; `None` leaves a row unbounded below, and
    /// so is every row.
    pub row_lower: Vec<Option<i32>>,
    pub row_upper: Vec<i32>,
    pub matrix: ColumnCompressed,
    pub col_lower: Vec<i32>,
    pub col_upper: Vec<i32>,
    /// Kind of each column; `1` marks an integer column.
    pub col_integrality: Vec<i32>,
}

/// One step of loading a model into a fresh engine instance.
#[derive(Clone, Copy, Debug, PartialEq, Eq, Structural)]
pub enum HighsLoadStep {
    /// Set the presolve option.
    SetPresolve,
    /// Set the console output option.
    SetOutputFlag,
    /// Set the direction of optimisation.
    SetSense,
    /// Add all rows with their bounds, without entries.
    AddRows,
    /// Add all columns with a cost of zero, their bounds, and their
    /// entries compressed by column.
    AddColumns,
    /// Give the column of this index its kind.
    MarkInteger(usize),
}

/// The steps of loading a model of `n_cols` columns, in order: the
/// options and the direction, then the rows, then the columns, which
/// refer to the rows, and last the kind of each column, in column order.
pub open spec fn load_order(n_cols: nat) -> Seq<HighsLoadStep> {
    seq![
        HighsLoadStep::SetPresolve,
        HighsLoadStep::SetOutputFlag,
        HighsLoadStep::SetSense,
        HighsLoadStep::AddRows,
        HighsLoadStep::AddColumns,
    ] + Seq::new(n_cols, |j: int| HighsLoadStep::MarkInteger(j as usize))
}

/// The engine's number for a direction.
pub open spec fn sense_of(direction: SolverDirection) -> int {
    match direction {
        SolverDirection::Minimize => 1,
        SolverDirection::Maximize => -1,
    }
}

impl HighsModel {
    /// `self` is the model of `polyhedron` for the given direction and
    /// presolve setting: its rows bounded above by `b`, its columns bounded
    /// by the variables and all integer, its entries those of the first
    /// `variables.len()` columns.
    pub open spec fn describes(
        &self,
        polyhedron: SparseLEIntegerPolyhedron,
        direction: SolverDirection,
        use_presolve: bool,
    ) -> bool {
        let n_cols = polyhedron.variables@.len() as int;
        &&& self.presolve == use_presolve
        &&& !self.output_flag
        &&& self.sense == sense_of(direction)
        &&& self.n_rows == polyhedron.a.shape.nrows
        &&& self.row_lower@ == Seq::new(self.n_rows as nat, |r: int| None::<i32>)
        &&& self.row_upper@ == polyhedron.b@
        &&& self.matrix.represents(polyhedron.a, n_cols)
        &&& self.col_lower@ == Seq::new(n_cols as nat, |j: int| polyhedron.variables@[j].bound.0)
        &&& self.col_upper@ == Seq::new(n_cols as nat, |j: int| polyhedron.variables@[j].bound.1)
        &&& self.col_integrality@ == Seq::new(n_cols as nat, |j: int| 1i32)
    }

    /// The steps that load this model, in the order in which they are to
    /// be taken: see `load_order`.
    pub fn load_steps(&self) -> (steps: Vec<HighsLoadStep>)
        ensures
            steps@ == load_order(self.col_integrality@.len()),
    {
        let mut steps: Vec<HighsLoadStep> = Vec::new();
        steps.push(HighsLoadStep::SetPresolve);
        steps.push(HighsLoadStep::SetOutputFlag);
        steps.push(HighsLoadStep::SetSense);
        steps.push(HighsLoadStep::AddRows);
        steps.push(HighsLoadStep::AddColumns);
        let n = self.col_integrality.len();
        let mut j: usize = 0;
        while j < n
            invariant
                n == self.col_integrality@.len(),
                j <= n,
                steps@ == load_order(j as nat),
            decreases n - j,
        {
            steps.push(HighsLoadStep::MarkInteger(j));
            proof {
                assert(steps@ =~= load_order((j + 1) as nat));
            }
            j = j + 1;
        }
        steps
    }

    /// The value of the engine's presolve option.
    pub fn presolve_option(&self) -> (v: &'static str)
        ensures
            v@ == (if self.presolve {
                "on"@
            } else {
                "off"@
            }),
    {
        if self.presolve {
            "on"
        } else {
            "off"
        }
    }
}

impl HighsModel {
    /// Both models give the engine the same settings and arrays.
    pub open spec fn agrees(&self, other: HighsModel) -> bool {
        &&& self.presolve == other.presolve
        &&& self.output_flag == other.output_flag
        &&& self.sense == other.sense
        &&& self.n_rows == other.n_rows
        &&& self.row_lower@ == other.row_lower@
        &&& self.row_upper@ == other.row_upper@
        &&& self.matrix.col_start@ == other.matrix.col_start@
        &&& self.matrix.col_index@ == other.matrix.col_index@
        &&& self.matrix.col_value@ == other.matrix.col_value@
        &&& self.col_lower@ == other.col_lower@
        &&& self.col_upper@ == other.col_upper@
        &&& self.col_integrality@ == other.col_integrality@
    }
}

/// Planning the same request twice, with the same presolve setting, gives
/// the engine the same model.
pub proof fn lemma_model_determined(
    first: HighsModel,
    second: HighsModel,
    polyhedron: SparseLEIntegerPolyhedron,
    direction: SolverDirection,
    use_presolve: bool,
)
    requires
        first.describes(polyhedron, direction, use_presolve),
        second.describes(polyhedron, direction, use_presolve),
    ensures
        first.agrees(second),
{
    lemma_compression_determined(
        first.matrix,
        second.matrix,
        polyhedron.a,
        polyhedron.variables@.len() as int,
    );
}

/// The message for a run that the engine gave up with the code `status`.
pub open spec fn run_failure_message(status: int) -> Seq<char> {
    "HiGHS solve failed with status "@ + decimal_text(status)
}

/// What one run of the engine brought back.
#[derive(Debug, PartialEq, Eq)]
pub enum HighsRun {
    /// The run ended with a nonzero return code.
    Failed(i32),
    /// The run went through: the model status, the values by variable, and
    /// the value of the objective at that point.
    Solved { model_status: i32, solution: Vec<(String, i32)>, objective: i32 },
}

/// The message for a run after which the engine reported a model status
/// outside its vocabulary.
pub open spec fn unknown_status_message(status: int) -> Seq<char> {
    "HiGHS returned the unrecognized model status "@ + decimal_text(status)
}

impl HighsRun {
    /// Why the run ends the request, if it does: it went through with a
    /// model status outside the engine's vocabulary.
    pub open spec fn failure(self) -> Option<Seq<char>> {
        match self {
            HighsRun::Failed(_) => None,
            HighsRun::Solved { model_status, .. } => match HighsSolver::spec_convert_status(
                model_status as int,
            ) {
                Some(_) => None,
                None => Some(unknown_status_message(model_status as int)),
            },
        }
    }

    /// The answer that a run stands for, where its model status is of the
    /// engine's vocabulary.
    pub open spec fn answer(self) -> SolutionView
        recommends
            self.failure() is None,
    {
        match self {
            HighsRun::Failed(status) => SolutionView {
                status: Status::Undefined,
                objective: 0,
                solution: Seq::empty(),
                error: Some(run_failure_message(status as int)),
            },
            HighsRun::Solved { model_status, solution, objective } => SolutionView {
                status: HighsSolver::spec_convert_status(model_status as int)->0,
                objective: objective as int,
                solution: assignment_view(solution@),
                error: None,
            },
        }
    }
}

impl HighsSolver {
    pub fn new() -> (s: Self) {
        HighsSolver
    }

    /// The backend's name in diagnostics and configuration.
    pub fn name(&self) -> (n: &'static str)
        ensures
            n@ == "HiGHS"@,
    {
        "HiGHS"
    }

    /// The status that the engine's model status stands for, for a
    /// number of the engine's vocabulary, 0 to 17.
    pub open spec fn spec_convert_status(status: int) -> Option<Status> {
        if status == 7 {
            Some(Status::Optimal)
        } else if status == 8 {
            Some(Status::Infeasible)
        } else if status == 9 || status == 10 {
            Some(Status::Unbounded)
        } else if 0 <= status <= 17 {
            Some(Status::Undefined)
        } else {
            None
        }
    }

    /// Reads the engine's model status: 7 is optimal, 8 infeasible,
    /// 9 (unbounded or infeasible) and 10 (unbounded) are unbounded, and
    /// the other numbers that the engine documents, from 0 to 17, are
    /// undefined. A number outside that vocabulary stands for no status.
    pub fn convert_status(status: i32) -> (s: Option<Status>)
        ensures
            s == Self::spec_convert_status(status as int),
    {
        if status == 7 {
            Some(Status::Optimal)
        } else if status == 8 {
            Some(Status::Infeasible)
        } else if status == 9 || status == 10 {
            Some(Status::Unbounded)
        } else if 0 <= status && status <= 17 {
            Some(Status::Undefined)
        } else {
            None
        }
    }

    /// Screens the request and describes the model that the engine is to
    /// be given.
    pub fn plan<C>(
        &self,
        polyhedron: &SparseLEIntegerPolyhedron,
        objectives: &Vec<Objective<C>>,
        direction: SolverDirection,
        use_presolve: bool,
    ) -> (r: Result<Plan<HighsModel>, SolveInputError>)
        requires
            polyhedron.a.readable(),
        ensures
            r is Err <==> !objectives_declared(polyhedron.variables@, objectives@),
            r matches Ok(Plan::EmptySpace(_)) <==> objectives_declared(
                polyhedron.variables@,
                objectives@,
            ) && polyhedron.a.nnz() == 0,
            r matches Err(error) ==> names_first_undeclared(
                polyhedron.variables@,
                objectives@,
                error@,
            ),
            r matches Ok(Plan::EmptySpace(solutions)) ==> polyhedron.a.nnz() == 0
                && all_empty_space(solutions@, objectives@.len() as int),
            r matches Ok(Plan::Engine(model)) ==> polyhedron.a.nnz() > 0 && model.describes(
                *polyhedron,
                direction,
                use_presolve,
            ),
    {
        match screen(polyhedron, objectives) {
            Err(error) => Err(error),
            Ok(Some(solutions)) => Ok(Plan::EmptySpace(solutions)),
            Ok(None) => Ok(Plan::Engine(Self::model(polyhedron, direction, use_presolve))),
        }
    }

    /// Describes the model of `polyhedron`.
    pub fn model(
        polyhedron: &SparseLEIntegerPolyhedron,
        direction: SolverDirection,
        use_presolve: bool,
    ) -> (model: HighsModel)
        requires
            polyhedron.a.readable(),
        ensures
            model.describes(*polyhedron, direction, use_presolve),
    {
        let sense: i32 = match direction {
            SolverDirection::Minimize => 1,
            SolverDirection::Maximize => -1,
        };
        let variables = &polyhedron.variables;
        let n_cols = variables.len();
        let matrix = compress_columns(&polyhedron.a, n_cols);
        let mut col_lower: Vec<i32> = Vec::new();
        let mut col_upper: Vec<i32> = Vec::new();
        let mut col_integrality: Vec<i32> = Vec::new();
        let mut j: usize = 0;
        while j < n_cols
            invariant
                n_cols == variables@.len(),
                j <= n_cols,
                col_lower@.len() == j,
                col_upper@.len() == j,
                col_integrality@.len() == j,
                forall|i: int| 0 <= i < j ==> (#[trigger] col_lower@[i]) == variables@[i].bound.0,
                forall|i: int| 0 <= i < j ==> (#[trigger] col_upper@[i]) == variables@[i].bound.1,
                forall|i: int| 0 <= i < j ==> (#[trigger] col_integrality@[i]) == 1,
            decreases n_cols - j,
        {
            col_lower.push(variables[j].bound.0);
            col_upper.push(variables[j].bound.1);
            col_integrality.push(1);
            j = j + 1;
        }
        proof {
            assert(col_lower@ =~= Seq::new(
                n_cols as nat,
                |j: int| polyhedron.variables@[j].bound.0,
            ));
            assert(col_upper@ =~= Seq::new(
                n_cols as nat,
                |j: int| polyhedron.variables@[j].bound.1,
            ));
            assert(col_integrality@ =~= Seq::new(n_cols as nat, |j: int| 1i32));
        }
        let n_rows = polyhedron.a.shape.nrows;
        let mut row_lower: Vec<Option<i32>> = Vec::new();
        let mut r: usize = 0;
        while r < n_rows
            invariant
                r <= n_rows,
                row_lower@.len() == r,
                forall|q: int| 0 <= q < r ==> (#[trigger] row_lower@[q]) is None,
            decreases n_rows - r,
        {
            row_lower.push(None);
            r = r + 1;
        }
        assert(row_lower@ =~= Seq::new(n_rows as nat, |r: int| None::<i32>));
        HighsModel {
            presolve: use_presolve,
            output_flag: false,
            sense,
            n_rows,
            row_lower,
            row_upper: copy_integers(&polyhedron.b),
            matrix,
            col_lower,
            col_upper,
            col_integrality,
        }
    }

    /// The error for an engine instance that could not be created.
    pub fn instance_failure() -> (error: SolveInputError)
        ensures
            error@ == "Failed to create HiGHS instance"@,
    {
        SolveInputError { details: String::from_str("Failed to create HiGHS instance") }
    }

    /// The error that ends a request when the engine reports a model
    /// status outside its vocabulary: such a number is never read as a
    /// status.
    pub fn unknown_status(status: i32) -> (error: SolveInputError)
        ensures
            error@ == unknown_status_message(status as int),
    {
        SolveInputError {
            details: join(
                "HiGHS returned the unrecognized model status ",
                signed_to_string(status as i64).as_str(),
            ),
        }
    }

    /// Turns what a run brought back into the answer for its objective. A
    /// run that failed answers that objective alone, with an undefined
    /// status and the engine's code in the error text. A run that went
    /// through with a model status outside the engine's vocabulary gives
    /// no answer but the error that names the number.
    pub fn solution(run: HighsRun) -> (r: Result<ApiSolution, SolveInputError>)
        ensures
            r is Ok <==> run.failure() is None,
            r matches Ok(s) ==> s@ == run.answer(),
            r matches Err(error) ==> run.failure() == Some(error@),
    {
        match run {
            HighsRun::Failed(status) => {
                let details = join(
                    "HiGHS solve failed with status ",
                    signed_to_string(status as i64).as_str(),
                );
                let s = ApiSolution {
                    status: Status::Undefined,
                    objective: 0,
                    solution: Vec::new(),
                    error: Some(details),
                };
                assert(s@.solution =~= Seq::empty());
                Ok(s)
            },
            HighsRun::Solved { model_status, solution, objective } => {
                match Self::convert_status(model_status) {
                    Some(status) => Ok(ApiSolution { status, objective, solution, error: None }),
                    None => Err(Self::unknown_status(model_status)),
                }
            },
        }
    }

    /// The answers to a whole request: one per run, in the order of the
    /// runs. A failed run does not end the batch; a model status outside
    /// the engine's vocabulary ends it with the error that names the
    /// number.
    pub fn solutions(runs: Vec<HighsRun>) -> (r: Result<Vec<ApiSolution>, SolveInputError>)
        ensures
            r is Ok <==> forall|k: int|
                0 <= k < runs@.len() ==> (#[trigger] runs@[k]).failure() is None,
            r matches Ok(answers) ==> answers@.len() == runs@.len() && forall|k: int|
                0 <= k < runs@.len() ==> (#[trigger] answers@[k])@ == runs@[k].answer(),
            r matches Err(error) ==> exists|k: int|
                0 <= k < runs@.len() && (#[trigger] runs@[k]).failure() == Some(error@)
                    && forall|i: int| 0 <= i < k ==> (#[trigger] runs@[i]).failure() is None,
    {
        let ghost all = runs@;
        let mut answers: Vec<ApiSolution> = Vec::new();
        for run in it: runs
            invariant
                it.seq() == all,
                answers@.len() == it.index(),
                forall|k: int| 0 <= k < answers@.len() ==> (#[trigger] all[k]).failure() is None,
                forall|k: int|
                    0 <= k < answers@.len() ==> (#[trigger] answers@[k])@ == all[k].answer(),
        {
            match Self::solution(run) {
                Ok(answer) => {
                    answers.push(answer);
                },
                Err(error) => {
                    return Err(error);
                },
            }
        }
        Ok(answers)
    }
}

} // verus!
