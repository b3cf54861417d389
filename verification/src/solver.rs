//! What every backend shares: the answer to a request with an empty
//! constraint matrix, the routing of objective coefficients to columns, and
//! the naming of reported column values.

use vstd::prelude::*;
use crate::index::{lemma_entry_value_at_last, IdIndex};
use crate::matrix::{group_by_row, row_of};
use crate::models::{
    assignment_view, ApiSolution, ApiVariable, Objective, SolutionView, SparseLEIntegerPolyhedron,
    Status,
};
use crate::validate::{
    names_first_undeclared, objectives_declared, validate_objectives_owned, SolveInputError,
};

verus! {

/// The answer given for each objective when the constraint matrix stores
/// no entry: no engine is asked.
pub open spec fn empty_space_view() -> SolutionView {
    SolutionView {
        status: Status::EmptySpace,
        objective: 0,
        solution: Seq::empty(),
        error: None,
    }
}

/// `solutions` holds `n` answers, each the one for an empty matrix.
pub open spec fn all_empty_space(solutions: Seq<ApiSolution>, n: int) -> bool {
    &&& solutions.len() == n
    &&& forall|k: int| 0 <= k < solutions.len() ==> (#[trigger] solutions[k])@ == empty_space_view()
}

/// One answer per objective for a request whose matrix stores no entry.
pub fn empty_space_solutions(n: usize) -> (solutions: Vec<ApiSolution>)
    ensures
        all_empty_space(solutions@, n as int),
{
    let mut solutions: Vec<ApiSolution> = Vec::new();
    let mut k: usize = 0;
    while k < n
        invariant
            k <= n,
            all_empty_space(solutions@, k as int),
        decreases n - k,
    {
        let solution = ApiSolution {
            status: Status::EmptySpace,
            objective: 0,
            solution: Vec::new(),
            error: None,
        };
        assert(solution@.solution =~= Seq::empty());
        solutions.push(solution);
        k = k + 1;
    }
    solutions
}

/// What a backend hands back before any engine runs: either the answers
/// themselves, for a request whose matrix stores no entry, or the
/// description of what the engine is to be given.
#[derive(Debug, PartialEq, Eq)]
pub enum Plan<M> {
    EmptySpace(Vec<ApiSolution>),
    Engine(M),
}

/// The two checks that come before any backend's own work. An objective
/// that mentions an undeclared variable rejects the request; a matrix
/// without entries answers it with one empty-space solution per objective;
/// otherwise the backend goes on.
pub fn screen<C>(polyhedron: &SparseLEIntegerPolyhedron, objectives: &Vec<Objective<C>>) -> (r:
    Result<Option<Vec<ApiSolution>>, SolveInputError>)
    ensures
        r is Err <==> !objectives_declared(polyhedron.variables@, objectives@),
        r matches Err(error) ==> names_first_undeclared(
            polyhedron.variables@,
            objectives@,
            error@,
        ),
        r matches Ok(Some(solutions)) ==> polyhedron.a.nnz() == 0 && all_empty_space(
            solutions@,
            objectives@.len() as int,
        ),
        r matches Ok(None) ==> polyhedron.a.nnz() > 0,
{
    match validate_objectives_owned(&polyhedron.variables, objectives) {
        Err(error) => Err(error),
        Ok(()) => {
            if polyhedron.a.is_empty() {
                Ok(Some(empty_space_solutions(objectives.len())))
            } else {
                Ok(None)
            }
        },
    }
}

/// One inequality `sum of value * x[column] <= rhs`, made from row `index`.
#[derive(Clone, Debug, PartialEq, Eq)]
pub struct ConstraintRow {
    pub index: usize,
    pub terms: Vec<(usize, i32)>,
    pub rhs: i32,
}

/// The right-hand side of row `r`: `b[r]`, or zero where `b` is too short.
pub open spec fn rhs_of(b: Seq<i32>, r: int) -> i32 {
    if 0 <= r < b.len() {
        b[r]
    } else {
        0
    }
}

/// The rows `0..r_end` of the polyhedron that hold at least one entry, in
/// order, each as `(row, terms, rhs)`.
pub open spec fn rows_before(p: SparseLEIntegerPolyhedron, r_end: int) -> Seq<
    (int, Seq<(usize, i32)>, i32),
>
    decreases r_end,
{
    if r_end <= 0 {
        Seq::empty()
    } else {
        let rest = rows_before(p, r_end - 1);
        if row_of(p.a, r_end - 1).len() > 0 {
            rest.push((r_end - 1, row_of(p.a, r_end - 1), rhs_of(p.b@, r_end - 1)))
        } else {
            rest
        }
    }
}

/// `rows` are the constraints listed by `expected`.
pub open spec fn rows_match(
    rows: Seq<ConstraintRow>,
    expected: Seq<(int, Seq<(usize, i32)>, i32)>,
) -> bool {
    &&& rows.len() == expected.len()
    &&& forall|k: int|
        0 <= k < rows.len() ==> (#[trigger] rows[k]).index == expected[k].0 && rows[k].terms@
            == expected[k].1 && rows[k].rhs == expected[k].2
}

/// The constraints of the polyhedron, row by row: one for every row of the
/// declared shape that holds an entry within the shape. Rows without
/// entries give no constraint.
pub fn constraint_rows(polyhedron: &SparseLEIntegerPolyhedron) -> (rows: Vec<ConstraintRow>)
    requires
        polyhedron.a.readable(),
    ensures
        rows_match(rows@, rows_before(*polyhedron, polyhedron.a.shape.nrows as int)),
{
    let groups = group_by_row(&polyhedron.a);
    let mut rows: Vec<ConstraintRow> = Vec::new();
    let mut r: usize = 0;
    while r < groups.len()
        invariant
            r <= groups@.len(),
            groups@.len() == polyhedron.a.shape.nrows,
            forall|q: int|
                0 <= q < groups@.len() ==> (#[trigger] groups@[q])@ == row_of(polyhedron.a, q),
            rows_match(rows@, rows_before(*polyhedron, r as int)),
        decreases groups@.len() - r,
    {
        let group = &groups[r];
        if group.len() > 0 {
            let mut terms: Vec<(usize, i32)> = Vec::new();
            let mut k: usize = 0;
            while k < group.len()
                invariant
                    k <= group@.len(),
                    terms@ == group@.take(k as int),
                decreases group@.len() - k,
            {
                terms.push(group[k]);
                proof {
                    assert(group@.take(k + 1) =~= group@.take(k as int).push(group@[k as int]));
                }
                k = k + 1;
            }
            assert(group@.take(group@.len() as int) =~= group@);
            let rhs: i32 = if r < polyhedron.b.len() {
                polyhedron.b[r]
            } else {
                0
            };
            rows.push(ConstraintRow { index: r, terms, rhs });
        }
        r = r + 1;
    }
    rows
}

/// The cost of each column under `objective`: the coefficient given to the
/// column's variable, or nothing where the objective does not mention it
/// (a cost of zero).
pub open spec fn costs_of<C>(variables: Seq<ApiVariable>, objective: Objective<C>) -> Seq<
    Option<C>,
> {
    Seq::new(variables.len(), |j: int| objective.coefficient(variables[j].id@))
}

/// The zero function, written as an objective without entries, gives no
/// column a cost.
pub proof fn lemma_zero_objective_costs<C>(variables: Seq<ApiVariable>, objective: Objective<C>)
    requires
        objective.entries@.len() == 0,
    ensures
        costs_of(variables, objective).len() == variables.len(),
        forall|j: int|
            0 <= j < variables.len() ==> (#[trigger] costs_of(variables, objective)[j]) is None,
{
}

/// Routes the coefficients of `objective` to the columns of `variables`.
pub fn column_costs<C: Copy>(variables: &Vec<ApiVariable>, objective: &Objective<C>) -> (costs:
    Vec<Option<C>>)
    ensures
        costs@ == costs_of(variables@, *objective),
{
    let index = IdIndex::build(&objective.entries);
    let mut costs: Vec<Option<C>> = Vec::new();
    let mut j: usize = 0;
    while j < variables.len()
        invariant
            index.indexes(objective.entries@),
            j <= variables@.len(),
            costs@.len() == j,
            forall|i: int|
                0 <= i < j ==> (#[trigger] costs@[i]) == objective.coefficient(variables@[i].id@),
        decreases variables@.len() - j,
    {
        proof {
            lemma_entry_value_at_last(objective.entries@, variables@[j as int].id@);
        }
        let cost = match index.find_last(&objective.entries, &variables[j].id) {
            Some(k) => Some(objective.entries[k].1),
            None => None,
        };
        costs.push(cost);
        j = j + 1;
    }
    assert(costs@ =~= costs_of(variables@, *objective));
    costs
}

/// The value reported for column `j`: `values[j]`, or zero where the
/// engine reported fewer values than there are columns.
pub open spec fn reported(values: Seq<i32>, j: int) -> int {
    if 0 <= j < values.len() {
        values[j] as int
    } else {
        0
    }
}

/// The assignment that names each reported column value by its variable,
/// in column order.
pub open spec fn assignment_of(variables: Seq<ApiVariable>, values: Seq<i32>) -> Seq<
    (Seq<char>, int),
> {
    Seq::new(variables.len(), |j: int| (variables[j].id@, reported(values, j)))
}

/// Names each reported column value by its variable.
pub fn assign(variables: &Vec<ApiVariable>, values: &Vec<i32>) -> (entries: Vec<(String, i32)>)
    ensures
        assignment_view(entries@) == assignment_of(variables@, values@),
{
    let mut entries: Vec<(String, i32)> = Vec::new();
    let mut j: usize = 0;
    while j < variables.len()
        invariant
            j <= variables@.len(),
            entries@.len() == j,
            forall|i: int|
                0 <= i < j ==> (#[trigger] entries@[i]).0@ == variables@[i].id@ && entries@[i].1
                    == reported(values@, i),
        decreases variables@.len() - j,
    {
        let value: i32 = if j < values.len() {
            values[j]
        } else {
            0
        };
        entries.push((variables[j].id.clone(), value));
        j = j + 1;
    }
    assert(assignment_view(entries@) =~= assignment_of(variables@, values@));
    entries
}

} // verus!
