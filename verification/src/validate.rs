//! Checks that a request is consistent before any engine sees it.

use vstd::prelude::*;
use vstd::string::*;
use crate::index::{lemma_carried_somewhere, IdIndex};
use crate::models::{declares, ApiVariable, Objective, SolveRequest, SparseLEIntegerPolyhedron};
use crate::text::{count_to_string, decimal_text, join};

verus! {

/// A request that the caller has to change before it can be solved.
#[derive(Clone, Debug, PartialEq, Eq)]
pub struct SolveInputError {
    pub details: String,
}

impl View for SolveInputError {
    type V = Seq<char>;

    open spec fn view(&self) -> Seq<char> {
        self.details@
    }
}

impl SolveInputError {
    /// The response code under which an input error is reported to the
    /// caller: 422, unprocessable entity.
    pub fn status_code(&self) -> (code: u16)
        ensures
            code == 422,
    {
        422
    }

    /// The message, as a caller would print it.
    pub fn to_string(&self) -> (s: String)
        ensures
            s@ == self@,
    {
        self.details.clone()
    }
}

/// The message for an objective that names the undeclared variable `id`.
pub open spec fn missing_variable_message(id: Seq<char>) -> Seq<char> {
    "Objective contains missing variable "@ + id
}

/// The message for a polyhedron with `variables` variables whose matrix
/// declares `columns` columns.
pub open spec fn column_mismatch_message(variables: int, columns: int) -> Seq<char> {
    "Number of variables must match number of columns in A got "@ + decimal_text(variables)
        + " variables and "@ + decimal_text(columns) + " columns"@
}

/// The message for a polyhedron with `values` right-hand sides whose matrix
/// declares `rows` rows.
pub open spec fn row_mismatch_message(values: int, rows: int) -> Seq<char> {
    "Number of values in b must match number of rows in A got "@ + decimal_text(values)
        + " values and "@ + decimal_text(rows) + " rows"@
}

/// Every identifier that `objective` mentions is declared in `variables`.
pub open spec fn objective_declared<C>(
    variables: Seq<ApiVariable>,
    objective: Objective<C>,
) -> bool {
    forall|e: int|
        0 <= e < objective.entries@.len() ==> declares(
            variables,
            (#[trigger] objective.entries@[e]).0@,
        )
}

/// Every identifier that any of `objectives` mentions is declared.
pub open spec fn objectives_declared<C>(
    variables: Seq<ApiVariable>,
    objectives: Seq<Objective<C>>,
) -> bool {
    forall|o: int|
        0 <= o < objectives.len() ==> objective_declared(variables, #[trigger] objectives[o])
}

/// Entry `e` of objective `o` is the first, in reading order, to mention an
/// undeclared identifier.
pub open spec fn first_undeclared<C>(
    variables: Seq<ApiVariable>,
    objectives: Seq<Objective<C>>,
    o: int,
    e: int,
) -> bool {
    &&& 0 <= o < objectives.len()
    &&& 0 <= e < objectives[o].entries@.len()
    &&& !declares(variables, objectives[o].entries@[e].0@)
    &&& forall|p: int| 0 <= p < o ==> objective_declared(variables, #[trigger] objectives[p])
    &&& forall|f: int|
        0 <= f < e ==> declares(variables, (#[trigger] objectives[o].entries@[f]).0@)
}

/// `message` is the one that names the first undeclared identifier of
/// `objectives`.
pub open spec fn names_first_undeclared<C>(
    variables: Seq<ApiVariable>,
    objectives: Seq<Objective<C>>,
    message: Seq<char>,
) -> bool {
    exists|o: int, e: int|
        #![trigger objectives[o].entries@[e]]
        first_undeclared(variables, objectives, o, e) && message == missing_variable_message(
            objectives[o].entries@[e].0@,
        )
}

/// Accepts the objectives exactly when each identifier they mention is
/// declared in `variables`; otherwise the error names the first identifier,
/// in reading order, that is not.
pub fn validate_objectives_owned<C>(
    variables: &Vec<ApiVariable>,
    objectives: &Vec<Objective<C>>,
) -> (r: Result<(), SolveInputError>)
    ensures
        r is Ok <==> objectives_declared(variables@, objectives@),
        r matches Err(error) ==> names_first_undeclared(variables@, objectives@, error@),
{
    let index = IdIndex::build(variables);
    let mut o: usize = 0;
    while o < objectives.len()
        invariant
            index.indexes(variables@),
            o <= objectives@.len(),
            forall|p: int| 0 <= p < o ==> objective_declared(variables@, #[trigger] objectives@[p]),
        decreases objectives@.len() - o,
    {
        let objective = &objectives[o];
        let mut e: usize = 0;
        while e < objective.entries.len()
            invariant
                index.indexes(variables@),
                o < objectives@.len(),
                objective == objectives@[o as int],
                e <= objective.entries@.len(),
                forall|p: int|
                    0 <= p < o ==> objective_declared(variables@, #[trigger] objectives@[p]),
                forall|f: int|
                    0 <= f < e ==> declares(variables@, (#[trigger] objective.entries@[f]).0@),
            decreases objective.entries@.len() - e,
        {
            proof {
                lemma_carried_somewhere(variables@, objective.entries@[e as int].0@);
            }
            if index.find_last(variables, &objective.entries[e].0).is_none() {
                let details = join(
                    "Objective contains missing variable ",
                    objective.entries[e].0.as_str(),
                );
                proof {
                    assert(first_undeclared(variables@, objectives@, o as int, e as int));
                    assert(!objective_declared(variables@, objectives@[o as int]));
                }
                return Err(SolveInputError { details });
            }
            e = e + 1;
        }
        o = o + 1;
    }
    Ok(())
}

/// What the dimension check answers: the message of the first mismatch, or
/// nothing where the dimensions agree.
pub open spec fn dimension_error(polyhedron: SparseLEIntegerPolyhedron) -> Option<Seq<char>> {
    if polyhedron.variables@.len() != polyhedron.a.shape.ncols {
        Some(
            column_mismatch_message(
                polyhedron.variables@.len() as int,
                polyhedron.a.shape.ncols as int,
            ),
        )
    } else if polyhedron.b@.len() != polyhedron.a.shape.nrows {
        Some(row_mismatch_message(polyhedron.b@.len() as int, polyhedron.a.shape.nrows as int))
    } else {
        None
    }
}

/// Accepts the polyhedron exactly when it has one variable per declared
/// column and one right-hand side per declared row.
pub fn validate_polyhedron(polyhedron: &SparseLEIntegerPolyhedron) -> (r: Result<
    (),
    SolveInputError,
>)
    ensures
        r is Ok <==> polyhedron.dimensions_agree(),
        r is Ok <==> dimension_error(*polyhedron) is None,
        r matches Err(error) ==> Some(error@) == dimension_error(*polyhedron),
{
    let variable_count = polyhedron.variables.len();
    let column_count = polyhedron.a.shape.ncols;
    if variable_count != column_count {
        let details = join(
            join(
                join(
                    join(
                        "Number of variables must match number of columns in A got ",
                        count_to_string(variable_count).as_str(),
                    ).as_str(),
                    " variables and ",
                ).as_str(),
                count_to_string(column_count).as_str(),
            ).as_str(),
            " columns",
        );
        return Err(SolveInputError { details });
    }
    let b_count = polyhedron.b.len();
    let row_count = polyhedron.a.shape.nrows;
    if b_count != row_count {
        let details = join(
            join(
                join(
                    join(
                        "Number of values in b must match number of rows in A got ",
                        count_to_string(b_count).as_str(),
                    ).as_str(),
                    " values and ",
                ).as_str(),
                count_to_string(row_count).as_str(),
            ).as_str(),
            " rows",
        );
        return Err(SolveInputError { details });
    }
    Ok(())
}

/// Checks the dimensions of the polyhedron of a request.
pub fn validate_solve_request<C>(req: &SolveRequest<C>) -> (r: Result<(), SolveInputError>)
    ensures
        r is Ok <==> req.polyhedron.dimensions_agree(),
        r matches Err(error) ==> Some(error@) == dimension_error(req.polyhedron),
{
    validate_polyhedron(&req.polyhedron)
}

} // verus!
