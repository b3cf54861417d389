//! Value types shared by every backend: the sparse polyhedron `A x <= b`
//! with bounded integer variables, objectives, and solutions.

use vstd::prelude::*;

verus! {

/// Outcome of one optimisation run, in the order used on the wire.
#[derive(Clone, Copy, Debug, PartialEq, Eq, Structural)]
pub enum Status {
    Undefined,
    Feasible,
    Infeasible,
    NoFeasible,
    Optimal,
    Unbounded,
    SimplexFailed,
    MIPFailed,
    EmptySpace,
}

impl Status {
    /// The number that stands for a status on the wire.
    pub open spec fn spec_code(self) -> int {
        match self {
            Status::Undefined => 1,
            Status::Feasible => 2,
            Status::Infeasible => 3,
            Status::NoFeasible => 4,
            Status::Optimal => 5,
            Status::Unbounded => 6,
            Status::SimplexFailed => 7,
            Status::MIPFailed => 8,
            Status::EmptySpace => 9,
        }
    }

    /// The status that a wire number stands for, if any.
    pub open spec fn spec_from_code(code: int) -> Option<Status> {
        if code == 1 {
            Some(Status::Undefined)
        } else if code == 2 {
            Some(Status::Feasible)
        } else if code == 3 {
            Some(Status::Infeasible)
        } else if code == 4 {
            Some(Status::NoFeasible)
        } else if code == 5 {
            Some(Status::Optimal)
        } else if code == 6 {
            Some(Status::Unbounded)
        } else if code == 7 {
            Some(Status::SimplexFailed)
        } else if code == 8 {
            Some(Status::MIPFailed)
        } else if code == 9 {
            Some(Status::EmptySpace)
        } else {
            None
        }
    }

    /// The number that stands for this status on the wire.
    pub fn code(self) -> (c: i32)
        ensures
            c == self.spec_code(),
    {
        match self {
            Status::Undefined => 1,
            Status::Feasible => 2,
            Status::Infeasible => 3,
            Status::NoFeasible => 4,
            Status::Optimal => 5,
            Status::Unbounded => 6,
            Status::SimplexFailed => 7,
            Status::MIPFailed => 8,
            Status::EmptySpace => 9,
        }
    }

    /// Reads a wire number back. A number outside the vocabulary is not
    /// coerced to any status.
    pub fn from_code(code: i32) -> (s: Option<Status>)
        ensures
            s == Status::spec_from_code(code as int),
    {
        if code == 1 {
            Some(Status::Undefined)
        } else if code == 2 {
            Some(Status::Feasible)
        } else if code == 3 {
            Some(Status::Infeasible)
        } else if code == 4 {
            Some(Status::NoFeasible)
        } else if code == 5 {
            Some(Status::Optimal)
        } else if code == 6 {
            Some(Status::Unbounded)
        } else if code == 7 {
            Some(Status::SimplexFailed)
        } else if code == 8 {
            Some(Status::MIPFailed)
        } else if code == 9 {
            Some(Status::EmptySpace)
        } else {
            None
        }
    }
}

/// Reading a status's wire number back gives the status again, and the
/// numbers run from 1 to 9.
pub proof fn lemma_status_code_round_trip(s: Status)
    ensures
        Status::spec_from_code(s.spec_code()) == Some(s),
        1 <= s.spec_code() <= 9,
{
}

/// Whether the objective is to be made as large or as small as possible.
#[derive(Clone, Copy, Debug, PartialEq, Eq, Structural)]
pub enum SolverDirection {
    Maximize,
    Minimize,
}

/// A decision variable: its identifier and its inclusive integer bounds
/// `(lower, upper)`.
#[derive(Debug, PartialEq, Eq)]
pub struct ApiVariable {
    pub id: String,
    pub bound: (i32, i32),
}

impl Clone for ApiVariable {
    fn clone(&self) -> (r: Self)
        ensures
            r == *self,
    {
        ApiVariable { id: self.id.clone(), bound: (self.bound.0, self.bound.1) }
    }
}

impl ApiVariable {
    /// The bounds are in order.
    pub open spec fn well_formed(&self) -> bool {
        self.bound.0 <= self.bound.1
    }

    /// Whether `value` lies within the bounds.
    pub open spec fn admits(&self, value: int) -> bool {
        self.bound.0 <= value <= self.bound.1
    }

    /// The bounds are exactly `(0, 1)`.
    pub open spec fn spec_is_binary(&self) -> bool {
        self.bound.0 == 0 && self.bound.1 == 1
    }

    /// The bounds leave a single value.
    pub open spec fn spec_is_fixed(&self) -> bool {
        self.bound.0 == self.bound.1
    }

    /// Whether the bounds are exactly `(0, 1)`, so that an engine may treat
    /// the variable as a native binary.
    pub fn is_binary(&self) -> (r: bool)
        ensures
            r == self.spec_is_binary(),
    {
        self.bound.0 == 0 && self.bound.1 == 1
    }

    /// Whether the bounds leave a single value.
    pub fn is_fixed(&self) -> (r: bool)
        ensures
            r == self.spec_is_fixed(),
    {
        self.bound.0 == self.bound.1
    }
}

/// Declared dimensions of a matrix.
#[derive(Clone, Copy, Debug, PartialEq, Eq, Structural)]
pub struct ApiShape {
    pub nrows: usize,
    pub ncols: usize,
}

/// An integer matrix in coordinate form: entry `k` puts `vals[k]` at row
/// `rows[k]`, column `cols[k]`.
#[derive(Clone, Debug, PartialEq, Eq)]
pub struct ApiIntegerSparseMatrix {
    pub rows: Vec<i32>,
    pub cols: Vec<i32>,
    pub vals: Vec<i32>,
    pub shape: ApiShape,
}

impl ApiIntegerSparseMatrix {
    /// The three coordinate arrays have one length.
    pub open spec fn well_formed(&self) -> bool {
        self.rows@.len() == self.cols@.len() && self.rows@.len() == self.vals@.len()
    }

    /// Every stored entry can be read: there is a column and a value for
    /// each row index, so that `cols` and `vals` are at least as long as
    /// `rows`. What they hold beyond the length of `rows` is no entry.
    pub open spec fn readable(&self) -> bool {
        self.rows@.len() <= self.cols@.len() && self.rows@.len() <= self.vals@.len()
    }

    /// Number of stored entries.
    pub open spec fn nnz(&self) -> nat {
        self.rows@.len()
    }

    /// Whether the three coordinate arrays have one length.
    pub fn is_well_formed(&self) -> (r: bool)
        ensures
            r == self.well_formed(),
    {
        self.rows.len() == self.cols.len() && self.rows.len() == self.vals.len()
    }

    /// Whether every stored entry can be read.
    pub fn is_readable(&self) -> (r: bool)
        ensures
            r == self.readable(),
    {
        self.rows.len() <= self.cols.len() && self.rows.len() <= self.vals.len()
    }

    /// Whether the matrix stores no entry at all.
    pub fn is_empty(&self) -> (r: bool)
        ensures
            r == (self.nnz() == 0),
    {
        self.rows.len() == 0
    }
}

/// The feasible region `A x <= b`, each `x_j` within the bounds of
/// `variables[j]`.
#[derive(Clone, Debug, PartialEq, Eq)]
pub struct SparseLEIntegerPolyhedron {
    pub a: ApiIntegerSparseMatrix,
    pub b: Vec<i32>,
    pub variables: Vec<ApiVariable>,
}

impl SparseLEIntegerPolyhedron {
    /// The declared shape agrees with the number of variables and of
    /// right-hand sides.
    pub open spec fn dimensions_agree(&self) -> bool {
        self.variables@.len() == self.a.shape.ncols && self.b@.len() == self.a.shape.nrows
    }
}

/// Whether some variable of `variables` carries the identifier `id`.
pub open spec fn declares(variables: Seq<ApiVariable>, id: Seq<char>) -> bool {
    exists|j: int| 0 <= j < variables.len() && #[trigger] variables[j].id@ == id
}

/// What a list of `(id, value)` entries gives for `id`: the value of the
/// last entry that carries it.
pub open spec fn entry_value<V>(entries: Seq<(String, V)>, id: Seq<char>) -> Option<V>
    decreases entries.len(),
{
    if entries.len() == 0 {
        None
    } else if entries.last().0@ == id {
        Some(entries.last().1)
    } else {
        entry_value(entries.drop_last(), id)
    }
}

/// Looks up what a list of entries gives for `id`.
pub fn find_entry<V: Copy>(entries: &Vec<(String, V)>, id: &String) -> (v: Option<V>)
    ensures
        v == entry_value(entries@, id@),
{
    let mut k: usize = entries.len();
    proof {
        assert(entries@.take(k as int) =~= entries@);
    }
    while k > 0
        invariant
            k <= entries@.len(),
            entry_value(entries@, id@) == entry_value(entries@.take(k as int), id@),
        decreases k,
    {
        proof {
            let prefix = entries@.take(k as int);
            assert(prefix.last() == entries@[k - 1]);
            assert(prefix.drop_last() =~= entries@.take(k - 1));
        }
        k = k - 1;
        if entries[k].0 == *id {
            return Some(entries[k].1);
        }
    }
    proof {
        assert(entries@.take(0).len() == 0);
    }
    None
}

/// A linear objective: coefficients by variable identifier. An identifier
/// without an entry has coefficient zero; of several entries for one
/// identifier the last one counts. The library routes coefficients without
/// ever computing with them, so their type is left to the caller.
#[derive(Clone, Debug, PartialEq)]
pub struct Objective<C> {
    pub entries: Vec<(String, C)>,
}

impl<C> View for Objective<C> {
    type V = Map<Seq<char>, C>;

    /// The objective as a map from identifier to coefficient.
    open spec fn view(&self) -> Map<Seq<char>, C> {
        Map::new(
            |id: Seq<char>| self.coefficient(id) is Some,
            |id: Seq<char>| self.coefficient(id)->0,
        )
    }
}

impl<C> Objective<C> {
    /// The coefficient given to `id`, if any.
    pub open spec fn coefficient(&self, id: Seq<char>) -> Option<C> {
        entry_value(self.entries@, id)
    }

    /// The objective without any entry: the zero function.
    pub fn new() -> (o: Self)
        ensures
            o.entries@.len() == 0,
            forall|id: Seq<char>| o.coefficient(id) is None,
    {
        Objective { entries: Vec::new() }
    }

    /// Gives `id` the coefficient `coefficient`, in place of any earlier one.
    pub fn insert(&mut self, id: String, coefficient: C)
        ensures
            final(self).entries@ == old(self).entries@.push((id, coefficient)),
            final(self).coefficient(id@) == Some(coefficient),
            forall|other: Seq<char>|
                other != id@ ==> final(self).coefficient(other) == old(self).coefficient(other),
    {
        self.entries.push((id, coefficient));
        proof {
            let after = self.entries@;
            assert(after.drop_last() =~= old(self).entries@);
            assert(after.last() == (id, coefficient));
        }
    }

    /// Number of entries.
    pub fn len(&self) -> (n: usize)
        ensures
            n == self.entries@.len(),
    {
        self.entries.len()
    }
}

impl<C: Copy> Objective<C> {
    /// Looks up the coefficient given to `id`.
    pub fn get(&self, id: &String) -> (c: Option<C>)
        ensures
            c == self.coefficient(id@),
    {
        find_entry(&self.entries, id)
    }
}

/// The answer to one objective.
#[derive(Clone, Debug, PartialEq, Eq)]
pub struct ApiSolution {
    pub status: Status,
    /// Value of the objective at the reported point.
    pub objective: i32,
    /// Value of each variable, by identifier; of several entries for one
    /// identifier the last one counts.
    pub solution: Vec<(String, i32)>,
    pub error: Option<String>,
}

/// An `ApiSolution` as plain mathematical values.
pub struct SolutionView {
    pub status: Status,
    pub objective: int,
    pub solution: Seq<(Seq<char>, int)>,
    pub error: Option<Seq<char>>,
}

/// The entries of an assignment as plain values.
pub open spec fn assignment_view(entries: Seq<(String, i32)>) -> Seq<(Seq<char>, int)> {
    Seq::new(entries.len(), |k: int| (entries[k].0@, entries[k].1 as int))
}

/// An optional text as plain values.
pub open spec fn text_view(text: Option<String>) -> Option<Seq<char>> {
    match text {
        Some(t) => Some(t@),
        None => None,
    }
}

impl View for ApiSolution {
    type V = SolutionView;

    open spec fn view(&self) -> SolutionView {
        SolutionView {
            status: self.status,
            objective: self.objective as int,
            solution: assignment_view(self.solution@),
            error: text_view(self.error),
        }
    }
}

impl ApiSolution {
    /// The value that the solution gives to `id`, if any.
    pub open spec fn value(&self, id: Seq<char>) -> Option<i32> {
        entry_value(self.solution@, id)
    }

    /// Looks up the value that the solution gives to `id`.
    pub fn get(&self, id: &String) -> (v: Option<i32>)
        ensures
            v == self.value(id@),
    {
        find_entry(&self.solution, id)
    }
}

/// A request: one polyhedron, the objectives to optimise over it one by
/// one, and the direction shared by all of them.
#[derive(Clone, Debug, PartialEq)]
pub struct SolveRequest<C> {
    pub polyhedron: SparseLEIntegerPolyhedron,
    pub objectives: Vec<Objective<C>>,
    pub direction: SolverDirection,
}

} // verus!
