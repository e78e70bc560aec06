//! Worker/task assignment by maximum-weight matching.
//!
//! An [`AssignmentProblem`] pads a rectangular cost matrix to a square one
//! with zero-cost entries, hands the square matrix to the Kuhn-Munkres
//! solver of the `pathfinding` crate, and maps the resulting matching back
//! to the rectangular shape: a task assigned to a padding column gets no
//! worker.

use vstd::prelude::*;

verus! {

/// Largest cost magnitude accepted: keeps the solver's internal sums far
/// from overflow.
pub const COST_LIMIT: i64 = 0x10_0000;

/// Largest matrix dimension accepted.
pub const SIZE_LIMIT: usize = 1024;

/// A rectangular array of rows as mathematical values.
pub open spec fn matrix_model(rows: Seq<Vec<i64>>) -> Seq<Seq<int>> {
    rows.map_values(|row: Vec<i64>| row@.map_values(|x: i64| x as int))
}

/// `a` assigns each of `size` rows a distinct column below `size`.
pub open spec fn is_square_assignment(a: Seq<int>, size: int) -> bool {
    &&& a.len() == size
    &&& forall|i: int| 0 <= i < size ==> 0 <= #[trigger] a[i] < size
    &&& forall|i: int, j: int| 0 <= i < j < size ==> a[i] != a[j]
}

/// Total weight of assignment `a` over `costs`: the sum of each row's entry
/// in its assigned column.
pub open spec fn assignment_total(costs: Seq<Seq<int>>, a: Seq<int>) -> int
    decreases a.len(),
{
    if a.len() == 0 {
        0
    } else {
        assignment_total(costs, a.drop_last()) + costs[a.len() - 1][a[a.len() - 1]]
    }
}

/// `a` is a maximum-weight perfect matching of the square matrix `costs`.
pub open spec fn is_optimal_assignment(costs: Seq<Seq<int>>, a: Seq<int>, size: int) -> bool {
    &&& is_square_assignment(a, size)
    &&& forall|other: Seq<int>|
        #[trigger] is_square_assignment(other, size) ==> assignment_total(costs, other)
            <= assignment_total(costs, a)
}

/// Relies on `pathfinding::matrix::Matrix::from_rows` and
/// `pathfinding::kuhn_munkres::kuhn_munkres`: for a square weight matrix the
/// solver returns, for each row, a distinct column, chosen so that the total
/// weight of the matching is maximal.
#[verifier::external_body]
fn kuhn_munkres_square(costs: &Vec<Vec<i64>>, size: usize) -> (r: Vec<usize>)
    requires
        1 <= size <= SIZE_LIMIT,
        costs@.len() == size,
        forall|i: int| 0 <= i < size ==> #[trigger] costs@[i]@.len() == size,
        forall|i: int, j: int|
            0 <= i < size && 0 <= j < size ==> -COST_LIMIT <= #[trigger] costs@[i]@[j]
                <= COST_LIMIT,
    ensures
        is_optimal_assignment(
            matrix_model(costs@),
            r@.map_values(|x: usize| x as int),
            size as int,
        ),
        r@.len() == size,
{
    let matrix = pathfinding::matrix::Matrix::from_rows(costs.clone()).unwrap();
    let (_, assignment) = pathfinding::kuhn_munkres::kuhn_munkres(&matrix);
    assignment
}

/// A worker/task cost matrix, padded to square form.
pub struct AssignmentProblem {
    /// Square cost matrix of `size` rows of `size` entries; rows beyond
    /// `number_of_tasks` and columns beyond `number_of_workers` are padding
    /// and hold zero.
    pub costs: Vec<Vec<i64>>,
    /// Padded dimension: the larger of tasks and workers.
    pub size: usize,
    pub number_of_workers: usize,
    pub number_of_tasks: usize,
}

impl AssignmentProblem {
    pub open spec fn wf(&self) -> bool {
        &&& self.size <= SIZE_LIMIT
        &&& self.number_of_tasks <= self.size
        &&& self.number_of_workers <= self.size
        &&& (self.size == self.number_of_tasks || self.size == self.number_of_workers)
        &&& self.costs@.len() == self.size
        &&& forall|i: int| 0 <= i < self.size ==> #[trigger] self.costs@[i]@.len() == self.size
        &&& forall|i: int, j: int|
            0 <= i < self.size && 0 <= j < self.size ==> -COST_LIMIT <= #[trigger] self.costs@[i]@[j]
                <= COST_LIMIT
        &&& forall|i: int, j: int|
            0 <= i < self.size && 0 <= j < self.size && (i >= self.number_of_tasks || j
                >= self.number_of_workers) ==> #[trigger] self.costs@[i]@[j] == 0
    }

    /// Builds the padded square problem from a rectangular cost matrix with
    /// one row per task and one column per worker.
    pub fn from_costs(costs: Vec<Vec<i64>>) -> (r: AssignmentProblem)
        requires
            costs@.len() <= SIZE_LIMIT,
            forall|i: int|
                0 <= i < costs@.len() ==> #[trigger] costs@[i]@.len() == costs@[0]@.len(),
            costs@.len() > 0 ==> costs@[0]@.len() <= SIZE_LIMIT,
            forall|i: int, j: int|
                0 <= i < costs@.len() && 0 <= j < costs@[i]@.len() ==> -COST_LIMIT
                    <= #[trigger] costs@[i]@[j] <= COST_LIMIT,
        ensures
            r.wf(),
            r.number_of_tasks == costs@.len(),
            costs@.len() > 0 ==> r.number_of_workers == costs@[0]@.len(),
            costs@.len() == 0 ==> r.number_of_workers == 0,
            forall|i: int, j: int|
                0 <= i < costs@.len() && 0 <= j < costs@[i]@.len() ==> #[trigger] r.costs@[i]@[j]
                    == costs@[i]@[j],
    {
        let number_of_tasks = costs.len();
        let number_of_workers = if number_of_tasks == 0 {
            0
        } else {
            costs[0].len()
        };
        let size = if number_of_tasks < number_of_workers {
            number_of_workers
        } else {
            number_of_tasks
        };
        let mut padded: Vec<Vec<i64>> = Vec::new();
        let mut r: usize = 0;
        while r < size
            invariant
                r <= size,
                number_of_tasks == costs@.len(),
                number_of_workers == (if number_of_tasks == 0 {
                    0int
                } else {
                    costs@[0]@.len() as int
                }),
                size == (if number_of_tasks < number_of_workers {
                    number_of_workers
                } else {
                    number_of_tasks
                }),
                forall|i: int|
                    0 <= i < costs@.len() ==> #[trigger] costs@[i]@.len() == number_of_workers,
                forall|i: int, j: int|
                    0 <= i < costs@.len() && 0 <= j < costs@[i]@.len() ==> -COST_LIMIT
                        <= #[trigger] costs@[i]@[j] <= COST_LIMIT,
                padded@.len() == r,
                forall|i: int| 0 <= i < r ==> #[trigger] padded@[i]@.len() == size,
                forall|i: int, j: int|
                    0 <= i < r && 0 <= j < size ==> #[trigger] padded@[i]@[j] == (if i
                        < number_of_tasks && j < number_of_workers {
                        costs@[i]@[j]
                    } else {
                        0i64
                    }),
            decreases size - r,
        {
            let mut row: Vec<i64> = Vec::new();
            let mut c: usize = 0;
            while c < size
                invariant
                    c <= size,
                    r < size,
                    number_of_tasks == costs@.len(),
                    number_of_workers == (if number_of_tasks == 0 {
                        0int
                    } else {
                        costs@[0]@.len() as int
                    }),
                    forall|i: int|
                        0 <= i < costs@.len() ==> #[trigger] costs@[i]@.len() == number_of_workers,
                    forall|i: int, j: int|
                        0 <= i < costs@.len() && 0 <= j < costs@[i]@.len() ==> -COST_LIMIT
                            <= #[trigger] costs@[i]@[j] <= COST_LIMIT,
                    row@.len() == c,
                    forall|j: int|
                        0 <= j < c ==> #[trigger] row@[j] == (if (r as int) < number_of_tasks && j
                            < number_of_workers {
                            costs@[r as int]@[j]
                        } else {
                            0i64
                        }),
                decreases size - c,
            {
                let v: i64 = if r < number_of_tasks && c < number_of_workers {
                    costs[r][c]
                } else {
                    0
                };
                row.push(v);
                c = c + 1;
            }
            padded.push(row);
            r = r + 1;
        }
        AssignmentProblem { costs: padded, size, number_of_workers, number_of_tasks }
    }

    /// Solves the matching: returns, for each task in order, the worker
    /// assigned to it, or `None` for a task that a maximum-weight matching
    /// of the padded matrix leaves on a padding column.
    pub fn solve(self) -> (r: Vec<Option<usize>>)
        requires
            self.wf(),
        ensures
            r@.len() == self.number_of_tasks,
            self.size > 0 ==> exists|a: Seq<int>|
                {
                    &&& #[trigger] is_optimal_assignment(
                        matrix_model(self.costs@),
                        a,
                        self.size as int,
                    )
                    &&& forall|i: int|
                        0 <= i < self.number_of_tasks ==> #[trigger] r@[i] == (if a[i] < (
                        self.number_of_workers as int) {
                            Some(a[i] as usize)
                        } else {
                            Option::<usize>::None
                        })
                },
    {
        if self.size == 0 {
            let empty: Vec<Option<usize>> = Vec::new();
            return empty;
        }
        let assignment = kuhn_munkres_square(&self.costs, self.size);
        let ghost a: Seq<int> = assignment@.map_values(|x: usize| x as int);
        let mut result: Vec<Option<usize>> = Vec::new();
        let mut i: usize = 0;
        while i < self.number_of_tasks
            invariant
                i <= self.number_of_tasks,
                self.number_of_tasks <= self.size,
                assignment@.len() == self.size,
                a == assignment@.map_values(|x: usize| x as int),
                result@.len() == i,
                forall|k: int|
                    0 <= k < i ==> #[trigger] result@[k] == (if a[k] < (
                    self.number_of_workers as int) {
                        Some(a[k] as usize)
                    } else {
                        Option::<usize>::None
                    }),
            decreases self.number_of_tasks - i,
        {
            let assigned = assignment[i];
            if assigned < self.number_of_workers {
                result.push(Some(assigned));
            } else {
                result.push(None);
            }
            i = i + 1;
        }
        result
    }
}

} // verus!
