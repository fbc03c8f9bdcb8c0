use crate::data_definition::{Coordinate, DataPoint, PointArray};
use crate::double::Double;
use vstd::prelude::*;

verus! {

/// What has a place in the plane.
pub trait DistanceCalculation {
    spec fn place(&self) -> PointArray;

    /// The two coordinates of the place.
    fn to_array(&self) -> (r: PointArray)
        ensures
            r == self.place(),
    ;
}

impl DistanceCalculation for DataPoint {
    open spec fn place(&self) -> PointArray {
        [self.x0, self.x1]
    }

    fn to_array(&self) -> (r: PointArray) {
        [self.x0, self.x1]
    }
}

impl DistanceCalculation for Coordinate {
    open spec fn place(&self) -> PointArray {
        [self.x, self.y]
    }

    fn to_array(&self) -> (r: PointArray) {
        [self.x, self.y]
    }
}

/// Why distances that were handed over do not fit the points.
#[derive(PartialEq, Eq, Clone, Copy, Debug, Structural)]
pub enum ShapeError {
    /// There are `found` rows for `expected` points.
    Rows { expected: usize, found: usize },
    /// Row `row` holds `found` distances where `expected` belong.
    Row { row: usize, expected: usize, found: usize },
}

/// The rows of a matrix as sequences.
pub open spec fn rows_of(matrix: Seq<Vec<Double>>) -> Seq<Seq<Double>> {
    matrix.map_values(|row: Vec<Double>| row@)
}

/// Whether `forward` has the shape that belongs to `n` points: a row for each
/// point, and in row `i` a distance to each of the points after point `i`.
pub open spec fn has_forward_shape(forward: Seq<Seq<Double>>, n: int) -> bool {
    &&& forward.len() == n
    &&& forall|i: int| 0 <= i < n ==> (#[trigger] forward[i]).len() == n - 1 - i
}

/// Whether `e` names what keeps `forward` from having the shape that belongs to
/// `n` points: a wrong number of rows, or else the first row of a wrong length.
pub open spec fn is_shape_fault(forward: Seq<Seq<Double>>, n: int, e: ShapeError) -> bool {
    match e {
        ShapeError::Rows { expected, found } => {
            &&& forward.len() != n
            &&& expected == n
            &&& found == forward.len()
        },
        ShapeError::Row { row, expected, found } => {
            &&& forward.len() == n
            &&& row < n
            &&& forall|k: int| 0 <= k < row ==> (#[trigger] forward[k]).len() == n - 1 - k
            &&& expected == n - 1 - row
            &&& found == forward[row as int].len()
            &&& found != expected
        },
    }
}

/// The distance between points `i` and `j` as `forward` gives it: nothing from
/// a point to itself, and the same in both directions.
pub open spec fn mirrored(forward: Seq<Seq<Double>>, i: int, j: int) -> Double {
    if i == j {
        Double::spec_zero()
    } else if i < j {
        forward[i][j - i - 1]
    } else {
        forward[j][i - j - 1]
    }
}

/// Whether `matrix` holds, for `n` points, the distance between any two of
/// them as `forward` gives it.
pub open spec fn is_mirror_of(matrix: Seq<Seq<Double>>, forward: Seq<Seq<Double>>, n: int) -> bool {
    &&& matrix.len() == n
    &&& forall|i: int| 0 <= i < n ==> (#[trigger] matrix[i]).len() == n
    &&& forall|i: int, j: int|
        0 <= i < n && 0 <= j < n ==> #[trigger] matrix[i][j] == mirrored(forward, i, j)
}

/// Whether `matrix` is square with `n` rows, the same across its diagonal, and
/// zero on it.
pub open spec fn is_distance_matrix(matrix: Seq<Seq<Double>>, n: int) -> bool {
    &&& matrix.len() == n
    &&& forall|i: int| 0 <= i < n ==> (#[trigger] matrix[i]).len() == n
    &&& forall|i: int| 0 <= i < n ==> (#[trigger] matrix[i])[i] == Double::spec_zero()
    &&& forall|i: int, j: int| 0 <= i < n && 0 <= j < n ==> #[trigger] matrix[i][j] == matrix[j][i]
}

/// The distance from a point to itself is zero, and the distance between two
/// points is the same in both directions.
pub proof fn lemma_pairwise_distances_symmetric(
    matrix: Seq<Seq<Double>>,
    forward: Seq<Seq<Double>>,
    n: int,
)
    requires
        is_mirror_of(matrix, forward, n),
    ensures
        is_distance_matrix(matrix, n),
{
    assert forall|i: int| 0 <= i < n implies (#[trigger] matrix[i])[i] == Double::spec_zero() by {
        assert(matrix[i][i] == mirrored(forward, i, i));
    }
    assert forall|i: int, j: int| 0 <= i < n && 0 <= j < n implies #[trigger] matrix[i][j]
        == matrix[j][i] by {
        assert(matrix[j][i] == mirrored(forward, j, i));
    }
}

/// A collection of points between which distances are taken.
pub trait DistanceCalculations {
    spec fn count(&self) -> nat;

    /// The matrix of the distances between every two points: entry `[i][j]` is
    /// the distance between points `i` and `j`. `forward[i]` holds the
    /// distances from point `i` to each point after it, in their order; the
    /// matrix has them in both directions, and zero on its diagonal.
    fn pairwise_distances(&self, forward: &Vec<Vec<Double>>) -> (r: Result<
        Vec<Vec<Double>>,
        ShapeError,
    >)
        ensures
            match r {
                Ok(matrix) => {
                    &&& has_forward_shape(rows_of(forward@), self.count() as int)
                    &&& is_mirror_of(rows_of(matrix@), rows_of(forward@), self.count() as int)
                    &&& is_distance_matrix(rows_of(matrix@), self.count() as int)
                },
                Err(e) => is_shape_fault(rows_of(forward@), self.count() as int, e),
            },
    ;
}

impl DistanceCalculations for Vec<DataPoint> {
    open spec fn count(&self) -> nat {
        self@.len()
    }

    fn pairwise_distances(&self, forward: &Vec<Vec<Double>>) -> (r: Result<
        Vec<Vec<Double>>,
        ShapeError,
    >) {
        let n = self.len();
        if forward.len() != n {
            return Err(ShapeError::Rows { expected: n, found: forward.len() });
        }
        let ghost given = rows_of(forward@);
        let mut row: usize = 0;
        while row < n
            invariant
                row <= n,
                n == self@.len(),
                forward@.len() == n,
                given == rows_of(forward@),
                forall|k: int| 0 <= k < row ==> (#[trigger] given[k]).len() == n - 1 - k,
            decreases n - row,
        {
            let found = forward[row].len();
            if found != n - 1 - row {
                return Err(ShapeError::Row { row, expected: n - 1 - row, found });
            }
            row += 1;
        }
        let mut result: Vec<Vec<Double>> = Vec::new();
        let mut first: usize = 0;
        while first < n
            invariant
                first <= n,
                n == self@.len(),
                forward@.len() == n,
                given == rows_of(forward@),
                forall|k: int| 0 <= k < n ==> (#[trigger] given[k]).len() == n - 1 - k,
                result@.len() == first,
                forall|i: int| 0 <= i < first ==> (#[trigger] result@[i])@.len() == n,
                forall|i: int, j: int|
                    0 <= i < first && 0 <= j < n ==> #[trigger] result@[i]@[j] == mirrored(
                        given,
                        i,
                        j,
                    ),
            decreases n - first,
        {
            let mut distances: Vec<Double> = Vec::new();
            let mut second: usize = 0;
            while second < n
                invariant
                    first < n,
                    second <= n,
                    n == self@.len(),
                    forward@.len() == n,
                    given == rows_of(forward@),
                    forall|k: int| 0 <= k < n ==> (#[trigger] given[k]).len() == n - 1 - k,
                    distances@.len() == second,
                    forall|j: int|
                        0 <= j < second ==> #[trigger] distances@[j] == mirrored(
                            given,
                            first as int,
                            j,
                        ),
                decreases n - second,
            {
                let distance = if first == second {
                    Double::zero()
                } else if first < second {
                    assert(given[first as int].len() == n - 1 - first);
                    forward[first][second - first - 1]
                } else {
                    assert(given[second as int].len() == n - 1 - second);
                    forward[second][first - second - 1]
                };
                distances.push(distance);
                second += 1;
            }
            result.push(distances);
            first += 1;
        }
        proof {
            let matrix = rows_of(result@);
            assert(is_mirror_of(matrix, given, n as int));
            lemma_pairwise_distances_symmetric(matrix, given, n as int);
        }
        Ok(result)
    }
}

} // verus!
