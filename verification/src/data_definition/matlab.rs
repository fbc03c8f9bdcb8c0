use crate::data_definition::{x0s, x1s, DataLabel, DataPoint, DataPoints};
use crate::double::Double;
use vstd::prelude::*;

verus! {

/// Points as the two arrays of a matrix file: `X`, which holds the first
/// coordinate of every point and then the second coordinate of every point, and
/// `y`, which holds the number of every point's label.
#[derive(Debug, PartialEq, Eq)]
pub struct MatlabData {
    x: Vec<Double>,
    y: Vec<u8>,
}

/// What [`MatlabData`] hold.
pub struct MatlabModel {
    pub x: Seq<Double>,
    pub y: Seq<u8>,
}

/// Why arrays do not stand for points.
#[derive(Debug, PartialEq, Eq, Clone, Copy, Structural)]
pub enum MatlabError {
    /// `X` does not hold two values for each of the values in `y`.
    Size { x_len: usize, y_len: usize },
    /// The value at `index` is neither 0 nor 1.
    Label { index: usize },
}

impl View for MatlabData {
    type V = MatlabModel;

    closed spec fn view(&self) -> MatlabModel {
        MatlabModel { x: self.x@, y: self.y@ }
    }
}

/// The arrays that stand for `points`.
pub open spec fn encoded(points: Seq<DataPoint>) -> MatlabModel {
    MatlabModel {
        x: x0s(points) + x1s(points),
        y: points.map_values(|p: DataPoint| p.label.code()),
    }
}

/// Whether the arrays have the sizes that belong together.
pub open spec fn sizes_agree(arrays: MatlabModel) -> bool {
    arrays.x.len() == 2 * arrays.y.len()
}

/// The label that `code` stands for, where it is 0 or 1.
pub open spec fn label_of(code: u8) -> DataLabel {
    if code == 0 {
        DataLabel::Normal
    } else {
        DataLabel::Anomaly
    }
}

/// The points that the arrays stand for, where they stand for points: their
/// sizes agree and every label is 0 or 1.
pub open spec fn decoded(arrays: MatlabModel) -> Option<Seq<DataPoint>> {
    if sizes_agree(arrays) && forall|i: int| 0 <= i < arrays.y.len() ==> #[trigger] arrays.y[i] <= 1 {
        Some(
            Seq::new(
                arrays.y.len(),
                |i: int|
                    DataPoint {
                        x0: arrays.x[i],
                        x1: arrays.x[i + arrays.y.len()],
                        label: label_of(arrays.y[i]),
                    },
            ),
        )
    } else {
        None
    }
}

/// Whether `e` names what keeps the arrays from standing for points: sizes that
/// do not agree, or else the first label that is neither 0 nor 1.
pub open spec fn is_matlab_fault(arrays: MatlabModel, e: MatlabError) -> bool {
    match e {
        MatlabError::Size { x_len, y_len } => {
            &&& !sizes_agree(arrays)
            &&& x_len == arrays.x.len()
            &&& y_len == arrays.y.len()
        },
        MatlabError::Label { index } => {
            &&& sizes_agree(arrays)
            &&& index < arrays.y.len()
            &&& arrays.y[index as int] > 1
            &&& forall|i: int| 0 <= i < index ==> #[trigger] arrays.y[i] <= 1
        },
    }
}

/// Points that are written to arrays and read back are the same points.
pub proof fn lemma_matlab_round_trip(points: Seq<DataPoint>)
    ensures
        decoded(encoded(points)) == Some(points),
{
    let arrays = encoded(points);
    assert(arrays.x.len() == 2 * points.len());
    assert forall|i: int| 0 <= i < arrays.y.len() implies #[trigger] arrays.y[i] <= 1 by {}
    assert(decoded(arrays).unwrap() =~= points);
}

/// Whether `codes` are the labels that `values` stand for: 0 for a value that
/// `is_zero` accepts and 1 for one that `is_one` accepts.
pub open spec fn are_labels_of<T>(
    codes: Seq<u8>,
    values: Seq<T>,
    is_zero: spec_fn(T) -> bool,
    is_one: spec_fn(T) -> bool,
) -> bool {
    &&& codes.len() == values.len()
    &&& forall|i: int|
        0 <= i < values.len() ==> if is_one(#[trigger] values[i]) {
            codes[i] == 1
        } else {
            is_zero(values[i]) && codes[i] == 0
        }
}

/// Whether the value at `index` is the first that stands for no label.
pub open spec fn is_first_bad_label<T>(
    index: int,
    values: Seq<T>,
    is_zero: spec_fn(T) -> bool,
    is_one: spec_fn(T) -> bool,
) -> bool {
    &&& 0 <= index < values.len()
    &&& !is_zero(values[index]) && !is_one(values[index])
    &&& forall|i: int| 0 <= i < index ==> is_zero(#[trigger] values[i]) || is_one(values[i])
}

/// The labels that are stored as numbers of double precision: the numbers zero
/// and one stand for labels, nothing else does.
pub fn labels_from_doubles(values: &[Double]) -> (r: Result<Vec<u8>, MatlabError>)
    ensures
        match r {
            Ok(codes) => are_labels_of(
                codes@,
                values@,
                |v: Double| v.same_number(Double::spec_zero()),
                |v: Double| v.same_number(Double::spec_one()),
            ),
            Err(MatlabError::Label { index }) => is_first_bad_label(
                index as int,
                values@,
                |v: Double| v.same_number(Double::spec_zero()),
                |v: Double| v.same_number(Double::spec_one()),
            ),
            Err(_) => false,
        },
{
    let mut codes: Vec<u8> = Vec::new();
    let mut i: usize = 0;
    while i < values.len()
        invariant
            i <= values@.len(),
            are_labels_of(
                codes@,
                values@.subrange(0, i as int),
                |v: Double| v.same_number(Double::spec_zero()),
                |v: Double| v.same_number(Double::spec_one()),
            ),
        decreases values.len() - i,
    {
        let value = values[i];
        if value.num_eq(Double::one()) {
            codes.push(1u8);
        } else if value.num_eq(Double::zero()) {
            codes.push(0u8);
        } else {
            proof {
                assert forall|k: int| 0 <= k < i implies (#[trigger] values@[k]).same_number(
                    Double::spec_zero(),
                ) || values@[k].same_number(Double::spec_one()) by {
                    assert(values@.subrange(0, i as int)[k] == values@[k]);
                }
            }
            return Err(MatlabError::Label { index: i });
        }
        i += 1;
    }
    assert(values@.subrange(0, i as int) =~= values@);
    Ok(codes)
}

/// The labels that are stored as integers of 32 bits.
pub fn labels_from_i32(values: &[i32]) -> (r: Result<Vec<u8>, MatlabError>)
    ensures
        match r {
            Ok(codes) => are_labels_of(codes@, values@, |v: i32| v == 0, |v: i32| v == 1),
            Err(MatlabError::Label { index }) => is_first_bad_label(
                index as int,
                values@,
                |v: i32| v == 0,
                |v: i32| v == 1,
            ),
            Err(_) => false,
        },
{
    let mut codes: Vec<u8> = Vec::new();
    let mut i: usize = 0;
    while i < values.len()
        invariant
            i <= values@.len(),
            are_labels_of(
                codes@,
                values@.subrange(0, i as int),
                |v: i32| v == 0,
                |v: i32| v == 1,
            ),
        decreases values.len() - i,
    {
        let value = values[i];
        if value == 1 {
            codes.push(1u8);
        } else if value == 0 {
            codes.push(0u8);
        } else {
            proof {
                assert forall|k: int| 0 <= k < i implies (#[trigger] values@[k]) == 0 || values@[k]
                    == 1 by {
                    assert(values@.subrange(0, i as int)[k] == values@[k]);
                }
            }
            return Err(MatlabError::Label { index: i });
        }
        i += 1;
    }
    assert(values@.subrange(0, i as int) =~= values@);
    Ok(codes)
}

/// The labels that are stored as integers of 64 bits.
pub fn labels_from_i64(values: &[i64]) -> (r: Result<Vec<u8>, MatlabError>)
    ensures
        match r {
            Ok(codes) => are_labels_of(codes@, values@, |v: i64| v == 0, |v: i64| v == 1),
            Err(MatlabError::Label { index }) => is_first_bad_label(
                index as int,
                values@,
                |v: i64| v == 0,
                |v: i64| v == 1,
            ),
            Err(_) => false,
        },
{
    let mut codes: Vec<u8> = Vec::new();
    let mut i: usize = 0;
    while i < values.len()
        invariant
            i <= values@.len(),
            are_labels_of(
                codes@,
                values@.subrange(0, i as int),
                |v: i64| v == 0,
                |v: i64| v == 1,
            ),
        decreases values.len() - i,
    {
        let value = values[i];
        if value == 1 {
            codes.push(1u8);
        } else if value == 0 {
            codes.push(0u8);
        } else {
            proof {
                assert forall|k: int| 0 <= k < i implies (#[trigger] values@[k]) == 0 || values@[k]
                    == 1 by {
                    assert(values@.subrange(0, i as int)[k] == values@[k]);
                }
            }
            return Err(MatlabError::Label { index: i });
        }
        i += 1;
    }
    assert(values@.subrange(0, i as int) =~= values@);
    Ok(codes)
}

impl MatlabData {
    /// The arrays as they were read.
    pub fn new(x: Vec<Double>, y: Vec<u8>) -> (r: Self)
        ensures
            r@ == (MatlabModel { x: x@, y: y@ }),
    {
        Self { x, y }
    }

    /// The array `X`: its first half is the first column, its second half the
    /// second.
    pub fn x(&self) -> (r: &Vec<Double>)
        ensures
            r@ == self@.x,
    {
        &self.x
    }

    /// The array `y`.
    pub fn y(&self) -> (r: &Vec<u8>)
        ensures
            r@ == self@.y,
    {
        &self.y
    }

    /// Checks that `X` holds two values for each value in `y`.
    pub fn validate(&self) -> (r: Result<(), MatlabError>)
        ensures
            match r {
                Ok(_) => sizes_agree(self@),
                Err(MatlabError::Size { x_len, y_len }) => {
                    &&& !sizes_agree(self@)
                    &&& x_len == self@.x.len()
                    &&& y_len == self@.y.len()
                },
                Err(_) => false,
            },
    {
        let x_len = self.x.len();
        let y_len = self.y.len();
        if x_len % 2 == 0 && x_len / 2 == y_len {
            Ok(())
        } else {
            Err(MatlabError::Size { x_len, y_len })
        }
    }

    /// The arrays that stand for `points`.
    pub fn from(points: &[DataPoint]) -> (r: Self)
        ensures
            r@ == encoded(points@),
            decoded(r@) == Some(points@),
    {
        let mut x: Vec<Double> = Vec::new();
        let mut y: Vec<u8> = Vec::new();
        let mut i: usize = 0;
        while i < points.len()
            invariant
                i <= points@.len(),
                x@ == x0s(points@.subrange(0, i as int)),
                y@ == points@.subrange(0, i as int).map_values(|p: DataPoint| p.label.code()),
            decreases points.len() - i,
        {
            x.push(points[i].x0);
            y.push(points[i].label.as_int());
            i += 1;
            proof {
                let upto = points@.subrange(0, i as int);
                assert(x@ =~= x0s(upto));
                assert(y@ =~= upto.map_values(|p: DataPoint| p.label.code()));
            }
        }
        assert(points@.subrange(0, i as int) =~= points@);
        i = 0;
        while i < points.len()
            invariant
                i <= points@.len(),
                x@ == x0s(points@) + x1s(points@.subrange(0, i as int)),
                y@ == points@.map_values(|p: DataPoint| p.label.code()),
            decreases points.len() - i,
        {
            x.push(points[i].x1);
            i += 1;
            proof {
                assert(x@ =~= x0s(points@) + x1s(points@.subrange(0, i as int)));
            }
        }
        assert(points@.subrange(0, i as int) =~= points@);
        proof {
            lemma_matlab_round_trip(points@);
        }
        Self { x, y }
    }

    /// The points that the arrays stand for.
    pub fn to_points(&self) -> (r: Result<DataPoints, MatlabError>)
        ensures
            match r {
                Ok(points) => decoded(self@) == Some(points@),
                Err(e) => decoded(self@).is_none() && is_matlab_fault(self@, e),
            },
    {
        match self.validate() {
            Ok(_) => {},
            Err(e) => {
                return Err(e);
            },
        }
        let points_len = self.y.len();
        let x_len = self.x.len();
        let mut result: Vec<DataPoint> = Vec::new();
        let mut i: usize = 0;
        while i < points_len
            invariant
                i <= points_len,
                points_len == self.y@.len(),
                x_len == self.x@.len(),
                x_len == 2 * points_len,
                result@.len() == i,
                forall|k: int| 0 <= k < i ==> #[trigger] self.y@[k] <= 1,
                forall|k: int|
                    0 <= k < i ==> #[trigger] result@[k] == (DataPoint {
                        x0: self.x@[k],
                        x1: self.x@[k + points_len],
                        label: label_of(self.y@[k]),
                    }),
            decreases points_len - i,
        {
            let label = match DataLabel::try_from(self.y[i]) {
                Ok(label) => label,
                Err(_) => {
                    return Err(MatlabError::Label { index: i });
                },
            };
            result.push(DataPoint { x0: self.x[i], x1: self.x[i + points_len], label });
            i += 1;
        }
        assert(result@ =~= decoded(self@).unwrap());
        Ok(result)
    }
}

} // verus!
