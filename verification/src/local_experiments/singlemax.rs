use crate::data_definition::distance::{
    has_forward_shape, is_shape_fault, mirrored, rows_of, DistanceCalculations,
};
use crate::data_definition::undo_manager::DataTimestamp;
use crate::data_definition::{least_from, lemma_scan_bounds, DataLabel, DataPoint, DataPoints};
use crate::double::Double;
use crate::local_experiments::{
    ModelInference, ModelTrain, Phase, TrainError, TrainResults, TrainResultsModel, Trained,
    UnTrained,
};
use crate::status_msg::StatusMsg;
use std::marker::PhantomData;
use vstd::prelude::*;

verus! {

/// Scores each point by the distance to its nearest neighbour and calls the one
/// point with the greatest score an anomaly.
#[derive(PartialEq, Debug)]
pub struct SingleMax<State: Phase = UnTrained> {
    train_data: Option<TrainingInfo>,
    state: PhantomData<State>,
}

/// What a trained [`SingleMax`] holds.
#[derive(PartialEq, Debug)]
pub struct TrainingInfo {
    results: TrainResults,
    outlier: usize,
}

/// The distance from the point at `i` to the nearest of the other points, where
/// `row` holds its distance to every point. Infinity where there is no other
/// point at a distance that is a number.
pub open spec fn nearest_other(row: Seq<Double>, i: int) -> Double {
    least_from(Double::spec_infinity(), row.remove(i))
}

/// The distances from point `i` to each of `n` points as `forward` gives them.
pub open spec fn mirrored_row(forward: Seq<Seq<Double>>, n: int, i: int) -> Seq<Double> {
    Seq::new(n as nat, |j: int| mirrored(forward, i, j))
}

/// Whether `a` counts for more than `b`: a number counts for more than what is
/// not one, and the greater of two numbers for more than the lesser.
pub open spec fn outranks(a: Double, b: Double) -> bool {
    !a.nan() && (b.nan() || b.below(a))
}

/// Whether the point at `k` is the outlier: no score counts for more than its
/// score, and its score counts for more than every score before it.
pub open spec fn is_outlier(scores: Seq<Double>, k: int) -> bool {
    &&& 0 <= k < scores.len()
    &&& forall|j: int| 0 <= j < scores.len() ==> !outranks(#[trigger] scores[j], scores[k])
    &&& forall|j: int| 0 <= j < k ==> outranks(scores[k], #[trigger] scores[j])
}

/// There is one outlier and no more.
pub proof fn lemma_outlier_is_unique(scores: Seq<Double>, k: int, l: int)
    requires
        is_outlier(scores, k),
        is_outlier(scores, l),
    ensures
        k == l,
{
    if k < l {
        assert(outranks(scores[l], scores[k]));
    }
    if l < k {
        assert(outranks(scores[k], scores[l]));
    }
}

/// The distance to the nearest neighbour is a number, no distance to another
/// point is below it, and it is one of them or infinity.
pub proof fn lemma_nearest_other(row: Seq<Double>, i: int)
    requires
        0 <= i < row.len(),
    ensures
        !nearest_other(row, i).nan(),
        forall|j: int|
            0 <= j < row.len() && j != i ==> !(#[trigger] row[j]).below(nearest_other(row, i)),
        nearest_other(row, i) == Double::spec_infinity() || exists|j: int|
            0 <= j < row.len() && j != i && #[trigger] row[j] == nearest_other(row, i),
{
    let others = row.remove(i);
    lemma_scan_bounds(Double::spec_infinity(), others);
    assert forall|j: int| 0 <= j < row.len() && j != i implies !(#[trigger] row[j]).below(
        nearest_other(row, i),
    ) by {
        if j < i {
            assert(others[j] == row[j]);
        } else {
            assert(others[j - 1] == row[j]);
        }
    }
    if nearest_other(row, i) != Double::spec_infinity() {
        let at = choose|a: int| 0 <= a < others.len() && others[a] == nearest_other(row, i);
        if at < i {
            assert(row[at] == nearest_other(row, i));
        } else {
            assert(row[at + 1] == nearest_other(row, i));
        }
    }
}

/// The distance from the point at `i` to its nearest neighbour.
fn nearest_in_row(row: &Vec<Double>, i: usize) -> (r: Double)
    requires
        i < row@.len(),
    ensures
        r == nearest_other(row@, i as int),
{
    let mut nearest = Double::infinity();
    let mut j: usize = 0;
    while j < i
        invariant
            j <= i,
            i < row@.len(),
            nearest == least_from(Double::spec_infinity(), row@.subrange(0, j as int)),
        decreases i - j,
    {
        proof {
            let after = row@.subrange(0, j + 1);
            assert(after.drop_last() =~= row@.subrange(0, j as int));
            assert(after.last() == row@[j as int]);
        }
        nearest = row[j].min(nearest);
        j += 1;
    }
    assert(i < row.len());
    j = i + 1;
    while j < row.len()
        invariant
            i < j <= row@.len(),
            nearest == least_from(
                Double::spec_infinity(),
                row@.subrange(0, i as int) + row@.subrange(i + 1, j as int),
            ),
        decreases row.len() - j,
    {
        proof {
            let before = row@.subrange(0, i as int) + row@.subrange(i + 1, j as int);
            let after = row@.subrange(0, i as int) + row@.subrange(i + 1, j + 1);
            assert(after.drop_last() =~= before);
            assert(after.last() == row@[j as int]);
        }
        nearest = row[j].min(nearest);
        j += 1;
    }
    assert(row@.subrange(0, i as int) + row@.subrange(i + 1, j as int) =~= row@.remove(i as int));
    nearest
}

/// The index of the outlier among `scores`, of which there is at least one.
fn find_outlier(scores: &Vec<Double>) -> (r: usize)
    requires
        scores@.len() > 0,
    ensures
        is_outlier(scores@, r as int),
{
    let mut best: usize = 0;
    let mut j: usize = 1;
    while j < scores.len()
        invariant
            1 <= j <= scores@.len(),
            best < j,
            forall|k: int| 0 <= k < j ==> !outranks(#[trigger] scores@[k], scores@[best as int]),
            forall|k: int| 0 <= k < best ==> outranks(scores@[best as int], #[trigger] scores@[k]),
        decreases scores.len() - j,
    {
        let candidate = scores[j];
        let holder = scores[best];
        if !candidate.is_nan() && (holder.is_nan() || holder.lt(candidate)) {
            best = j;
        }
        j += 1;
    }
    best
}

impl<State: Phase> SingleMax<State> {
    #[verifier::type_invariant]
    spec fn trained_holds_results(self) -> bool {
        State::is_trained() ==> self.train_data.is_some() && is_outlier(
            self.train_data.unwrap().results@.scores,
            self.train_data.unwrap().outlier as int,
        )
    }
}

impl SingleMax<UnTrained> {
    pub fn new() -> (r: SingleMax<UnTrained>)
        ensures
            r.held().is_none(),
    {
        SingleMax::<UnTrained> { train_data: None, state: PhantomData }
    }
}

impl<State: Phase> SingleMax<State> {
    /// The training results that the model holds, if it holds any. A new model
    /// holds none.
    pub closed spec fn held(&self) -> Option<TrainResultsModel> {
        match self.train_data {
            Some(training_info) => Some(training_info.results@),
            None => None,
        }
    }
}

impl SingleMax<Trained> {
    /// The index of the point that the model calls an anomaly.
    pub closed spec fn outlier_index(&self) -> int {
        self.train_data.unwrap().outlier as int
    }

    /// The index of the one point that the model calls an anomaly.
    pub fn outlier(&self) -> (r: usize)
        ensures
            r == self.outlier_index(),
            is_outlier(self.trained_on().scores, r as int),
    {
        proof {
            use_type_invariant(self);
        }
        self.train_data.as_ref().unwrap().outlier
    }
}

impl<State: Phase> ModelTrain for SingleMax<State> {
    type TrainConfig = ();

    /// For each point, the distance to each point after it, in their order.
    type Measurements = Vec<Vec<Double>>;

    type Tuning = ();

    type Inference = SingleMax<Trained>;

    open spec fn scored(
        points: Seq<DataPoint>,
        measurements: Vec<Vec<Double>>,
        scores: Seq<Double>,
    ) -> bool {
        forall|i: int|
            0 <= i < points.len() ==> #[trigger] scores[i] == nearest_other(
                mirrored_row(rows_of(measurements@), points.len() as int, i),
                i,
            )
    }

    open spec fn fits(points: Seq<DataPoint>, measurements: Vec<Vec<Double>>) -> bool {
        has_forward_shape(rows_of(measurements@), points.len() as int)
    }

    open spec fn is_fault(
        points: Seq<DataPoint>,
        measurements: Vec<Vec<Double>>,
        e: TrainError,
    ) -> bool {
        match e {
            TrainError::Distances(shape) => is_shape_fault(
                rows_of(measurements@),
                points.len() as int,
                shape,
            ),
            _ => false,
        }
    }

    fn train(
        _train_config: (),
        points: DataPoints,
        measurements: Vec<Vec<Double>>,
        data_timestamp: DataTimestamp,
        _status_msg: &mut StatusMsg,
    ) -> (r: Result<TrainResults, TrainError>) {
        if points.is_empty() {
            return Err(TrainError::NoPoints);
        }
        let pairwise_distances = match points.pairwise_distances(&measurements) {
            Ok(matrix) => matrix,
            Err(e) => {
                return Err(TrainError::Distances(e));
            },
        };
        let n = points.len();
        let ghost forward = rows_of(measurements@);
        let mut scores: Vec<Double> = Vec::new();
        let mut i: usize = 0;
        while i < n
            invariant
                i <= n,
                n == points@.len(),
                forward == rows_of(measurements@),
                crate::data_definition::distance::is_mirror_of(
                    rows_of(pairwise_distances@),
                    forward,
                    n as int,
                ),
                scores@.len() == i,
                forall|k: int|
                    0 <= k < i ==> #[trigger] scores@[k] == nearest_other(
                        mirrored_row(forward, n as int, k),
                        k,
                    ),
            decreases n - i,
        {
            proof {
                let row = rows_of(pairwise_distances@)[i as int];
                assert(row.len() == n);
                assert forall|j: int| 0 <= j < n implies row[j] == mirrored(forward, i as int, j) by {
                    assert(rows_of(pairwise_distances@)[i as int][j] == mirrored(
                        forward,
                        i as int,
                        j,
                    ));
                }
                assert(row =~= mirrored_row(forward, n as int, i as int));
            }
            let score = nearest_in_row(&pairwise_distances[i], i);
            scores.push(score);
            i += 1;
        }
        TrainResults::new(scores, data_timestamp)
    }

    fn train_config_clone(&self) -> () {
    }

    fn to_inference(&self, results: TrainResults, _tuning: ()) -> (r: SingleMax<Trained>) {
        let outlier = find_outlier(results.scores());
        let train_data = TrainingInfo { results, outlier };
        SingleMax::<Trained> { train_data: Some(train_data), state: PhantomData }
    }
}

impl ModelInference for SingleMax<Trained> {
    closed spec fn trained_on(&self) -> TrainResultsModel {
        self.train_data.unwrap().results@
    }

    open spec fn predicted(&self, index: int) -> DataLabel {
        if is_outlier(self.trained_on().scores, index) {
            DataLabel::Anomaly
        } else {
            DataLabel::Normal
        }
    }

    fn data_timestamp_at_training(&self) -> (r: DataTimestamp) {
        proof {
            use_type_invariant(self);
        }
        self.train_data.as_ref().unwrap().results.data_timestamp_at_start()
    }

    fn trained_len(&self) -> (r: usize) {
        proof {
            use_type_invariant(self);
        }
        self.train_data.as_ref().unwrap().results.scores().len()
    }

    fn prediction_on_training_data(&self, index: usize) -> (r: DataLabel) {
        proof {
            use_type_invariant(self);
        }
        let training_info = self.train_data.as_ref().unwrap();
        proof {
            if is_outlier(self.trained_on().scores, index as int) {
                lemma_outlier_is_unique(
                    self.trained_on().scores,
                    index as int,
                    training_info.outlier as int,
                );
            }
        }
        if index == training_info.outlier {
            DataLabel::Anomaly
        } else {
            DataLabel::Normal
        }
    }

    fn score_for_training_data(&self, index: usize) -> (r: Double) {
        proof {
            use_type_invariant(self);
        }
        let training_info = self.train_data.as_ref().unwrap();
        training_info.results.scores()[index]
    }
}

} // verus!
