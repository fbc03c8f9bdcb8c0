use crate::data_definition::undo_manager::DataTimestamp;
use crate::data_definition::{DataLabel, DataPoint, DataPoints};
use crate::double::Double;
use crate::local_experiments::{
    ModelInference, ModelInferenceConfig, ModelTrain, Phase, TrainError, TrainResults,
    TrainResultsModel, Trained, UnTrained,
};
use crate::status_msg::StatusMsg;
use std::marker::PhantomData;
use vstd::prelude::*;

verus! {

/// Scores each point by its mean distance to all points and calls a point an
/// anomaly when its score reaches a threshold.
#[derive(PartialEq, Debug)]
pub struct ProximityScore<State: Phase = UnTrained> {
    train_data: Option<TrainingInfo>,
    state: PhantomData<State>,
}

/// What a trained [`ProximityScore`] holds.
#[derive(PartialEq, Debug)]
pub struct TrainingInfo {
    results: TrainResults,
    predict_config: PredictConfig,
}

/// The threshold of a [`ProximityScore`], with the range of the scores that it
/// was trained to.
#[derive(PartialEq, Eq, Clone, Copy, Debug, Structural)]
pub struct PredictConfig {
    pub min_score: Double,
    pub max_score: Double,
    pub threshold: Double,
}

/// The score that a scan for the lowest ends with: it starts from `start` and
/// moves to each score in turn that is below the one it holds.
pub open spec fn lowest_from(start: Double, scores: Seq<Double>) -> Double
    decreases scores.len(),
{
    if scores.len() == 0 {
        start
    } else {
        let so_far = lowest_from(start, scores.drop_last());
        if scores.last().below(so_far) {
            scores.last()
        } else {
            so_far
        }
    }
}

/// The score that a scan for the highest ends with.
pub open spec fn highest_from(start: Double, scores: Seq<Double>) -> Double
    decreases scores.len(),
{
    if scores.len() == 0 {
        start
    } else {
        let so_far = highest_from(start, scores.drop_last());
        if so_far.below(scores.last()) {
            scores.last()
        } else {
            so_far
        }
    }
}

/// The lowest and the highest of `scores`, of which there is at least one.
pub open spec fn score_range(scores: Seq<Double>) -> (Double, Double) {
    (lowest_from(scores[0], scores), highest_from(scores[0], scores))
}

/// The range of scores is what its name says: both ends are scores, no score
/// is below the lowest, and none is above the highest. Where the first score is
/// not a number, both ends are that score.
pub proof fn lemma_score_range(scores: Seq<Double>)
    requires
        scores.len() > 0,
    ensures
        scores.contains(score_range(scores).0),
        scores.contains(score_range(scores).1),
        !scores[0].nan() ==> forall|i: int|
            0 <= i < scores.len() ==> !(#[trigger] scores[i]).below(score_range(scores).0),
        !scores[0].nan() ==> forall|i: int|
            0 <= i < scores.len() ==> !score_range(scores).1.below(#[trigger] scores[i]),
        scores[0].nan() ==> score_range(scores) == (scores[0], scores[0]),
{
    lemma_scan(scores[0], scores);
    assert(scores[0] == scores[0]);
}

proof fn lemma_scan(start: Double, scores: Seq<Double>)
    ensures
        lowest_from(start, scores) == start || scores.contains(lowest_from(start, scores)),
        highest_from(start, scores) == start || scores.contains(highest_from(start, scores)),
        start.nan() ==> lowest_from(start, scores) == start && highest_from(start, scores)
            == start,
        !start.nan() ==> !lowest_from(start, scores).nan() && !highest_from(start, scores).nan(),
        !start.nan() ==> !start.below(lowest_from(start, scores)) && !highest_from(
            start,
            scores,
        ).below(start),
        !start.nan() ==> forall|i: int|
            0 <= i < scores.len() ==> !(#[trigger] scores[i]).below(lowest_from(start, scores)),
        !start.nan() ==> forall|i: int|
            0 <= i < scores.len() ==> !highest_from(start, scores).below(#[trigger] scores[i]),
    decreases scores.len(),
{
    if scores.len() > 0 {
        let front = scores.drop_last();
        lemma_scan(start, front);
        assert(scores[scores.len() - 1] == scores.last());
        if front.contains(lowest_from(start, front)) {
            let at = choose|i: int| 0 <= i < front.len() && front[i] == lowest_from(start, front);
            assert(scores[at] == lowest_from(start, front));
        }
        if front.contains(highest_from(start, front)) {
            let at = choose|i: int| 0 <= i < front.len() && front[i] == highest_from(start, front);
            assert(scores[at] == highest_from(start, front));
        }
        if !start.nan() {
            assert forall|i: int| 0 <= i < scores.len() implies !(#[trigger] scores[i]).below(
                lowest_from(start, scores),
            ) && !highest_from(start, scores).below(scores[i]) by {
                if i < front.len() {
                    assert(scores[i] == front[i]);
                }
            }
        }
    }
}

impl TrainResults {
    /// The lowest and the highest score.
    pub fn score_range(&self) -> (r: (Double, Double))
        ensures
            r == score_range(self@.scores),
    {
        let scores = self.scores();
        let mut min_score = scores[0];
        let mut max_score = scores[0];
        let mut i: usize = 0;
        while i < scores.len()
            invariant
                i <= scores.len(),
                scores@.len() > 0,
                min_score == lowest_from(scores@[0], scores@.subrange(0, i as int)),
                max_score == highest_from(scores@[0], scores@.subrange(0, i as int)),
            decreases scores.len() - i,
        {
            let score = scores[i];
            proof {
                let after = scores@.subrange(0, i + 1);
                assert(after.drop_last() =~= scores@.subrange(0, i as int));
                assert(after.last() == score);
            }
            if min_score.gt(score) {
                min_score = score;
            }
            if max_score.lt(score) {
                max_score = score;
            }
            i += 1;
        }
        assert(scores@.subrange(0, i as int) =~= scores@);
        (min_score, max_score)
    }
}

impl PredictConfig {
    /// The settings for a model that holds `results`, with `threshold` as the
    /// score from which on a point is called an anomaly.
    pub fn new(results: &TrainResults, threshold: Double) -> (r: Self)
        ensures
            r == (PredictConfig {
                min_score: score_range(results@.scores).0,
                max_score: score_range(results@.scores).1,
                threshold,
            }),
    {
        let (min_score, max_score) = results.score_range();
        Self { min_score, max_score, threshold }
    }
}

/// The label of a point with `score` under `threshold`: an anomaly unless the
/// score is below the threshold.
pub open spec fn label_under(score: Double, threshold: Double) -> DataLabel {
    if score.below(threshold) {
        DataLabel::Normal
    } else {
        DataLabel::Anomaly
    }
}

fn config_of(train_data: &mut Option<TrainingInfo>) -> (r: &mut PredictConfig)
    requires
        old(train_data).is_some(),
    ensures
        *r == old(train_data).unwrap().predict_config,
        final(train_data).is_some(),
        final(train_data).unwrap().predict_config == *final(r),
        final(train_data).unwrap().results == old(train_data).unwrap().results,
    no_unwind
{
    match train_data {
        Some(training_info) => &mut training_info.predict_config,
        None => vstd::pervasive::unreached(),
    }
}

impl<State: Phase> ProximityScore<State> {
    #[verifier::type_invariant]
    spec fn trained_holds_results(self) -> bool {
        State::is_trained() ==> self.train_data.is_some()
    }
}

impl ProximityScore<UnTrained> {
    pub fn new() -> (r: ProximityScore<UnTrained>)
        ensures
            r.held().is_none(),
    {
        ProximityScore::<UnTrained> { train_data: None, state: PhantomData }
    }
}

impl<State: Phase> ProximityScore<State> {
    /// The training results that the model holds, if it holds any. A new model
    /// holds none.
    pub closed spec fn held(&self) -> Option<TrainResultsModel> {
        match self.train_data {
            Some(training_info) => Some(training_info.results@),
            None => None,
        }
    }
}

impl ProximityScore<Trained> {
    /// The settings that the model predicts with.
    pub closed spec fn config(&self) -> PredictConfig {
        self.train_data.unwrap().predict_config
    }

    pub fn predict_config(&self) -> (r: PredictConfig)
        ensures
            r == self.config(),
    {
        proof {
            use_type_invariant(self);
        }
        self.train_data.as_ref().unwrap().predict_config
    }
}

impl<State: Phase> ModelTrain for ProximityScore<State> {
    type TrainConfig = ();

    /// The mean distance of each point to all points, itself among them.
    type Measurements = Vec<Double>;

    /// The threshold.
    type Tuning = Double;

    type Inference = ProximityScore<Trained>;

    open spec fn scored(
        points: Seq<DataPoint>,
        measurements: Vec<Double>,
        scores: Seq<Double>,
    ) -> bool {
        scores == measurements@
    }

    open spec fn fits(points: Seq<DataPoint>, measurements: Vec<Double>) -> bool {
        measurements@.len() == points.len()
    }

    open spec fn is_fault(points: Seq<DataPoint>, measurements: Vec<Double>, e: TrainError) -> bool {
        e == (TrainError::MeanDistances {
            points: points.len() as usize,
            found: measurements@.len() as usize,
        })
    }

    fn train(
        _train_config: (),
        points: DataPoints,
        measurements: Vec<Double>,
        data_timestamp: DataTimestamp,
        _status_msg: &mut StatusMsg,
    ) -> (r: Result<TrainResults, TrainError>) {
        if points.is_empty() {
            return Err(TrainError::NoPoints);
        }
        if measurements.len() != points.len() {
            return Err(
                TrainError::MeanDistances { points: points.len(), found: measurements.len() },
            );
        }
        TrainResults::new(measurements, data_timestamp)
    }

    fn train_config_clone(&self) -> () {
    }

    fn to_inference(&self, results: TrainResults, tuning: Double) -> (r: ProximityScore<Trained>)
        ensures
            r.config() == (PredictConfig {
                min_score: score_range(results@.scores).0,
                max_score: score_range(results@.scores).1,
                threshold: tuning,
            }),
    {
        let predict_config = PredictConfig::new(&results, tuning);
        let train_data = TrainingInfo { results, predict_config };
        ProximityScore::<Trained> { train_data: Some(train_data), state: PhantomData }
    }
}

impl ModelInference for ProximityScore<Trained> {
    closed spec fn trained_on(&self) -> TrainResultsModel {
        self.train_data.unwrap().results@
    }

    open spec fn predicted(&self, index: int) -> DataLabel {
        label_under(self.trained_on().scores[index], self.config().threshold)
    }

    fn data_timestamp_at_training(&self) -> (r: DataTimestamp) {
        proof {
            use_type_invariant(self);
        }
        self.train_data.as_ref().unwrap().results.data_timestamp_at_start()
    }

    fn trained_len(&self) -> (r: usize) {
        proof {
            use_type_invariant(self);
        }
        self.train_data.as_ref().unwrap().results.scores().len()
    }

    fn prediction_on_training_data(&self, index: usize) -> (r: DataLabel) {
        proof {
            use_type_invariant(self);
        }
        let training_info = self.train_data.as_ref().unwrap();
        let scores = training_info.results.scores();
        let threshold = training_info.predict_config.threshold;
        if scores[index].lt(threshold) {
            DataLabel::Normal
        } else {
            DataLabel::Anomaly
        }
    }

    fn score_for_training_data(&self, index: usize) -> (r: Double) {
        proof {
            use_type_invariant(self);
        }
        let training_info = self.train_data.as_ref().unwrap();
        training_info.results.scores()[index]
    }
}

impl ModelInferenceConfig for ProximityScore<Trained> {
    type PredictConfig = PredictConfig;

    open spec fn predict_config(&self) -> PredictConfig {
        self.config()
    }

    fn predict_config_mut(&mut self) -> (r: &mut PredictConfig) {
        proof {
            use_type_invariant(&*self);
        }
        config_of(&mut self.train_data)
    }
}

} // verus!
