use crate::data_definition::distance::ShapeError;
use crate::data_definition::model::StoreModel;
use crate::data_definition::undo_manager::{DataTimestamp, EventModel};
use crate::local_experiments::proximity_score::ProximityScore;
use crate::local_experiments::singlemax::SingleMax;
use crate::data_definition::{DataLabel, DataPoints};
use crate::double::Double;
use crate::status_msg::StatusMsg;
use vstd::prelude::*;

pub mod proximity_score;
pub mod singlemax;

verus! {

pub type Scores = Vec<Double>;

/// Why a model could not be trained.
#[derive(PartialEq, Eq, Clone, Copy, Debug, Structural)]
pub enum TrainError {
    /// The snapshot holds no points.
    NoPoints,
    /// `found` mean distances were handed over for `points` points.
    MeanDistances { points: usize, found: usize },
    /// The distances that were handed over do not fit the points.
    Distances(ShapeError),
}

/// What a training run gives: a score for each point of the snapshot, in the
/// order of the points, and the version of the data that the snapshot was
/// taken at. There is at least one score.
#[derive(PartialEq, Debug)]
pub struct TrainResults {
    scores: Scores,
    data_timestamp_at_start: DataTimestamp,
}

/// What [`TrainResults`] hold.
pub struct TrainResultsModel {
    pub scores: Seq<Double>,
    pub data_timestamp_at_start: DataTimestamp,
}

impl View for TrainResults {
    type V = TrainResultsModel;

    closed spec fn view(&self) -> TrainResultsModel {
        TrainResultsModel {
            scores: self.scores@,
            data_timestamp_at_start: self.data_timestamp_at_start,
        }
    }
}

impl TrainResults {
    #[verifier::type_invariant]
    spec fn has_scores(self) -> bool {
        self.scores@.len() > 0
    }

    /// Results that hold `scores`, which were found on the data as of
    /// `data_timestamp_at_start`. Without a score there are no results.
    pub fn new(scores: Scores, data_timestamp_at_start: DataTimestamp) -> (r: Result<
        TrainResults,
        TrainError,
    >)
        ensures
            match r {
                Ok(results) => scores@.len() > 0 && results@ == (TrainResultsModel {
                    scores: scores@,
                    data_timestamp_at_start,
                }),
                Err(e) => scores@.len() == 0 && e == TrainError::NoPoints,
            },
    {
        if scores.len() == 0 {
            Err(TrainError::NoPoints)
        } else {
            Ok(TrainResults { scores, data_timestamp_at_start })
        }
    }

    pub fn scores(&self) -> (r: &Scores)
        ensures
            r@ == self@.scores,
            r@.len() > 0,
    {
        proof {
            use_type_invariant(self);
        }
        &self.scores
    }

    pub fn data_timestamp_at_start(&self) -> (r: DataTimestamp)
        ensures
            r == self@.data_timestamp_at_start,
    {
        self.data_timestamp_at_start
    }
}

/// Marks a model that has not seen data.
#[derive(Debug, PartialEq)]
pub struct UnTrained;

/// Marks a model that holds the results of a training run.
#[derive(Debug, PartialEq)]
pub struct Trained;

/// The two phases of a model.
pub trait Phase {
    /// Whether a model in this phase holds training results.
    spec fn is_trained() -> bool;
}

impl Phase for UnTrained {
    open spec fn is_trained() -> bool {
        false
    }
}

impl Phase for Trained {
    open spec fn is_trained() -> bool {
        true
    }
}

/// What can be trained, in either phase. Training does not touch the model: it
/// turns a snapshot of the points into results, from which
/// [`ModelTrain::to_inference`] makes a new, trained model.
pub trait ModelTrain {
    type TrainConfig;

    /// The numbers that the caller has measured on the snapshot.
    type Measurements;

    /// The numbers that the caller sets prediction up with.
    type Tuning;

    type Inference: ModelInference;

    /// Whether `scores` are the scores of `points` under `measurements`.
    spec fn scored(
        points: Seq<crate::data_definition::DataPoint>,
        measurements: Self::Measurements,
        scores: Seq<Double>,
    ) -> bool;

    /// Whether the measurements fit the points.
    spec fn fits(
        points: Seq<crate::data_definition::DataPoint>,
        measurements: Self::Measurements,
    ) -> bool;

    /// Whether `e` names what keeps the measurements from fitting the points.
    spec fn is_fault(
        points: Seq<crate::data_definition::DataPoint>,
        measurements: Self::Measurements,
        e: TrainError,
    ) -> bool;

    /// Scores the points of a snapshot that was taken at `data_timestamp`.
    /// Fails on a snapshot without points, and on measurements that do not fit
    /// the points.
    fn train(
        train_config: Self::TrainConfig,
        points: DataPoints,
        measurements: Self::Measurements,
        data_timestamp: DataTimestamp,
        status_msg: &mut StatusMsg,
    ) -> (r: Result<TrainResults, TrainError>)
        ensures
            final(status_msg)@ == old(status_msg)@,
            match r {
                Ok(results) => {
                    &&& points@.len() > 0
                    &&& Self::fits(points@, measurements)
                    &&& results@.scores.len() == points@.len()
                    &&& Self::scored(points@, measurements, results@.scores)
                    &&& results@.data_timestamp_at_start == data_timestamp
                },
                Err(e) => if points@.len() == 0 {
                    e == TrainError::NoPoints
                } else {
                    !Self::fits(points@, measurements) && Self::is_fault(points@, measurements, e)
                },
            },
    ;

    /// The configuration that training takes.
    fn train_config_clone(&self) -> Self::TrainConfig;

    /// A trained model that holds `results`.
    #[must_use]
    fn to_inference(&self, results: TrainResults, tuning: Self::Tuning) -> (r: Self::Inference)
        ensures
            r.trained_on() == results@,
    ;
}

/// What a trained model answers.
pub trait ModelInference {
    /// The results that the model was trained to.
    spec fn trained_on(&self) -> TrainResultsModel;

    /// The label that the model gives to the point at `index`.
    spec fn predicted(&self, index: int) -> DataLabel;

    /// The version of the data that the model was trained on.
    fn data_timestamp_at_training(&self) -> (r: DataTimestamp)
        ensures
            r == self.trained_on().data_timestamp_at_start,
    ;

    /// The number of points that the model was trained on.
    fn trained_len(&self) -> (r: usize)
        ensures
            r == self.trained_on().scores.len(),
            r > 0,
    ;

    /// The prediction for a point of the training data.
    fn prediction_on_training_data(&self, index: usize) -> (r: DataLabel)
        requires
            index < self.trained_on().scores.len(),
        ensures
            r == self.predicted(index as int),
    ;

    /// The score of a point of the training data.
    fn score_for_training_data(&self, index: usize) -> (r: Double)
        requires
            index < self.trained_on().scores.len(),
        ensures
            r == self.trained_on().scores[index as int],
    ;
}

/// A trained model whose way of predicting can be tuned without training it
/// again.
pub trait ModelInferenceConfig: ModelInference {
    type PredictConfig: Clone;

    spec fn predict_config(&self) -> Self::PredictConfig;

    /// The settings of prediction, for editing. The training results stay.
    fn predict_config_mut(&mut self) -> (r: &mut Self::PredictConfig)
        ensures
            *r == old(self).predict_config(),
            final(self).predict_config() == *final(r),
            final(self).trained_on() == old(self).trained_on(),
    ;
}

/// The model that the user has chosen, in the phase that it is in.
#[derive(PartialEq, Debug)]
pub enum LocalExperiment {
    /// No model is chosen.
    NoModel,
    ProximityScoreUntrained(ProximityScore<UnTrained>),
    ProximityScoreTrained(ProximityScore<Trained>),
    SingleMaxUntrained(SingleMax<UnTrained>),
    SingleMaxTrained(SingleMax<Trained>),
}

/// A trained model, whichever kind it is of.
pub enum InferenceModel<'a> {
    ProximityScore(&'a ProximityScore<Trained>),
    SingleMax(&'a SingleMax<Trained>),
}

/// How the version that a model was trained on stands to the version of the
/// data.
#[derive(PartialEq, Eq, Clone, Copy, Debug, Structural)]
pub enum Freshness {
    /// The model was trained on the data as they are.
    Current,
    /// The model was trained on an older version of the data.
    TrainedOnOlder,
    /// The model was trained on a newer version of the data.
    TrainedOnNewer,
}

/// What a finished training run hands to the model it was started for.
#[derive(PartialEq, Debug)]
pub enum TrainOutcome {
    ProximityScore { results: TrainResults, threshold: Double },
    SingleMax { results: TrainResults },
}

impl<'a> ModelInference for InferenceModel<'a> {
    open spec fn trained_on(&self) -> TrainResultsModel {
        match self {
            InferenceModel::ProximityScore(model) => model.trained_on(),
            InferenceModel::SingleMax(model) => model.trained_on(),
        }
    }

    open spec fn predicted(&self, index: int) -> DataLabel {
        match self {
            InferenceModel::ProximityScore(model) => model.predicted(index),
            InferenceModel::SingleMax(model) => model.predicted(index),
        }
    }

    fn data_timestamp_at_training(&self) -> (r: DataTimestamp) {
        match self {
            InferenceModel::ProximityScore(model) => model.data_timestamp_at_training(),
            InferenceModel::SingleMax(model) => model.data_timestamp_at_training(),
        }
    }

    fn trained_len(&self) -> (r: usize) {
        match self {
            InferenceModel::ProximityScore(model) => model.trained_len(),
            InferenceModel::SingleMax(model) => model.trained_len(),
        }
    }

    fn prediction_on_training_data(&self, index: usize) -> (r: DataLabel) {
        match self {
            InferenceModel::ProximityScore(model) => model.prediction_on_training_data(index),
            InferenceModel::SingleMax(model) => model.prediction_on_training_data(index),
        }
    }

    fn score_for_training_data(&self, index: usize) -> (r: Double) {
        match self {
            InferenceModel::ProximityScore(model) => model.score_for_training_data(index),
            InferenceModel::SingleMax(model) => model.score_for_training_data(index),
        }
    }
}

/// How a model that was trained on the version `trained_at` stands to data of
/// the version `data_timestamp`.
pub open spec fn freshness_of(trained_at: DataTimestamp, data_timestamp: DataTimestamp) -> Freshness {
    if trained_at.0 < data_timestamp.0 {
        Freshness::TrainedOnOlder
    } else if trained_at.0 > data_timestamp.0 {
        Freshness::TrainedOnNewer
    } else {
        Freshness::Current
    }
}

impl LocalExperiment {
    /// The results that the model holds, if it is trained.
    pub open spec fn trained_on(&self) -> Option<TrainResultsModel> {
        match self {
            LocalExperiment::ProximityScoreTrained(model) => Some(model.trained_on()),
            LocalExperiment::SingleMaxTrained(model) => Some(model.trained_on()),
            _ => None,
        }
    }

    /// The version of the data that the model was trained on, if it is trained.
    pub open spec fn trained_at(&self) -> Option<DataTimestamp> {
        match self.trained_on() {
            Some(results) => Some(results.data_timestamp_at_start),
            None => None,
        }
    }

    /// Whether the model may be asked about data of the version
    /// `data_timestamp`: it is trained, and on exactly that version.
    pub open spec fn serves(&self, data_timestamp: DataTimestamp) -> bool {
        self.trained_at() == Some(data_timestamp)
    }

    #[must_use]
    pub fn is_none(&self) -> (r: bool)
        ensures
            r == (self is NoModel),
    {
        matches!(self, Self::NoModel)
    }

    #[must_use]
    pub fn is_proximity_score(&self) -> (r: bool)
        ensures
            r == (self is ProximityScoreUntrained || self is ProximityScoreTrained),
    {
        matches!(self, Self::ProximityScoreUntrained(..)) || matches!(
            self,
            Self::ProximityScoreTrained(..)
        )
    }

    #[must_use]
    pub fn is_single_max(&self) -> (r: bool)
        ensures
            r == (self is SingleMaxUntrained || self is SingleMaxTrained),
    {
        matches!(self, Self::SingleMaxTrained(..)) || matches!(self, Self::SingleMaxUntrained(..))
    }

    /// The trained model, if there is one.
    pub fn model_inference(&self) -> (r: Option<InferenceModel<'_>>)
        ensures
            match r {
                Some(InferenceModel::ProximityScore(model)) => *self
                    == LocalExperiment::ProximityScoreTrained(*model),
                Some(InferenceModel::SingleMax(model)) => *self == LocalExperiment::SingleMaxTrained(
                    *model,
                ),
                None => !(self is ProximityScoreTrained) && !(self is SingleMaxTrained),
            },
    {
        match self {
            LocalExperiment::NoModel
            | LocalExperiment::ProximityScoreUntrained(_)
            | LocalExperiment::SingleMaxUntrained(_) => None,
            LocalExperiment::ProximityScoreTrained(x) => Some(InferenceModel::ProximityScore(x)),
            LocalExperiment::SingleMaxTrained(x) => Some(InferenceModel::SingleMax(x)),
        }
    }

    /// Whether the model is trained, and on the version `timestamp` of the
    /// data.
    pub fn is_at_timestamp(&self, timestamp: DataTimestamp) -> (r: bool)
        ensures
            r == self.serves(timestamp),
    {
        match self.data_timestamp_at_training() {
            Some(trained_at) => trained_at == timestamp,
            None => false,
        }
    }

    pub fn data_timestamp_at_training(&self) -> (r: Option<DataTimestamp>)
        ensures
            r == self.trained_at(),
    {
        match self {
            LocalExperiment::NoModel
            | LocalExperiment::ProximityScoreUntrained(_)
            | LocalExperiment::SingleMaxUntrained(_) => None,
            LocalExperiment::ProximityScoreTrained(x) => Some(x.data_timestamp_at_training()),
            LocalExperiment::SingleMaxTrained(x) => Some(x.data_timestamp_at_training()),
        }
    }

    /// The trained model, where it may be asked about data of the version
    /// `data_timestamp`. A model that was trained on another version is
    /// withheld.
    pub fn inference_at(&self, data_timestamp: DataTimestamp) -> (r: Option<InferenceModel<'_>>)
        ensures
            r.is_some() == self.serves(data_timestamp),
            match r {
                Some(InferenceModel::ProximityScore(model)) => *self
                    == LocalExperiment::ProximityScoreTrained(*model),
                Some(InferenceModel::SingleMax(model)) => *self == LocalExperiment::SingleMaxTrained(
                    *model,
                ),
                None => true,
            },
    {
        if !self.is_at_timestamp(data_timestamp) {
            return None;
        }
        self.model_inference()
    }

    /// How the model stands to data of the version `data_timestamp`, if it is
    /// trained.
    pub fn freshness(&self, data_timestamp: DataTimestamp) -> (r: Option<Freshness>)
        ensures
            r == (match self.trained_at() {
                Some(trained_at) => Some(freshness_of(trained_at, data_timestamp)),
                None => None,
            }),
            r == Some(Freshness::Current) <==> self.serves(data_timestamp),
    {
        match self.data_timestamp_at_training() {
            Some(trained_at) => {
                if trained_at.as_nanos() < data_timestamp.as_nanos() {
                    Some(Freshness::TrainedOnOlder)
                } else if trained_at.as_nanos() > data_timestamp.as_nanos() {
                    Some(Freshness::TrainedOnNewer)
                } else {
                    Some(Freshness::Current)
                }
            },
            None => None,
        }
    }

    pub open spec fn about(&self) -> Seq<char> {
        match self {
            LocalExperiment::NoModel => "N/A"@,
            LocalExperiment::ProximityScoreUntrained(_)
            | LocalExperiment::ProximityScoreTrained(_) => {
                "Scores are equal to the average distance to all other points"@
            },
            LocalExperiment::SingleMaxUntrained(_) | LocalExperiment::SingleMaxTrained(_) => {
                "Outlier is the single point with the largest distance to its nearest neighbour with min index on tie"@
            },
        }
    }

    /// What the chosen model does, in a sentence.
    pub fn description(&self) -> (r: &'static str)
        ensures
            r@ == self.about(),
    {
        match self {
            LocalExperiment::NoModel => "N/A",
            LocalExperiment::ProximityScoreUntrained(_)
            | LocalExperiment::ProximityScoreTrained(_) => {
                "Scores are equal to the average distance to all other points"
            },
            LocalExperiment::SingleMaxUntrained(_) | LocalExperiment::SingleMaxTrained(_) => {
                "Outlier is the single point with the largest distance to its nearest neighbour with min index on tie"
            },
        }
    }

    /// Whether `outcome` comes from a training run of the kind of model that is
    /// chosen.
    pub open spec fn takes(&self, outcome: TrainOutcome) -> bool {
        match outcome {
            TrainOutcome::ProximityScore { .. } => self is ProximityScoreUntrained
                || self is ProximityScoreTrained,
            TrainOutcome::SingleMax { .. } => self is SingleMaxUntrained || self is SingleMaxTrained,
        }
    }

    /// The results that `outcome` carries.
    pub open spec fn results_of(outcome: TrainOutcome) -> TrainResultsModel {
        match outcome {
            TrainOutcome::ProximityScore { results, .. } => results@,
            TrainOutcome::SingleMax { results } => results@,
        }
    }

    /// The chosen model, trained to what `outcome` carries. Nothing where the
    /// outcome comes from a run of another kind of model, or no model is
    /// chosen. A model that was trained before is trained anew; the old one is
    /// left as it is.
    pub fn trained(&self, outcome: TrainOutcome) -> (r: Option<LocalExperiment>)
        ensures
            r.is_some() == self.takes(outcome),
            match r {
                Some(LocalExperiment::ProximityScoreTrained(model)) => {
                    &&& outcome is ProximityScore
                    &&& model.trained_on() == Self::results_of(outcome)
                    &&& model.config().threshold == outcome->threshold
                    &&& model.config().min_score == proximity_score::score_range(
                        Self::results_of(outcome).scores,
                    ).0
                    &&& model.config().max_score == proximity_score::score_range(
                        Self::results_of(outcome).scores,
                    ).1
                },
                Some(LocalExperiment::SingleMaxTrained(model)) => {
                    &&& outcome is SingleMax
                    &&& model.trained_on() == Self::results_of(outcome)
                },
                Some(_) => false,
                None => true,
            },
    {
        match (self, outcome) {
            (
                LocalExperiment::ProximityScoreUntrained(x),
                TrainOutcome::ProximityScore { results, threshold },
            ) => Some(LocalExperiment::ProximityScoreTrained(x.to_inference(results, threshold))),
            (
                LocalExperiment::ProximityScoreTrained(x),
                TrainOutcome::ProximityScore { results, threshold },
            ) => Some(LocalExperiment::ProximityScoreTrained(x.to_inference(results, threshold))),
            (LocalExperiment::SingleMaxUntrained(x), TrainOutcome::SingleMax { results }) => Some(
                LocalExperiment::SingleMaxTrained(x.to_inference(results, ())),
            ),
            (LocalExperiment::SingleMaxTrained(x), TrainOutcome::SingleMax { results }) => Some(
                LocalExperiment::SingleMaxTrained(x.to_inference(results, ())),
            ),
            _ => None,
        }
    }
}

impl Default for LocalExperiment {
    fn default() -> (r: Self)
        ensures
            r is NoModel,
    {
        Self::NoModel
    }
}

/// A model serves the data only as long as they are of the version that it was
/// trained on.
///
/// Take a model that serves a store, and a change of another time than the
/// store's version. Once the change is recorded the model does not serve the
/// store, and no model does that serves data of another version than the
/// store's. Once the change is undone the model serves the store again, unless
/// the history is limited to one entry and the entry that gave the store its
/// version had to leave for the change.
pub proof fn lemma_model_serves_its_version_only(
    experiment: LocalExperiment,
    store: StoreModel,
    points: Seq<crate::data_definition::DataPoint>,
    event: EventModel,
    other: DataTimestamp,
)
    requires
        experiment.serves(store.timestamp()),
        event.timestamp() != store.timestamp(),
        store.history.max_history_size != Some(0u16),
    ensures
        !experiment.serves(store.changed(points, event).timestamp()),
        other != store.timestamp() ==> !experiment.serves(other),
        !(store.history.max_history_size == Some(1u16) && store.history.undo.len() == 1)
            ==> experiment.serves(store.changed(points, event).undone().timestamp()),
{
    let after = store.changed(points, event);
    let grown = store.history.undo.push(event);
    assert(grown.last() == event);
    assert(after.history.undo.len() > 0);
    assert(after.history.undo.last() == event);
    if !(store.history.max_history_size == Some(1u16) && store.history.undo.len() == 1) {
        let back = after.undone().history.undo;
        if store.history.undo.len() == 0 {
            assert(back.len() == 0);
        } else {
            assert(back.len() > 0);
            assert(back.last() == store.history.undo.last());
        }
    }
}

} // verus!
