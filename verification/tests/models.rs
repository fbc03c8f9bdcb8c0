use dbv::data_definition::distance::{DistanceCalculation, DistanceCalculations, ShapeError};
use dbv::data_definition::undo_manager::DataTimestamp;
use dbv::data_definition::{Coordinate, Data, DataLabel, DataPoint, DataPoints};
use dbv::double::Double;
use dbv::local_experiments::proximity_score::{PredictConfig, ProximityScore};
use dbv::local_experiments::singlemax::SingleMax;
use dbv::local_experiments::{
    Freshness, InferenceModel, LocalExperiment, ModelInference, ModelInferenceConfig, ModelTrain,
    TrainError, TrainOutcome, TrainResults, Trained, UnTrained,
};
use dbv::prediction_classification::{
    classify_points, prediction_classification, Classification,
};
use dbv::status_msg::StatusMsg;

fn d(x: f64) -> Double {
    Double::from_bits(x.to_bits())
}

fn f(x: Double) -> f64 {
    f64::from_bits(x.to_bits())
}

/// Rounding that leaves every place as it is.
fn keep(at: Coordinate, _places: u8) -> Coordinate {
    at
}

fn t(nanos: u128) -> DataTimestamp {
    DataTimestamp::from_nanos(nanos)
}

fn points_at(places: &[(f64, f64)]) -> DataPoints {
    places.iter().map(|&(x0, x1)| DataPoint::new(d(x0), d(x1), DataLabel::Normal)).collect()
}

fn distance(p: &DataPoint, q: &DataPoint) -> f64 {
    let [p0, p1] = p.to_array();
    let [q0, q1] = q.to_array();
    let diff0 = f(p0) - f(q0);
    let diff1 = f(p1) - f(q1);
    ((diff0 * diff0) + (diff1 * diff1)).sqrt()
}

/// For each point, the distance to each point after it.
fn forward_distances(points: &DataPoints) -> Vec<Vec<Double>> {
    (0..points.len())
        .map(|first| {
            ((first + 1)..points.len())
                .map(|second| d(distance(&points[first], &points[second])))
                .collect()
        })
        .collect()
}

fn mean_distances(points: &DataPoints) -> Vec<Double> {
    let matrix = points.pairwise_distances(&forward_distances(points)).unwrap();
    let n = points.len() as f64;
    matrix.into_iter().map(|row| d(row.into_iter().map(f).sum::<f64>() / n)).collect()
}

fn threshold_for(results: &TrainResults) -> Double {
    let (min_score, max_score) = results.score_range();
    d(0.75 * f(max_score) + 0.25 * f(min_score))
}

fn trained_proximity(points: &DataPoints, at: DataTimestamp) -> ProximityScore<Trained> {
    let mut status = StatusMsg::default();
    let results =
        ProximityScore::<UnTrained>::train((), points.clone(), mean_distances(points), at, &mut status)
            .unwrap();
    let threshold = threshold_for(&results);
    ProximityScore::new().to_inference(results, threshold)
}

fn trained_single_max(points: &DataPoints, at: DataTimestamp) -> SingleMax<Trained> {
    let mut status = StatusMsg::default();
    let results =
        SingleMax::<UnTrained>::train((), points.clone(), forward_distances(points), at, &mut status)
            .unwrap();
    SingleMax::new().to_inference(results, ())
}

#[test]
fn pairwise_distances_are_symmetric_with_a_zero_diagonal() {
    let points = points_at(&[(0.0, 0.0), (3.0, 4.0), (-1.0, 1.0), (6.0, 8.0)]);
    let matrix = points.pairwise_distances(&forward_distances(&points)).unwrap();
    assert_eq!(matrix.len(), 4);
    for i in 0..4 {
        assert_eq!(matrix[i].len(), 4);
        assert_eq!(matrix[i][i], d(0.0));
        for j in 0..4 {
            assert_eq!(matrix[i][j], matrix[j][i]);
        }
    }
    assert_eq!(matrix[0][1], d(5.0));
    assert_eq!(matrix[1][0], d(5.0));
    assert_eq!(matrix[0][3], d(10.0));
    assert_eq!(matrix[1][3], d(5.0));
}

#[test]
fn pairwise_distances_of_no_points_and_of_one() {
    let none: DataPoints = vec![];
    assert_eq!(none.pairwise_distances(&vec![]), Ok(vec![]));
    let one = points_at(&[(1.0, 1.0)]);
    assert_eq!(one.pairwise_distances(&vec![vec![]]), Ok(vec![vec![d(0.0)]]));
}

#[test]
fn distances_of_the_wrong_shape_are_refused() {
    let points = points_at(&[(0.0, 0.0), (1.0, 0.0), (2.0, 0.0)]);
    assert_eq!(
        points.pairwise_distances(&vec![vec![d(1.0), d(2.0)], vec![d(1.0)]]),
        Err(ShapeError::Rows { expected: 3, found: 2 })
    );
    assert_eq!(
        points.pairwise_distances(&vec![vec![d(1.0), d(2.0)], vec![], vec![]]),
        Err(ShapeError::Row { row: 1, expected: 1, found: 0 })
    );
    assert_eq!(
        points.pairwise_distances(&vec![vec![d(1.0), d(2.0)], vec![d(1.0)], vec![d(0.0)]]),
        Err(ShapeError::Row { row: 2, expected: 0, found: 1 })
    );
}

#[test]
fn places_of_points_and_coordinates() {
    assert_eq!(DataPoint::new(d(1.0), d(2.0), DataLabel::Anomaly).to_array(), [d(1.0), d(2.0)]);
    assert_eq!(
        DistanceCalculation::to_array(&Coordinate { x: d(-1.0), y: d(0.5) }),
        [d(-1.0), d(0.5)]
    );
}

#[test]
fn average_distance_of_two_points() {
    let points = vec![
        DataPoint::new(d(0.0), d(0.0), DataLabel::Normal),
        DataPoint::new(d(10.0), d(0.0), DataLabel::Normal),
    ];
    let model = trained_proximity(&points, t(7));
    assert_eq!(model.score_for_training_data(0), d(5.0));
    assert_eq!(model.score_for_training_data(1), d(5.0));
    assert_eq!(
        model.predict_config(),
        PredictConfig { min_score: d(5.0), max_score: d(5.0), threshold: d(5.0) }
    );
    assert_eq!(model.prediction_on_training_data(0), DataLabel::Anomaly);
    assert_eq!(model.prediction_on_training_data(1), DataLabel::Anomaly);
    assert_eq!(model.data_timestamp_at_training(), t(7));
    assert_eq!(model.trained_len(), 2);
}

#[test]
fn average_distance_threshold_lies_three_quarters_up_the_range() {
    let points = points_at(&[(0.0, 0.0), (1.0, 0.0), (2.0, 0.0), (12.0, 0.0)]);
    let model = trained_proximity(&points, t(1));
    let scores: Vec<f64> = (0..4).map(|i| f(model.score_for_training_data(i))).collect();
    assert_eq!(scores, vec![3.75, 3.25, 3.25, 8.25]);
    let config = model.predict_config();
    assert_eq!(config.min_score, d(3.25));
    assert_eq!(config.max_score, d(8.25));
    assert_eq!(config.threshold, d(7.0));
    let labels: Vec<DataLabel> = (0..4).map(|i| model.prediction_on_training_data(i)).collect();
    assert_eq!(
        labels,
        vec![DataLabel::Normal, DataLabel::Normal, DataLabel::Normal, DataLabel::Anomaly]
    );
}

#[test]
fn the_threshold_is_tuned_without_training_again() {
    let points = points_at(&[(0.0, 0.0), (1.0, 0.0), (2.0, 0.0), (12.0, 0.0)]);
    let mut model = trained_proximity(&points, t(1));
    model.predict_config_mut().threshold = d(3.5);
    assert_eq!(model.predict_config().threshold, d(3.5));
    assert_eq!(model.predict_config().min_score, d(3.25));
    let labels: Vec<DataLabel> = (0..4).map(|i| model.prediction_on_training_data(i)).collect();
    assert_eq!(
        labels,
        vec![DataLabel::Anomaly, DataLabel::Normal, DataLabel::Normal, DataLabel::Anomaly]
    );
    assert_eq!(model.score_for_training_data(3), d(8.25));
    assert_eq!(model.data_timestamp_at_training(), t(1));
    model.predict_config_mut().threshold = d(3.25);
    assert_eq!(model.prediction_on_training_data(1), DataLabel::Anomaly);
    model.predict_config_mut().threshold = d(f64::NAN);
    assert_eq!(model.prediction_on_training_data(1), DataLabel::Anomaly);
}

#[test]
fn nearest_neighbour_of_three_points_on_a_line() {
    let points = points_at(&[(0.0, 0.0), (1.0, 0.0), (10.0, 0.0)]);
    let model = trained_single_max(&points, t(3));
    let scores: Vec<Double> = (0..3).map(|i| model.score_for_training_data(i)).collect();
    assert_eq!(scores, vec![d(1.0), d(1.0), d(9.0)]);
    assert_eq!(model.outlier(), 2);
    let labels: Vec<DataLabel> = (0..3).map(|i| model.prediction_on_training_data(i)).collect();
    assert_eq!(labels, vec![DataLabel::Normal, DataLabel::Normal, DataLabel::Anomaly]);
    assert_eq!(model.data_timestamp_at_training(), t(3));
    assert_eq!(model.trained_len(), 3);
}

#[test]
fn nearest_neighbour_ties_go_to_the_lowest_index() {
    let points = points_at(&[(0.0, 0.0), (2.0, 0.0), (4.0, 0.0)]);
    let model = trained_single_max(&points, t(1));
    assert_eq!(model.outlier(), 0);
    assert_eq!(model.prediction_on_training_data(0), DataLabel::Anomaly);
    assert_eq!(model.prediction_on_training_data(1), DataLabel::Normal);
    assert_eq!(model.prediction_on_training_data(2), DataLabel::Normal);
}

#[test]
fn a_single_point_has_no_neighbour() {
    let points = points_at(&[(3.0, 3.0)]);
    let model = trained_single_max(&points, t(1));
    assert_eq!(model.score_for_training_data(0), d(f64::INFINITY));
    assert_eq!(model.outlier(), 0);
    assert_eq!(model.prediction_on_training_data(0), DataLabel::Anomaly);
}

#[test]
fn nearest_neighbour_passes_over_what_is_not_a_number() {
    let points = points_at(&[(0.0, 0.0), (1.0, 0.0), (2.0, 0.0)]);
    let forward = vec![vec![d(f64::NAN), d(7.0)], vec![d(f64::NAN)], vec![]];
    let mut status = StatusMsg::default();
    let results =
        SingleMax::<UnTrained>::train((), points, forward, t(1), &mut status).unwrap();
    assert_eq!(results.scores(), &vec![d(7.0), d(f64::INFINITY), d(7.0)]);
    let model = SingleMax::new().to_inference(results, ());
    assert_eq!(model.outlier(), 1);
}

#[test]
fn the_outlier_is_a_number_where_there_is_one() {
    let results = TrainResults::new(vec![d(f64::NAN), d(2.0), d(-f64::NAN), d(2.0)], t(1)).unwrap();
    let model = SingleMax::new().to_inference(results, ());
    assert_eq!(model.outlier(), 1);
    let results = TrainResults::new(vec![d(f64::NAN), d(-f64::NAN)], t(1)).unwrap();
    let model = SingleMax::new().to_inference(results, ());
    assert_eq!(model.outlier(), 0);
}

#[test]
fn training_fails_without_points() {
    let mut status = StatusMsg::default();
    assert_eq!(
        ProximityScore::<UnTrained>::train((), vec![], vec![], t(1), &mut status),
        Err(TrainError::NoPoints)
    );
    assert_eq!(
        ProximityScore::<Trained>::train((), vec![], vec![d(1.0)], t(1), &mut status),
        Err(TrainError::NoPoints)
    );
    assert_eq!(
        SingleMax::<UnTrained>::train((), vec![], vec![], t(1), &mut status),
        Err(TrainError::NoPoints)
    );
    assert_eq!(TrainResults::new(vec![], t(1)), Err(TrainError::NoPoints));
    assert!(status.is_empty());
}

#[test]
fn training_fails_on_measurements_that_do_not_fit() {
    let mut status = StatusMsg::default();
    let points = points_at(&[(0.0, 0.0), (1.0, 0.0)]);
    assert_eq!(
        ProximityScore::<UnTrained>::train((), points.clone(), vec![d(1.0)], t(1), &mut status),
        Err(TrainError::MeanDistances { points: 2, found: 1 })
    );
    assert_eq!(
        SingleMax::<UnTrained>::train((), points.clone(), vec![vec![d(1.0)]], t(1), &mut status),
        Err(TrainError::Distances(ShapeError::Rows { expected: 2, found: 1 }))
    );
    assert_eq!(
        SingleMax::<UnTrained>::train((), points, vec![vec![], vec![]], t(1), &mut status),
        Err(TrainError::Distances(ShapeError::Row { row: 0, expected: 1, found: 0 }))
    );
}

#[test]
fn score_range_follows_the_first_score_where_that_is_no_number() {
    let results = TrainResults::new(vec![d(3.0), d(1.0), d(f64::NAN), d(8.0)], t(1)).unwrap();
    assert_eq!(results.score_range(), (d(1.0), d(8.0)));
    let results = TrainResults::new(vec![d(f64::NAN), d(1.0), d(8.0)], t(1)).unwrap();
    assert_eq!(results.score_range(), (d(f64::NAN), d(f64::NAN)));
    assert_eq!(results.data_timestamp_at_start(), t(1));
}

#[test]
fn classification_is_the_contingency_table() {
    assert_eq!(
        prediction_classification(DataLabel::Normal, DataLabel::Normal),
        Classification::TrueNegative
    );
    assert_eq!(
        prediction_classification(DataLabel::Normal, DataLabel::Anomaly),
        Classification::FalsePositive
    );
    assert_eq!(
        prediction_classification(DataLabel::Anomaly, DataLabel::Normal),
        Classification::FalseNegative
    );
    assert_eq!(
        prediction_classification(DataLabel::Anomaly, DataLabel::Anomaly),
        Classification::TruePositive
    );
    assert_eq!(Classification::FalseNegative.as_str(), "FN");
    assert_eq!(Classification::FalsePositive.as_str(), "FP");
    assert_eq!(Classification::TrueNegative.as_str(), "TN");
    assert_eq!(Classification::TruePositive.as_str(), "TP");
}

#[test]
fn points_are_sorted_by_class_in_their_order() {
    let points = vec![
        DataPoint::new(d(0.0), d(0.0), DataLabel::Normal),
        DataPoint::new(d(1.0), d(0.0), DataLabel::Anomaly),
        DataPoint::new(d(2.0), d(0.0), DataLabel::Normal),
        DataPoint::new(d(12.0), d(0.0), DataLabel::Anomaly),
        DataPoint::new(d(13.0), d(0.0), DataLabel::Normal),
    ];
    let results =
        TrainResults::new(vec![d(1.0), d(1.0), d(2.0), d(9.0), d(9.5)], t(1)).unwrap();
    let model = ProximityScore::new().to_inference(results, d(5.0));
    let sorted = classify_points(&points, &model);
    assert_eq!(sorted.true_negatives, vec![[d(0.0), d(0.0)], [d(2.0), d(0.0)]]);
    assert_eq!(sorted.false_negatives, vec![[d(1.0), d(0.0)]]);
    assert_eq!(sorted.true_positives, vec![[d(12.0), d(0.0)]]);
    assert_eq!(sorted.false_positives, vec![[d(13.0), d(0.0)]]);
}

#[test]
fn a_model_serves_only_the_version_it_was_trained_on() {
    let mut status = StatusMsg::default();
    let mut data = Data::default();
    let at = |x: f64| Some(Coordinate { x: d(x), y: d(0.0) });
    data.add_at(at(0.0), DataLabel::Normal, &mut status, t(10), keep);
    data.add_at(at(1.0), DataLabel::Normal, &mut status, t(20), keep);
    data.add_at(at(10.0), DataLabel::Normal, &mut status, t(30), keep);
    let trained_at = data.timestamp();
    let experiment =
        LocalExperiment::SingleMaxTrained(trained_single_max(&data.clone_points(), trained_at));
    assert!(experiment.is_at_timestamp(data.timestamp()));
    assert!(experiment.inference_at(data.timestamp()).is_some());
    assert_eq!(experiment.freshness(data.timestamp()), Some(Freshness::Current));

    data.add_at(at(20.0), DataLabel::Normal, &mut status, t(40), keep);
    assert!(!experiment.is_at_timestamp(data.timestamp()));
    assert!(experiment.inference_at(data.timestamp()).is_none());
    assert_eq!(experiment.freshness(data.timestamp()), Some(Freshness::TrainedOnOlder));

    data.undo(&mut status);
    assert!(experiment.is_at_timestamp(data.timestamp()));
    let model = experiment.inference_at(data.timestamp()).unwrap();
    assert_eq!(model.prediction_on_training_data(2), DataLabel::Anomaly);
    assert_eq!(model.score_for_training_data(2), d(9.0));
    assert_eq!(model.trained_len(), 3);
    assert_eq!(model.data_timestamp_at_training(), t(30));

    data.undo(&mut status);
    assert!(experiment.inference_at(data.timestamp()).is_none());
    assert_eq!(experiment.freshness(data.timestamp()), Some(Freshness::TrainedOnNewer));
    data.redo(&mut status);
    assert!(experiment.inference_at(data.timestamp()).is_some());
}

#[test]
fn a_change_that_is_undone_under_a_history_of_one_leaves_the_model_stale() {
    let mut status = StatusMsg::default();
    let mut data = Data::default();
    data.set_history_size(Some(1));
    data.add_at(Some(Coordinate { x: d(0.0), y: d(0.0) }), DataLabel::Normal, &mut status, t(10), keep);
    let experiment =
        LocalExperiment::SingleMaxTrained(trained_single_max(&data.clone_points(), t(10)));
    assert!(experiment.is_at_timestamp(data.timestamp()));
    data.add_at(Some(Coordinate { x: d(1.0), y: d(0.0) }), DataLabel::Normal, &mut status, t(20), keep);
    data.undo(&mut status);
    assert_eq!(data.timestamp(), DataTimestamp::epoch());
    assert!(!experiment.is_at_timestamp(data.timestamp()));
}

#[test]
fn untrained_experiments_serve_nothing() {
    for experiment in [
        LocalExperiment::NoModel,
        LocalExperiment::ProximityScoreUntrained(ProximityScore::new()),
        LocalExperiment::SingleMaxUntrained(SingleMax::new()),
    ] {
        assert_eq!(experiment.data_timestamp_at_training(), None);
        assert!(!experiment.is_at_timestamp(DataTimestamp::epoch()));
        assert!(experiment.model_inference().is_none());
        assert!(experiment.inference_at(DataTimestamp::epoch()).is_none());
        assert_eq!(experiment.freshness(t(5)), None);
    }
    assert_eq!(LocalExperiment::default(), LocalExperiment::NoModel);
}

#[test]
fn experiments_know_their_kind() {
    let none = LocalExperiment::NoModel;
    let proximity = LocalExperiment::ProximityScoreUntrained(ProximityScore::new());
    let single = LocalExperiment::SingleMaxUntrained(SingleMax::new());
    assert!(none.is_none() && !none.is_proximity_score() && !none.is_single_max());
    assert!(!proximity.is_none() && proximity.is_proximity_score() && !proximity.is_single_max());
    assert!(!single.is_none() && !single.is_proximity_score() && single.is_single_max());
    assert_eq!(none.description(), "N/A");
    assert_eq!(
        proximity.description(),
        "Scores are equal to the average distance to all other points"
    );
    assert_eq!(
        single.description(),
        "Outlier is the single point with the largest distance to its nearest neighbour with min index on tie"
    );
}

#[test]
fn results_go_to_the_model_of_their_kind() {
    let results = || TrainResults::new(vec![d(1.0), d(4.0)], t(9)).unwrap();
    let proximity = LocalExperiment::ProximityScoreUntrained(ProximityScore::new());
    let trained = proximity
        .trained(TrainOutcome::ProximityScore { results: results(), threshold: d(3.0) })
        .unwrap();
    assert!(trained.is_proximity_score());
    assert_eq!(trained.data_timestamp_at_training(), Some(t(9)));
    match trained.model_inference() {
        Some(InferenceModel::ProximityScore(model)) => {
            assert_eq!(
                model.predict_config(),
                PredictConfig { min_score: d(1.0), max_score: d(4.0), threshold: d(3.0) }
            );
        }
        _ => panic!("a trained proximity score model"),
    }
    let again = trained
        .trained(TrainOutcome::ProximityScore {
            results: TrainResults::new(vec![d(2.0)], t(11)).unwrap(),
            threshold: d(2.0),
        })
        .unwrap();
    assert_eq!(again.data_timestamp_at_training(), Some(t(11)));
    assert_eq!(trained.data_timestamp_at_training(), Some(t(9)));

    let single = LocalExperiment::SingleMaxUntrained(SingleMax::new());
    let trained = single.trained(TrainOutcome::SingleMax { results: results() }).unwrap();
    assert!(trained.is_single_max());
    assert_eq!(trained.data_timestamp_at_training(), Some(t(9)));

    assert_eq!(single.trained(TrainOutcome::ProximityScore { results: results(), threshold: d(1.0) }), None);
    assert_eq!(proximity.trained(TrainOutcome::SingleMax { results: results() }), None);
    assert_eq!(LocalExperiment::NoModel.trained(TrainOutcome::SingleMax { results: results() }), None);
}
