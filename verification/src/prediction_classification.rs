use crate::data_definition::distance::DistanceCalculation;
use crate::data_definition::{DataLabel, DataPoint, PointArray};
use crate::local_experiments::ModelInference;
use vstd::prelude::*;

verus! {

/// How a prediction stands to the truth, with an anomaly as the positive case.
#[derive(PartialEq, Eq, Clone, Copy, Debug, Structural)]
pub enum Classification {
    FalseNegative,
    FalsePositive,
    TrueNegative,
    TruePositive,
}

impl Classification {
    pub open spec fn short_name(self) -> Seq<char> {
        match self {
            Classification::FalseNegative => "FN"@,
            Classification::FalsePositive => "FP"@,
            Classification::TrueNegative => "TN"@,
            Classification::TruePositive => "TP"@,
        }
    }

    /// The two letters shown for the class.
    pub fn as_str(&self) -> (r: &'static str)
        ensures
            r@ == self.short_name(),
    {
        match self {
            Classification::FalseNegative => "FN",
            Classification::FalsePositive => "FP",
            Classification::TrueNegative => "TN",
            Classification::TruePositive => "TP",
        }
    }
}

/// The class of a prediction for a point whose true label is `ground_truth`.
pub open spec fn classified(ground_truth: DataLabel, predicted: DataLabel) -> Classification {
    match (ground_truth, predicted) {
        (DataLabel::Normal, DataLabel::Normal) => Classification::TrueNegative,
        (DataLabel::Normal, DataLabel::Anomaly) => Classification::FalsePositive,
        (DataLabel::Anomaly, DataLabel::Normal) => Classification::FalseNegative,
        (DataLabel::Anomaly, DataLabel::Anomaly) => Classification::TruePositive,
    }
}

pub fn prediction_classification(ground_truth: DataLabel, predicted: DataLabel) -> (r:
    Classification)
    ensures
        r == classified(ground_truth, predicted),
        ground_truth == DataLabel::Normal && predicted == DataLabel::Normal ==> r
            == Classification::TrueNegative,
        ground_truth == DataLabel::Normal && predicted == DataLabel::Anomaly ==> r
            == Classification::FalsePositive,
        ground_truth == DataLabel::Anomaly && predicted == DataLabel::Normal ==> r
            == Classification::FalseNegative,
        ground_truth == DataLabel::Anomaly && predicted == DataLabel::Anomaly ==> r
            == Classification::TruePositive,
{
    match (ground_truth, predicted) {
        (DataLabel::Normal, DataLabel::Normal) => Classification::TrueNegative,
        (DataLabel::Normal, DataLabel::Anomaly) => Classification::FalsePositive,
        (DataLabel::Anomaly, DataLabel::Normal) => Classification::FalseNegative,
        (DataLabel::Anomaly, DataLabel::Anomaly) => Classification::TruePositive,
    }
}

/// The places of points, sorted by how a model's predictions for them stand to
/// their labels.
#[derive(PartialEq, Debug)]
pub struct ClassifiedPoints {
    pub false_negatives: Vec<PointArray>,
    pub false_positives: Vec<PointArray>,
    pub true_negatives: Vec<PointArray>,
    pub true_positives: Vec<PointArray>,
}

/// The places of those of the first `upto` points that fall into `class`, in
/// the order of the points.
pub open spec fn places_in_class<M: ModelInference>(
    points: Seq<DataPoint>,
    model: M,
    class: Classification,
    upto: int,
) -> Seq<PointArray>
    decreases upto,
{
    if upto <= 0 {
        Seq::empty()
    } else {
        let front = places_in_class(points, model, class, upto - 1);
        let point = points[upto - 1];
        if classified(point.label, model.predicted(upto - 1)) == class {
            front.push(point.place())
        } else {
            front
        }
    }
}

/// Sorts the points into the four classes by what `model` predicts for each,
/// keeping their order within a class. The model was trained on these points.
pub fn classify_points<M: ModelInference>(points: &[DataPoint], model: &M) -> (r: ClassifiedPoints)
    requires
        points@.len() <= model.trained_on().scores.len(),
    ensures
        r.false_negatives@ == places_in_class(
            points@,
            *model,
            Classification::FalseNegative,
            points@.len() as int,
        ),
        r.false_positives@ == places_in_class(
            points@,
            *model,
            Classification::FalsePositive,
            points@.len() as int,
        ),
        r.true_negatives@ == places_in_class(
            points@,
            *model,
            Classification::TrueNegative,
            points@.len() as int,
        ),
        r.true_positives@ == places_in_class(
            points@,
            *model,
            Classification::TruePositive,
            points@.len() as int,
        ),
{
    let mut false_negatives: Vec<PointArray> = Vec::new();
    let mut false_positives: Vec<PointArray> = Vec::new();
    let mut true_negatives: Vec<PointArray> = Vec::new();
    let mut true_positives: Vec<PointArray> = Vec::new();
    let mut i: usize = 0;
    while i < points.len()
        invariant
            i <= points@.len(),
            points@.len() <= model.trained_on().scores.len(),
            false_negatives@ == places_in_class(
                points@,
                *model,
                Classification::FalseNegative,
                i as int,
            ),
            false_positives@ == places_in_class(
                points@,
                *model,
                Classification::FalsePositive,
                i as int,
            ),
            true_negatives@ == places_in_class(
                points@,
                *model,
                Classification::TrueNegative,
                i as int,
            ),
            true_positives@ == places_in_class(
                points@,
                *model,
                Classification::TruePositive,
                i as int,
            ),
        decreases points.len() - i,
    {
        let point = points[i];
        let ground_truth = point.label;
        let predicted = model.prediction_on_training_data(i);
        let point_array = point.to_array();
        match prediction_classification(ground_truth, predicted) {
            Classification::FalseNegative => false_negatives.push(point_array),
            Classification::FalsePositive => false_positives.push(point_array),
            Classification::TrueNegative => true_negatives.push(point_array),
            Classification::TruePositive => true_positives.push(point_array),
        }
        i += 1;
    }
    ClassifiedPoints { false_negatives, false_positives, true_negatives, true_positives }
}

} // verus!
