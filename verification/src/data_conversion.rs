use crate::data_definition::distance::DistanceCalculation;
use crate::data_definition::{DataLabel, DataPoint, PointArray};
use vstd::prelude::*;

verus! {

/// The places of the points that carry `label`, in the order of the points.
pub open spec fn places_with_label(points: Seq<DataPoint>, label: DataLabel) -> Seq<PointArray> {
    points.filter(|p: DataPoint| p.label == label).map_values(|p: DataPoint| p.place())
}

/// Points as series for plotting: one of the normal points and one of the
/// anomalies.
pub trait ConvertToSeries {
    spec fn points(&self) -> Seq<DataPoint>;

    /// The places of the normal points, in their order.
    fn array_of_normal(&self) -> (r: Vec<PointArray>)
        ensures
            r@ == places_with_label(self.points(), DataLabel::Normal),
    ;

    /// The places of the anomalies, in their order.
    fn array_of_anom(&self) -> (r: Vec<PointArray>)
        ensures
            r@ == places_with_label(self.points(), DataLabel::Anomaly),
    ;
}

fn array_of(points: &[DataPoint], label: DataLabel) -> (r: Vec<PointArray>)
    ensures
        r@ == places_with_label(points@, label),
{
    let mut places: Vec<PointArray> = Vec::new();
    let mut i: usize = 0;
    while i < points.len()
        invariant
            i <= points@.len(),
            places@ == places_with_label(points@.subrange(0, i as int), label),
        decreases points.len() - i,
    {
        proof {
            let wanted = |p: DataPoint| p.label == label;
            let before = points@.subrange(0, i as int);
            let after = points@.subrange(0, i + 1);
            reveal(Seq::filter);
            assert(after.drop_last() =~= before);
            assert(after.last() == points@[i as int]);
            if wanted(points@[i as int]) {
                assert(after.filter(wanted) == before.filter(wanted).push(points@[i as int]));
                assert(places_with_label(after, label) =~= places_with_label(before, label).push(
                    points@[i as int].place(),
                ));
            } else {
                assert(after.filter(wanted) == before.filter(wanted));
            }
        }
        if points[i].label == label {
            places.push(points[i].to_array());
        }
        i += 1;
    }
    assert(points@.subrange(0, i as int) =~= points@);
    places
}

impl ConvertToSeries for [DataPoint] {
    open spec fn points(&self) -> Seq<DataPoint> {
        self@
    }

    fn array_of_normal(&self) -> (r: Vec<PointArray>) {
        array_of(self, DataLabel::Normal)
    }

    fn array_of_anom(&self) -> (r: Vec<PointArray>) {
        array_of(self, DataLabel::Anomaly)
    }
}

} // verus!
