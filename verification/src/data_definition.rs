use crate::data_definition::model::{
    lemma_changes_keep_wf, lemma_limit_keeps_wf, lemma_undo_redo_keep_wf, replays, unwinds,
    StoreModel,
};
use crate::data_definition::undo_manager::{
    AddEventData, ClearEventData, DataTimestamp, DeleteEventData, EditEventData, Event,
    LoadEventData, UndoManager,
};
use crate::double::Double;
use crate::status_msg::{reported_error, reported_info, StatusMsg};
use vstd::prelude::*;

pub mod distance;
pub mod file_format;
pub mod matlab;
pub mod model;
pub mod undo_manager;

verus! {

pub type DataPoints = Vec<DataPoint>;

pub type PointArray = [Double; 2];

/// Whether a sample belongs to the bulk of the data or stands apart from it.
#[derive(PartialEq, Eq, Clone, Copy, Debug, Structural)]
pub enum DataLabel {
    Normal,
    Anomaly,
}

/// A number that was read where a label was expected and is neither 0 nor 1.
#[derive(PartialEq, Eq, Clone, Copy, Debug, Structural)]
pub struct UnexpectedLabel {
    pub value: u8,
}

impl DataLabel {
    /// The number that stands for the label in a record: 0 for `Normal`, 1 for
    /// `Anomaly`.
    pub open spec fn code(self) -> u8 {
        match self {
            DataLabel::Normal => 0,
            DataLabel::Anomaly => 1,
        }
    }

    /// The short name shown for the label.
    pub open spec fn short_name(self) -> Seq<char> {
        match self {
            DataLabel::Normal => "N"@,
            DataLabel::Anomaly => "A"@,
        }
    }

    #[must_use]
    pub fn is_normal(&self) -> (r: bool)
        ensures
            r == (*self == DataLabel::Normal),
    {
        matches!(self, DataLabel::Normal)
    }

    #[must_use]
    pub fn is_anomaly(&self) -> (r: bool)
        ensures
            r == (*self == DataLabel::Anomaly),
    {
        matches!(self, DataLabel::Anomaly)
    }

    pub fn as_int(&self) -> (r: u8)
        ensures
            r == self.code(),
    {
        match self {
            DataLabel::Normal => 0,
            DataLabel::Anomaly => 1,
        }
    }

    /// The label that `value` stands for.
    pub fn try_from(value: u8) -> (r: Result<DataLabel, UnexpectedLabel>)
        ensures
            value == 0 ==> r == Ok::<DataLabel, UnexpectedLabel>(DataLabel::Normal),
            value == 1 ==> r == Ok::<DataLabel, UnexpectedLabel>(DataLabel::Anomaly),
            value > 1 ==> r == Err::<DataLabel, UnexpectedLabel>(UnexpectedLabel { value }),
    {
        if value == DataLabel::Normal.as_int() {
            Ok(DataLabel::Normal)
        } else if value == DataLabel::Anomaly.as_int() {
            Ok(DataLabel::Anomaly)
        } else {
            Err(UnexpectedLabel { value })
        }
    }

    pub fn as_str(&self) -> (r: &'static str)
        ensures
            r@ == self.short_name(),
    {
        match self {
            DataLabel::Normal => "N",
            DataLabel::Anomaly => "A",
        }
    }
}

/// A labelled sample in the plane.
#[derive(PartialEq, Eq, Clone, Copy, Debug, Structural)]
pub struct DataPoint {
    pub x0: Double,
    pub x1: Double,
    pub label: DataLabel,
}

impl DataPoint {
    pub fn new(x0: Double, x1: Double, label: DataLabel) -> (r: Self)
        ensures
            r == (DataPoint { x0, x1, label }),
    {
        Self { x0, x1, label }
    }
}

/// A place in the plane, such as the one the pointer is over.
#[derive(PartialEq, Eq, Clone, Copy, Debug, Structural)]
pub struct Coordinate {
    pub x: Double,
    pub y: Double,
}

/// The corners of a box around points: the least and the greatest value on each
/// axis.
#[derive(PartialEq, Eq, Clone, Copy, Debug)]
pub struct MinMaxPair {
    pub min: [Double; 2],
    pub max: [Double; 2],
}

/// Whether the point at `i` can be chosen: it has a distance and carries the
/// label that is asked for, if one is.
pub open spec fn is_candidate(
    points: Seq<DataPoint>,
    distances: Seq<Double>,
    label: Option<DataLabel>,
    i: int,
) -> bool {
    &&& 0 <= i < points.len()
    &&& i < distances.len()
    &&& match label {
        Some(wanted) => points[i].label == wanted,
        None => true,
    }
}

/// Whether the point at `k` is the closest that can be chosen: its distance is
/// a number short of infinity, no candidate is nearer, and every candidate
/// before it is farther.
pub open spec fn is_closest(
    points: Seq<DataPoint>,
    distances: Seq<Double>,
    label: Option<DataLabel>,
    k: int,
) -> bool {
    &&& is_candidate(points, distances, label, k)
    &&& distances[k].below(Double::spec_infinity())
    &&& forall|j: int| #[trigger]
        is_candidate(points, distances, label, j) ==> !distances[j].below(distances[k])
    &&& forall|j: int| #[trigger]
        is_candidate(points, distances, label, j) && j < k ==> distances[k].below(distances[j])
            || distances[j].nan()
}

/// Whether no point can be chosen: no candidate has a distance short of
/// infinity.
pub open spec fn none_in_reach(
    points: Seq<DataPoint>,
    distances: Seq<Double>,
    label: Option<DataLabel>,
) -> bool {
    forall|j: int| #[trigger]
        is_candidate(points, distances, label, j) ==> !distances[j].below(Double::spec_infinity())
}

/// The value that a scan for the least number ends with: it starts from `start`
/// and takes each value in turn where that one is less.
pub open spec fn least_from(start: Double, values: Seq<Double>) -> Double
    decreases values.len(),
{
    if values.len() == 0 {
        start
    } else {
        values.last().lesser(least_from(start, values.drop_last()))
    }
}

/// The value that a scan for the greatest number ends with.
pub open spec fn greatest_from(start: Double, values: Seq<Double>) -> Double
    decreases values.len(),
{
    if values.len() == 0 {
        start
    } else {
        values.last().greater(greatest_from(start, values.drop_last()))
    }
}

/// The first coordinates of the points.
pub open spec fn x0s(points: Seq<DataPoint>) -> Seq<Double> {
    points.map_values(|p: DataPoint| p.x0)
}

/// The second coordinates of the points.
pub open spec fn x1s(points: Seq<DataPoint>) -> Seq<Double> {
    points.map_values(|p: DataPoint| p.x1)
}

/// The least and the greatest coordinate of the points on each axis; from -1 to
/// 1 on both where there is no point.
pub open spec fn extent(points: Seq<DataPoint>) -> MinMaxPair {
    if points.len() == 0 {
        MinMaxPair {
            min: [Double::spec_minus_one(), Double::spec_minus_one()],
            max: [Double::spec_one(), Double::spec_one()],
        }
    } else {
        MinMaxPair {
            min: [
                least_from(points[0].x0, x0s(points)),
                least_from(points[0].x1, x1s(points)),
            ],
            max: [
                greatest_from(points[0].x0, x0s(points)),
                greatest_from(points[0].x1, x1s(points)),
            ],
        }
    }
}

/// A scan that starts from a number ends with a number that no value is
/// below, and above which no value is, respectively; it is the start or one of
/// the values.
pub proof fn lemma_scan_bounds(start: Double, values: Seq<Double>)
    requires
        !start.nan(),
    ensures
        !least_from(start, values).nan(),
        !greatest_from(start, values).nan(),
        !start.below(least_from(start, values)),
        !greatest_from(start, values).below(start),
        forall|i: int|
            0 <= i < values.len() ==> !(#[trigger] values[i]).below(least_from(start, values)),
        forall|i: int|
            0 <= i < values.len() ==> !greatest_from(start, values).below(#[trigger] values[i]),
        least_from(start, values) == start || values.contains(least_from(start, values)),
        greatest_from(start, values) == start || values.contains(greatest_from(start, values)),
    decreases values.len(),
{
    if values.len() > 0 {
        let front = values.drop_last();
        lemma_scan_bounds(start, front);
        assert forall|i: int| 0 <= i < values.len() implies !(#[trigger] values[i]).below(
            least_from(start, values),
        ) && !greatest_from(start, values).below(values[i]) by {
            if i < front.len() {
                assert(values[i] == front[i]);
            }
        }
        if front.contains(least_from(start, front)) {
            let at = choose|i: int| 0 <= i < front.len() && front[i] == least_from(start, front);
            assert(values[at] == least_from(start, front));
        }
        if front.contains(greatest_from(start, front)) {
            let at = choose|i: int| 0 <= i < front.len() && front[i] == greatest_from(start, front);
            assert(values[at] == greatest_from(start, front));
        }
        assert(values[values.len() - 1] == values.last());
    }
}

fn copy_of(points: &Vec<DataPoint>) -> (r: Vec<DataPoint>)
    ensures
        r@ == points@,
{
    let mut copy: Vec<DataPoint> = Vec::new();
    let mut i: usize = 0;
    while i < points.len()
        invariant
            i <= points.len(),
            copy@ == points@.subrange(0, i as int),
        decreases points.len() - i,
    {
        copy.push(points[i]);
        i += 1;
        assert(copy@ =~= points@.subrange(0, i as int));
    }
    assert(copy@ =~= points@);
    copy
}

/// Whether every entry that `history` holds for undoing can be taken back in
/// turn from `points`.
fn can_unwind(points: &Vec<DataPoint>, history: &UndoManager) -> (r: bool)
    ensures
        r == unwinds(points@, history@.undo),
{
    let ghost undo = history@.undo;
    let mut current = copy_of(points);
    let mut left = history.undo_len();
    assert(undo.subrange(0, left as int) =~= undo);
    while left > 0
        invariant
            left <= undo.len(),
            undo == history@.undo,
            unwinds(points@, undo) == unwinds(current@, undo.subrange(0, left as int)),
        decreases left,
    {
        let ghost entries = undo.subrange(0, left as int);
        left -= 1;
        let event = history.undo_event(left);
        proof {
            assert(entries.last() == event@);
            assert(entries.drop_last() =~= undo.subrange(0, left as int));
        }
        match event {
            Event::Add(event_data) => {
                if current.len() == 0 || current[current.len() - 1] != event_data.point {
                    return false;
                }
                current.pop();
            },
            Event::Edit(event_data) => {
                if event_data.index >= current.len() || current[event_data.index]
                    != event_data.new_point {
                    return false;
                }
                current[event_data.index] = event_data.old_point;
            },
            Event::Delete(event_data) => {
                if event_data.index > current.len() {
                    return false;
                }
                current.insert(event_data.index, event_data.point);
            },
            Event::Clear(event_data) => {
                if current.len() != 0 {
                    return false;
                }
                current = copy_of(&event_data.points);
            },
            Event::Load(event_data) => {
                current = copy_of(&event_data.points);
            },
        }
    }
    true
}

/// Whether every entry that `history` holds for redoing can be made again in
/// turn from `points`.
fn can_replay(points: &Vec<DataPoint>, history: &UndoManager) -> (r: bool)
    ensures
        r == replays(points@, history@.redo),
{
    let ghost redo = history@.redo;
    let mut current = copy_of(points);
    let mut left = history.redo_len();
    assert(redo.subrange(0, left as int) =~= redo);
    while left > 0
        invariant
            left <= redo.len(),
            redo == history@.redo,
            replays(points@, redo) == replays(current@, redo.subrange(0, left as int)),
        decreases left,
    {
        let ghost entries = redo.subrange(0, left as int);
        left -= 1;
        let event = history.redo_event(left);
        proof {
            assert(entries.last() == event@);
            assert(entries.drop_last() =~= redo.subrange(0, left as int));
        }
        match event {
            Event::Add(event_data) => {
                current.push(event_data.point);
            },
            Event::Edit(event_data) => {
                if event_data.index >= current.len() || current[event_data.index]
                    != event_data.old_point {
                    return false;
                }
                current[event_data.index] = event_data.new_point;
            },
            Event::Delete(event_data) => {
                if event_data.index >= current.len() || current[event_data.index]
                    != event_data.point {
                    return false;
                }
                current.remove(event_data.index);
            },
            Event::Clear(event_data) => {
                if event_data.points.len() != 0 {
                    return false;
                }
                current = copy_of(&event_data.points);
            },
            Event::Load(event_data) => {
                current = copy_of(&event_data.points);
            },
        }
    }
    true
}

/// Whether `placed` is where a point goes that is added at `at`: the place
/// itself while rounding is off, else what `round` makes of the place and the
/// number of decimal places.
pub open spec fn is_placed<F: FnOnce(Coordinate, u8) -> Coordinate>(
    rounding_decimal_places: Option<u8>,
    at: Coordinate,
    placed: Coordinate,
    round: F,
) -> bool {
    match rounding_decimal_places {
        Some(places) => round.ensures((at, places), placed),
        None => placed == at,
    }
}

/// The points of a data set, with the history of their changes.
///
/// Every change is recorded in the history before it is made, so that it can be
/// taken back, and voids the cached box around the points.
#[derive(PartialEq, Debug)]
pub struct Data {
    points: DataPoints,
    /// To how many decimal places new points are rounded, if at all.
    pub rounding_decimal_places: Option<u8>,
    undo_manager: UndoManager,
    cached_points_min_max: Option<MinMaxPair>,
}

impl View for Data {
    type V = StoreModel;

    closed spec fn view(&self) -> StoreModel {
        StoreModel {
            points: self.points@,
            rounding_decimal_places: self.rounding_decimal_places,
            history: self.undo_manager@,
        }
    }
}

impl Default for Data {
    fn default() -> (r: Self)
        ensures
            r@.points == Seq::<DataPoint>::empty(),
            r@.rounding_decimal_places == None::<u8>,
            r@.history.max_history_size == Some(Data::DEFAULT_MAX_HISTORY),
            r@.history.undo == Seq::<undo_manager::EventModel>::empty(),
            r@.history.redo == Seq::<undo_manager::EventModel>::empty(),
            r@.wf(),
            r.cached() == None::<MinMaxPair>,
    {
        Self {
            points: Vec::new(),
            rounding_decimal_places: None,
            undo_manager: UndoManager::default(),
            cached_points_min_max: None,
        }
    }
}

impl Data {
    const DEFAULT_DECIMAL_PLACES_FOR_ROUNDING: u8 = 0;

    pub const MAX_DECIMAL_PLACES: u8 = 10;

    pub const DEFAULT_MAX_HISTORY: u16 = 200;

    /// The box that is cached, if one is.
    pub closed spec fn cached(&self) -> Option<MinMaxPair> {
        self.cached_points_min_max
    }

    /// A store of the given points and history, where the history fits the
    /// points: all of it can be undone and redone from them.
    pub fn from_parts(
        points: DataPoints,
        rounding_decimal_places: Option<u8>,
        undo_manager: UndoManager,
    ) -> (r: Option<Self>)
        ensures
            r.is_some() == (StoreModel {
                points: points@,
                rounding_decimal_places,
                history: undo_manager@,
            }).wf(),
            match r {
                Some(data) => {
                    &&& data@ == (StoreModel {
                        points: points@,
                        rounding_decimal_places,
                        history: undo_manager@,
                    })
                    &&& data.cached() == None::<MinMaxPair>
                },
                None => true,
            },
    {
        if can_unwind(&points, &undo_manager) && can_replay(&points, &undo_manager) {
            Some(
                Self { points, rounding_decimal_places, undo_manager, cached_points_min_max: None },
            )
        } else {
            None
        }
    }

    /// The history of the changes.
    pub fn history(&self) -> (r: &UndoManager)
        ensures
            r@ == self@.history,
    {
        &self.undo_manager
    }

    pub fn points(&self) -> (r: &[DataPoint])
        ensures
            r@ == self@.points,
    {
        self.points.as_slice()
    }

    /// A copy of all the points.
    pub fn clone_points(&self) -> (r: DataPoints)
        ensures
            r@ == self@.points,
    {
        copy_of(&self.points)
    }

    pub fn is_rounding_enabled(&self) -> (r: bool)
        ensures
            r == self@.rounding_decimal_places.is_some(),
    {
        self.rounding_decimal_places.is_some()
    }

    /// Turns rounding on, to no decimal places, or off. A setting that is
    /// already on keeps its number of places.
    pub fn set_rounding_enabled(&mut self, value: bool)
        ensures
            final(self)@.points == old(self)@.points,
            final(self)@.history == old(self)@.history,
            final(self).cached() == old(self).cached(),
            final(self)@.rounding_decimal_places == (if !value {
                None
            } else if old(self)@.rounding_decimal_places.is_some() {
                old(self)@.rounding_decimal_places
            } else {
                Some(0u8)
            }),
    {
        match (self.rounding_decimal_places, value) {
            (None, true) => {
                self.rounding_decimal_places = Some(Self::DEFAULT_DECIMAL_PLACES_FOR_ROUNDING)
            },
            (Some(_), false) => self.rounding_decimal_places = None,
            (None, false) | (Some(_), true) => (),
        }
    }

    /// The number of decimal places, for editing. Turns rounding on, to no
    /// places, where it was off.
    pub fn rounding_decimal_places_mut(&mut self) -> (r: &mut u8)
        ensures
            *r == (match old(self)@.rounding_decimal_places {
                Some(places) => places,
                None => 0u8,
            }),
            final(self)@.rounding_decimal_places == Some(*final(r)),
            final(self)@.points == old(self)@.points,
            final(self)@.history == old(self)@.history,
            final(self).cached() == old(self).cached(),
    {
        self.rounding_decimal_places.get_or_insert(Self::DEFAULT_DECIMAL_PLACES_FOR_ROUNDING)
    }

    fn invalidate_cache(&mut self)
        ensures
            final(self)@ == old(self)@,
            final(self).cached() == None::<MinMaxPair>,
    {
        self.cached_points_min_max = None;
    }

    pub fn is_empty(&self) -> (r: bool)
        ensures
            r == (self@.points.len() == 0),
    {
        self.points.is_empty()
    }

    pub fn has_undo(&self) -> (r: bool)
        ensures
            r == (self@.history.undo.len() > 0),
    {
        !self.undo_manager.is_undo_empty()
    }

    pub fn has_redo(&self) -> (r: bool)
        ensures
            r == (self@.history.redo.len() > 0),
    {
        !self.undo_manager.is_redo_empty()
    }

    pub fn has_history(&self) -> (r: bool)
        ensures
            r == (self@.history.undo.len() > 0 || self@.history.redo.len() > 0),
    {
        !self.undo_manager.is_empty()
    }

    /// Sets the limit on the undo stack and lets its oldest entries go until the
    /// limit is met.
    pub fn set_history_size(&mut self, value: Option<u16>)
        ensures
            final(self)@ == old(self)@.limited_to(value),
            final(self)@.history.within_bound(),
            final(self).cached() == old(self).cached(),
            old(self)@.wf() ==> final(self)@.wf(),
    {
        self.undo_manager.set_max_history_size(value);
        proof {
            if old(self)@.wf() {
                lemma_limit_keeps_wf(old(self)@, value);
            }
        }
    }

    pub fn max_history_size(&self) -> (r: Option<u16>)
        ensures
            r == self@.history.max_history_size,
    {
        self.undo_manager.max_history_size()
    }

    /// Appends a point at the place of the pointer and records the change
    /// under `timestamp`. Where rounding is on, the place is first rounded to
    /// the number of decimal places that is set, which is left to `round`.
    /// Without a place it reports that and changes nothing.
    pub fn add_at<F: FnOnce(Coordinate, u8) -> Coordinate>(
        &mut self,
        pointer_coordinate: Option<Coordinate>,
        label: DataLabel,
        status_msg: &mut StatusMsg,
        timestamp: DataTimestamp,
        round: F,
    )
        requires
            forall|at: Coordinate, places: u8| round.requires((at, places)),
        ensures
            old(self)@.wf() ==> final(self)@.wf(),
            match pointer_coordinate {
                Some(at) => {
                    &&& exists|placed: Coordinate|
                        {
                            &&& #[trigger] is_placed(
                                old(self)@.rounding_decimal_places,
                                at,
                                placed,
                                round,
                            )
                            &&& final(self)@ == old(self)@.added(
                                DataPoint { x0: placed.x, x1: placed.y, label },
                                timestamp,
                            )
                        }
                    &&& final(self).cached() == None::<MinMaxPair>
                    &&& final(status_msg)@ == old(status_msg)@
                },
                None => {
                    &&& final(self)@ == old(self)@
                    &&& final(self).cached() == old(self).cached()
                    &&& reported_error(
                        old(status_msg)@,
                        final(status_msg)@,
                        "Unable to add point. Cursor not detected over the plot"@,
                    )
                },
            },
    {
        if let Some(pointer_coord) = pointer_coordinate {
            self.invalidate_cache();
            let placed = match self.rounding_decimal_places {
                Some(desired_decimal_places) => round(pointer_coord, desired_decimal_places),
                None => pointer_coord,
            };
            let new_point = DataPoint::new(placed.x, placed.y, label);
            let event = Event::Add(AddEventData::new(new_point, timestamp));
            self.undo_manager.add_undo(event);
            self.points.push(new_point);
            proof {
                if old(self)@.wf() {
                    lemma_changes_keep_wf(old(self)@, new_point, 0, Seq::empty(), timestamp);
                }
                assert(is_placed(old(self)@.rounding_decimal_places, pointer_coord, placed, round));
            }
        } else {
            status_msg.error_display("Unable to add point. Cursor not detected over the plot");
        }
    }

    /// [`Data::add_at`] under the time that the clock reads.
    pub fn add<F: FnOnce(Coordinate, u8) -> Coordinate>(
        &mut self,
        pointer_coordinate: Option<Coordinate>,
        label: DataLabel,
        status_msg: &mut StatusMsg,
        round: F,
    )
        requires
            forall|at: Coordinate, places: u8| round.requires((at, places)),
        ensures
            old(self)@.wf() ==> final(self)@.wf(),
            match pointer_coordinate {
                Some(at) => {
                    &&& exists|placed: Coordinate, timestamp: DataTimestamp|
                        {
                            &&& #[trigger] is_placed(
                                old(self)@.rounding_decimal_places,
                                at,
                                placed,
                                round,
                            )
                            &&& final(self)@ == #[trigger] old(self)@.added(
                                DataPoint { x0: placed.x, x1: placed.y, label },
                                timestamp,
                            )
                        }
                    &&& final(self).cached() == None::<MinMaxPair>
                    &&& final(status_msg)@ == old(status_msg)@
                },
                None => {
                    &&& final(self)@ == old(self)@
                    &&& final(self).cached() == old(self).cached()
                    &&& reported_error(
                        old(status_msg)@,
                        final(status_msg)@,
                        "Unable to add point. Cursor not detected over the plot"@,
                    )
                },
            },
    {
        self.add_at(pointer_coordinate, label, status_msg, DataTimestamp::now(), round);
    }

    /// Replaces the point at `index` and records the change under `timestamp`.
    pub fn edit_at(&mut self, index: usize, new_point: DataPoint, timestamp: DataTimestamp)
        requires
            index < old(self)@.points.len(),
        ensures
            final(self)@ == old(self)@.edited(index, new_point, timestamp),
            final(self).cached() == None::<MinMaxPair>,
            old(self)@.wf() ==> final(self)@.wf(),
    {
        self.invalidate_cache();
        let old_point = self.points[index];
        let event = Event::Edit(EditEventData::new(new_point, old_point, index, timestamp));
        self.undo_manager.add_undo(event);
        self.points[index] = new_point;
        proof {
            if old(self)@.wf() {
                lemma_changes_keep_wf(old(self)@, new_point, index, Seq::empty(), timestamp);
            }
        }
    }

    /// [`Data::edit_at`] under the time that the clock reads.
    pub fn edit(&mut self, index: usize, new_point: DataPoint)
        requires
            index < old(self)@.points.len(),
        ensures
            exists|timestamp: DataTimestamp|
                final(self)@ == old(self)@.edited(index, new_point, timestamp),
            final(self).cached() == None::<MinMaxPair>,
            old(self)@.wf() ==> final(self)@.wf(),
    {
        self.edit_at(index, new_point, DataTimestamp::now());
    }

    /// Removes the point at `index`, so that those behind it move up, and
    /// records the change under `timestamp`.
    pub fn delete_by_index_at(&mut self, index: usize, timestamp: DataTimestamp)
        requires
            index < old(self)@.points.len(),
        ensures
            final(self)@ == old(self)@.deleted(index, timestamp),
            final(self).cached() == None::<MinMaxPair>,
            old(self)@.wf() ==> final(self)@.wf(),
    {
        self.invalidate_cache();
        let removed_point = self.points.remove(index);
        self.undo_manager.add_undo(
            Event::Delete(DeleteEventData::new(index, removed_point, timestamp)),
        );
        proof {
            if old(self)@.wf() {
                lemma_changes_keep_wf(
                    old(self)@,
                    old(self)@.points[index as int],
                    index,
                    Seq::empty(),
                    timestamp,
                );
            }
        }
    }

    /// [`Data::delete_by_index_at`] under the time that the clock reads.
    pub fn delete_by_index(&mut self, index: usize)
        requires
            index < old(self)@.points.len(),
        ensures
            exists|timestamp: DataTimestamp| final(self)@ == old(self)@.deleted(index, timestamp),
            final(self).cached() == None::<MinMaxPair>,
            old(self)@.wf() ==> final(self)@.wf(),
    {
        self.delete_by_index_at(index, DataTimestamp::now());
    }

    /// Removes all points and records the change, with the points, under
    /// `timestamp`.
    pub fn clear_points_at(&mut self, timestamp: DataTimestamp)
        ensures
            final(self)@ == old(self)@.cleared(timestamp),
            final(self).cached() == None::<MinMaxPair>,
            old(self)@.wf() ==> final(self)@.wf(),
    {
        self.invalidate_cache();
        let mut event_data = ClearEventData::new(Vec::new(), timestamp);
        std::mem::swap(&mut self.points, &mut event_data.points);
        self.undo_manager.add_undo(Event::Clear(event_data));
        proof {
            assert(self.points@ =~= Seq::empty());
            if old(self)@.wf() {
                lemma_changes_keep_wf(
                    old(self)@,
                    DataPoint { x0: Double::zero(), x1: Double::zero(), label: DataLabel::Normal },
                    0,
                    Seq::empty(),
                    timestamp,
                );
            }
        }
    }

    /// [`Data::clear_points_at`] under the time that the clock reads.
    pub fn clear_points(&mut self)
        ensures
            exists|timestamp: DataTimestamp| final(self)@ == old(self)@.cleared(timestamp),
            final(self).cached() == None::<MinMaxPair>,
            old(self)@.wf() ==> final(self)@.wf(),
    {
        self.clear_points_at(DataTimestamp::now());
    }

    /// Puts `points` in the place of the points and records the change, with
    /// the points that left, under `timestamp`.
    pub fn replace_with_loaded_data_at(&mut self, points: DataPoints, timestamp: DataTimestamp)
        ensures
            final(self)@ == old(self)@.loaded(points@, timestamp),
            final(self).cached() == None::<MinMaxPair>,
            old(self)@.wf() ==> final(self)@.wf(),
    {
        self.invalidate_cache();
        let mut event_data = LoadEventData::new(points, timestamp);
        std::mem::swap(&mut self.points, &mut event_data.points);
        self.undo_manager.add_undo(Event::Load(event_data));
        proof {
            if old(self)@.wf() {
                lemma_changes_keep_wf(
                    old(self)@,
                    DataPoint { x0: Double::zero(), x1: Double::zero(), label: DataLabel::Normal },
                    0,
                    points@,
                    timestamp,
                );
            }
        }
    }

    /// [`Data::replace_with_loaded_data_at`] under the time that the clock
    /// reads.
    pub fn replace_with_loaded_data(&mut self, points: DataPoints)
        ensures
            exists|timestamp: DataTimestamp| final(self)@ == old(self)@.loaded(points@, timestamp),
            final(self).cached() == None::<MinMaxPair>,
            old(self)@.wf() ==> final(self)@.wf(),
    {
        self.replace_with_loaded_data_at(points, DataTimestamp::now());
    }

    /// Forgets what can be undone and redone, and reports it. The points stay.
    pub fn clear_history(&mut self, status_msg: &mut StatusMsg)
        ensures
            final(self)@ == old(self)@.without_history(),
            final(self).cached() == old(self).cached(),
            old(self)@.wf() ==> final(self)@.wf(),
            old(self)@.history.undo.len() == 0 && old(self)@.history.redo.len() == 0
                ==> reported_info(old(status_msg)@, final(status_msg)@, "No History to clear"@),
            old(self)@.history.undo.len() > 0 || old(self)@.history.redo.len() > 0
                ==> reported_info(old(status_msg)@, final(status_msg)@, "Data History Cleared"@),
    {
        if self.undo_manager.is_empty() {
            status_msg.info("No History to clear");
            assert(self@.history.undo =~= Seq::empty());
            assert(self@.history.redo =~= Seq::empty());
        } else {
            self.undo_manager.clear_all();
            status_msg.info("Data History Cleared")
        }
        proof {
            if old(self)@.wf() {
                lemma_changes_keep_wf(
                    old(self)@,
                    DataPoint { x0: Double::zero(), x1: Double::zero(), label: DataLabel::Normal },
                    0,
                    Seq::empty(),
                    DataTimestamp::epoch(),
                );
            }
        }
    }

    /// Takes the most recent change back. Where there is none it reports that
    /// and changes nothing.
    pub fn undo(&mut self, status_msg: &mut StatusMsg)
        requires
            old(self)@.wf(),
        ensures
            final(self)@.wf(),
            final(self)@ == old(self)@.after_undo(),
            old(self)@.history.undo.len() > 0 ==> {
                &&& final(self).cached() == None::<MinMaxPair>
                &&& final(status_msg)@ == old(status_msg)@
            },
            old(self)@.history.undo.len() == 0 ==> {
                &&& final(self).cached() == old(self).cached()
                &&& reported_info(
                    old(status_msg)@,
                    final(status_msg)@,
                    "No history available to undo"@,
                )
            },
    {
        if self.undo_manager.is_undo_empty() {
            status_msg.info("No history available to undo");
        } else {
            self.invalidate_cache();
            proof {
                lemma_undo_redo_keep_wf(old(self)@);
            }
            let event = self.undo_manager.undo();
            match event {
                Event::Add(_) => {
                    self.points.pop();
                },
                Event::Edit(event_data) => {
                    self.points[event_data.index] = event_data.old_point;
                },
                Event::Delete(event_data) => {
                    self.points.insert(event_data.index, event_data.point);
                },
                Event::Clear(event_data) => {
                    std::mem::swap(&mut self.points, &mut event_data.points);
                },
                Event::Load(event_data) => {
                    std::mem::swap(&mut self.points, &mut event_data.points);
                },
            }
            assert(self@.points =~= old(self)@.undone().points);
            assert(self@.history.redo =~= old(self)@.undone().history.redo);
        }
    }

    /// Makes the change again that was taken back last. Where there is none it
    /// reports that and changes nothing.
    pub fn redo(&mut self, status_msg: &mut StatusMsg)
        requires
            old(self)@.wf(),
        ensures
            final(self)@.wf(),
            final(self)@ == old(self)@.after_redo(),
            old(self)@.history.redo.len() > 0 ==> {
                &&& final(self).cached() == None::<MinMaxPair>
                &&& final(status_msg)@ == old(status_msg)@
            },
            old(self)@.history.redo.len() == 0 ==> {
                &&& final(self).cached() == old(self).cached()
                &&& reported_info(
                    old(status_msg)@,
                    final(status_msg)@,
                    "No history available to undo"@,
                )
            },
    {
        if self.undo_manager.is_redo_empty() {
            status_msg.info("No history available to undo");
        } else {
            self.invalidate_cache();
            proof {
                lemma_undo_redo_keep_wf(old(self)@);
            }
            let event = self.undo_manager.redo();
            match event {
                Event::Add(event_data) => {
                    self.points.push(event_data.point);
                },
                Event::Edit(event_data) => {
                    self.points[event_data.index] = event_data.new_point;
                },
                Event::Delete(event_data) => {
                    self.points.remove(event_data.index);
                },
                Event::Clear(event_data) => {
                    std::mem::swap(&mut self.points, &mut event_data.points);
                },
                Event::Load(event_data) => {
                    std::mem::swap(&mut self.points, &mut event_data.points);
                },
            }
            assert(self@.points =~= old(self)@.redone().points);
            assert(self@.history.undo =~= old(self)@.redone().history.undo);
        }
    }

    /// The index of the point closest to the pointer among those that carry
    /// `label` (among all, without one), where `distances[i]` is how far the
    /// point at `i` is from the pointer. Of several closest points it is the
    /// first. A point without a distance, or with one that is not a number
    /// short of infinity, is never chosen.
    pub fn get_closest_point(&self, distances: &[Double], label: Option<DataLabel>) -> (r: Option<
        usize,
    >)
        ensures
            match r {
                Some(k) => is_closest(self@.points, distances@, label, k as int),
                None => none_in_reach(self@.points, distances@, label),
            },
    {
        let mut result: Option<usize> = None;
        let mut min_distance = Double::infinity();
        let mut i: usize = 0;
        while i < self.points.len() && i < distances.len()
            invariant
                i <= self.points.len(),
                i <= distances.len(),
                match result {
                    Some(k) => {
                        &&& k < i
                        &&& min_distance == distances@[k as int]
                        &&& is_candidate(self.points@, distances@, label, k as int)
                        &&& min_distance.below(Double::spec_infinity())
                        &&& forall|j: int| #[trigger]
                            is_candidate(self.points@, distances@, label, j) && j < i
                                ==> !distances@[j].below(min_distance)
                        &&& forall|j: int| #[trigger]
                            is_candidate(self.points@, distances@, label, j) && j < k
                                ==> min_distance.below(distances@[j]) || distances@[j].nan()
                    },
                    None => {
                        &&& min_distance == Double::spec_infinity()
                        &&& forall|j: int| #[trigger]
                            is_candidate(self.points@, distances@, label, j) && j < i
                                ==> !distances@[j].below(Double::spec_infinity())
                    },
                },
            decreases self.points.len() - i,
        {
            let wanted = match label {
                Some(wanted) => self.points[i].label == wanted,
                None => true,
            };
            if wanted {
                let distance = distances[i];
                if distance.lt(min_distance) {
                    result = Some(i);
                    min_distance = distance;
                }
            }
            i += 1;
        }
        result
    }

    /// Removes the point closest to the pointer among those that carry `label`
    /// and records the change under `timestamp`. `pointer_distances` holds, for
    /// a pointer over the plot, how far each point is from it, in the order of
    /// the points. Without a pointer, or without a point to choose, it reports
    /// that and changes nothing.
    pub fn delete_at(
        &mut self,
        pointer_distances: Option<&[Double]>,
        label: DataLabel,
        status_msg: &mut StatusMsg,
        timestamp: DataTimestamp,
    )
        ensures
            old(self)@.wf() ==> final(self)@.wf(),
            match pointer_distances {
                Some(distances) => {
                    if none_in_reach(old(self)@.points, distances@, Some(label)) {
                        &&& final(self)@ == old(self)@
                        &&& final(self).cached() == old(self).cached()
                        &&& reported_info(
                            old(status_msg)@,
                            final(status_msg)@,
                            "No suitable point available for deleting"@,
                        )
                    } else {
                        &&& exists|k: int|
                            0 <= k < old(self)@.points.len() && #[trigger] is_closest(
                                old(self)@.points,
                                distances@,
                                Some(label),
                                k,
                            ) && final(self)@ == old(self)@.deleted(k as usize, timestamp)
                        &&& final(self).cached() == None::<MinMaxPair>
                        &&& final(status_msg)@ == old(status_msg)@
                    }
                },
                None => {
                    &&& final(self)@ == old(self)@
                    &&& final(self).cached() == old(self).cached()
                    &&& reported_error(
                        old(status_msg)@,
                        final(status_msg)@,
                        "Unable to delete point. Cursor not detected over the plot"@,
                    )
                },
            },
    {
        let Some(distances) = pointer_distances else {
            status_msg.error_display("Unable to delete point. Cursor not detected over the plot");
            return ;
        };
        let index_closest_point = self.get_closest_point(distances, Some(label));

        if let Some(index) = index_closest_point {
            self.delete_by_index_at(index, timestamp);
        } else {
            status_msg.info("No suitable point available for deleting");
        }
    }

    /// [`Data::delete_at`] under the time that the clock reads.
    pub fn delete(
        &mut self,
        pointer_distances: Option<&[Double]>,
        label: DataLabel,
        status_msg: &mut StatusMsg,
    )
        ensures
            old(self)@.wf() ==> final(self)@.wf(),
            match pointer_distances {
                Some(distances) => {
                    if none_in_reach(old(self)@.points, distances@, Some(label)) {
                        &&& final(self)@ == old(self)@
                        &&& final(self).cached() == old(self).cached()
                        &&& reported_info(
                            old(status_msg)@,
                            final(status_msg)@,
                            "No suitable point available for deleting"@,
                        )
                    } else {
                        &&& exists|k: int, timestamp: DataTimestamp|
                            0 <= k < old(self)@.points.len() && #[trigger] is_closest(
                                old(self)@.points,
                                distances@,
                                Some(label),
                                k,
                            ) && final(self)@ == #[trigger] old(self)@.deleted(
                                k as usize,
                                timestamp,
                            )
                        &&& final(self).cached() == None::<MinMaxPair>
                        &&& final(status_msg)@ == old(status_msg)@
                    }
                },
                None => {
                    &&& final(self)@ == old(self)@
                    &&& final(self).cached() == old(self).cached()
                    &&& reported_error(
                        old(status_msg)@,
                        final(status_msg)@,
                        "Unable to delete point. Cursor not detected over the plot"@,
                    )
                },
            },
    {
        self.delete_at(pointer_distances, label, status_msg, DataTimestamp::now());
    }

    /// The least and the greatest coordinate of the points on each axis.
    pub fn points_min_max(&self) -> (r: MinMaxPair)
        ensures
            r == extent(self@.points),
    {
        if self.points.len() == 0 {
            return MinMaxPair {
                min: [Double::minus_one(), Double::minus_one()],
                max: [Double::one(), Double::one()],
            };
        }
        let first_point = self.points[0];
        let mut min_x0 = first_point.x0;
        let mut max_x0 = first_point.x0;
        let mut min_x1 = first_point.x1;
        let mut max_x1 = first_point.x1;
        let mut i: usize = 0;
        while i < self.points.len()
            invariant
                i <= self.points.len(),
                self.points.len() > 0,
                first_point == self.points@[0],
                min_x0 == least_from(first_point.x0, x0s(self.points@.subrange(0, i as int))),
                min_x1 == least_from(first_point.x1, x1s(self.points@.subrange(0, i as int))),
                max_x0 == greatest_from(first_point.x0, x0s(self.points@.subrange(0, i as int))),
                max_x1 == greatest_from(first_point.x1, x1s(self.points@.subrange(0, i as int))),
            decreases self.points.len() - i,
        {
            let point = self.points[i];
            proof {
                let before = self.points@.subrange(0, i as int);
                let after = self.points@.subrange(0, i + 1);
                assert(x0s(after).drop_last() =~= x0s(before));
                assert(x1s(after).drop_last() =~= x1s(before));
                assert(x0s(after).last() == point.x0);
                assert(x1s(after).last() == point.x1);
            }
            min_x0 = point.x0.min(min_x0);
            max_x0 = point.x0.max(max_x0);
            min_x1 = point.x1.min(min_x1);
            max_x1 = point.x1.max(max_x1);
            i += 1;
        }
        assert(self.points@.subrange(0, i as int) =~= self.points@);
        MinMaxPair { min: [min_x0, min_x1], max: [max_x0, max_x1] }
    }

    /// The box that was cached since the points last changed, if one was.
    pub fn cached_points_min_max(&self) -> (r: Option<MinMaxPair>)
        ensures
            r == self.cached(),
    {
        self.cached_points_min_max
    }

    /// The box around the points with its margin. It is the cached box where
    /// one is cached. Otherwise it is what `with_margin` makes of the least and
    /// the greatest coordinate on each axis, and is cached until the points
    /// change.
    pub fn get_points_min_max_w_margin<F: FnOnce(MinMaxPair) -> MinMaxPair>(
        &mut self,
        with_margin: F,
    ) -> (r: MinMaxPair)
        requires
            forall|bounds: MinMaxPair| with_margin.requires((bounds,)),
        ensures
            final(self)@ == old(self)@,
            final(self).cached() == Some(r),
            match old(self).cached() {
                Some(cached) => r == cached,
                None => with_margin.ensures((extent(old(self)@.points),), r),
            },
    {
        if let Some(result) = self.cached_points_min_max {
            result
        } else {
            let result = with_margin(self.points_min_max());
            self.cached_points_min_max = Some(result);
            result
        }
    }

    /// The version of the data: when its most recent change that can be undone
    /// was made, the epoch where there is none.
    pub fn timestamp(&self) -> (r: DataTimestamp)
        ensures
            r == self@.timestamp(),
    {
        self.undo_manager.timestamp()
    }
}

} // verus!
