use crate::clock::since_unix_epoch;
use crate::data_definition::undo_manager::dequeue::Deque;
use crate::data_definition::undo_manager::stack::Stack;
use crate::data_definition::{DataPoint, DataPoints};
use vstd::prelude::*;

pub mod dequeue;
pub mod stack;

verus! {

/// The version of a data set: nanoseconds since the Unix epoch at which its
/// latest change was made.
#[derive(PartialEq, Eq, PartialOrd, Ord, Debug, Clone, Copy, Hash, Structural)]
pub struct DataTimestamp(pub u128);

impl DataTimestamp {
    pub open spec fn spec_epoch() -> DataTimestamp {
        DataTimestamp(0)
    }

    /// What the clock reads. A clock that stands before the Unix epoch reads as
    /// the epoch.
    pub fn now() -> (r: DataTimestamp)
        ensures
            exists|reading: Option<(u64, u32)>|
                is_clock_reading(reading) && r == #[trigger] DataTimestamp::of_reading(reading),
    {
        let reading = since_unix_epoch();
        let r = DataTimestamp::from_reading(reading);
        assert(is_clock_reading(reading) && r == DataTimestamp::of_reading(reading));
        r
    }

    /// The time that a reading of the clock stands for: the nanoseconds that
    /// its whole seconds and the nanoseconds of its running second come to, and
    /// the epoch where the clock could not be read.
    pub open spec fn of_reading(reading: Option<(u64, u32)>) -> DataTimestamp {
        match reading {
            Some(elapsed) => DataTimestamp((elapsed.0 * 1_000_000_000 + elapsed.1) as u128),
            None => DataTimestamp::spec_epoch(),
        }
    }

    /// The time that a reading of the clock stands for. A reading holds the
    /// whole seconds since the Unix epoch and the nanoseconds of the second
    /// that is running; there is none where the clock could not be read.
    pub fn from_reading(reading: Option<(u64, u32)>) -> (r: DataTimestamp)
        ensures
            r == DataTimestamp::of_reading(reading),
    {
        match reading {
            Some((secs, nanos)) => {
                let whole: u128 = secs as u128 * 1_000_000_000;
                DataTimestamp(whole + nanos as u128)
            },
            None => DataTimestamp::epoch(),
        }
    }

    /// The version of a data set without history: no later than any other.
    #[verifier::when_used_as_spec(spec_epoch)]
    pub fn epoch() -> (r: DataTimestamp)
        ensures
            r == DataTimestamp::spec_epoch(),
    {
        Self(0)
    }

    pub fn from_nanos(nanos: u128) -> (r: DataTimestamp)
        ensures
            r == DataTimestamp(nanos),
    {
        Self(nanos)
    }

    pub fn as_nanos(&self) -> (r: u128)
        ensures
            r == self.0,
    {
        self.0
    }
}

/// Whether `reading` is what the clock can read: the nanoseconds of the running
/// second are fewer than a second has.
pub open spec fn is_clock_reading(reading: Option<(u64, u32)>) -> bool {
    match reading {
        Some(elapsed) => elapsed.1 < 1_000_000_000,
        None => true,
    }
}

/// One change to the points, with what is needed to take it back.
#[derive(PartialEq, Debug)]
pub enum Event {
    Add(AddEventData),
    Edit(EditEventData),
    Delete(DeleteEventData),
    Clear(ClearEventData),
    Load(LoadEventData),
}

/// What an [`Event`] says, with sequences in place of vectors.
pub enum EventModel {
    Add { point: DataPoint, timestamp: DataTimestamp },
    Edit { new_point: DataPoint, old_point: DataPoint, index: usize, timestamp: DataTimestamp },
    Delete { index: usize, point: DataPoint, timestamp: DataTimestamp },
    Clear { points: Seq<DataPoint>, timestamp: DataTimestamp },
    Load { points: Seq<DataPoint>, timestamp: DataTimestamp },
}

impl EventModel {
    pub open spec fn timestamp(self) -> DataTimestamp {
        match self {
            EventModel::Add { timestamp, .. } => timestamp,
            EventModel::Edit { timestamp, .. } => timestamp,
            EventModel::Delete { timestamp, .. } => timestamp,
            EventModel::Clear { timestamp, .. } => timestamp,
            EventModel::Load { timestamp, .. } => timestamp,
        }
    }
}

impl View for Event {
    type V = EventModel;

    open spec fn view(&self) -> EventModel {
        match *self {
            Event::Add(data) => EventModel::Add { point: data.point, timestamp: data.timestamp },
            Event::Edit(data) => EventModel::Edit {
                new_point: data.new_point,
                old_point: data.old_point,
                index: data.index,
                timestamp: data.timestamp,
            },
            Event::Delete(data) => EventModel::Delete {
                index: data.index,
                point: data.point,
                timestamp: data.timestamp,
            },
            Event::Clear(data) => EventModel::Clear {
                points: data.points@,
                timestamp: data.timestamp,
            },
            Event::Load(data) => EventModel::Load {
                points: data.points@,
                timestamp: data.timestamp,
            },
        }
    }
}

impl Event {
    pub fn timestamp(&self) -> (r: DataTimestamp)
        ensures
            r == self@.timestamp(),
    {
        match self {
            Event::Add(x) => x.timestamp,
            Event::Edit(x) => x.timestamp,
            Event::Delete(x) => x.timestamp,
            Event::Clear(x) => x.timestamp,
            Event::Load(x) => x.timestamp,
        }
    }
}

/// A point was appended.
#[derive(PartialEq, Debug)]
pub struct AddEventData {
    pub point: DataPoint,
    pub timestamp: DataTimestamp,
}

impl AddEventData {
    pub fn new(new_point: DataPoint, timestamp: DataTimestamp) -> (r: Self)
        ensures
            r == (AddEventData { point: new_point, timestamp }),
    {
        Self { point: new_point, timestamp }
    }
}

/// The point at `index` was replaced.
#[derive(PartialEq, Debug)]
pub struct EditEventData {
    pub new_point: DataPoint,
    pub old_point: DataPoint,
    pub index: usize,
    pub timestamp: DataTimestamp,
}

impl EditEventData {
    pub fn new(
        new_point: DataPoint,
        old_point: DataPoint,
        index: usize,
        timestamp: DataTimestamp,
    ) -> (r: Self)
        ensures
            r == (EditEventData { new_point, old_point, index, timestamp }),
    {
        Self { new_point, old_point, index, timestamp }
    }
}

/// The point at `index` was removed.
#[derive(PartialEq, Debug)]
pub struct DeleteEventData {
    pub index: usize,
    pub point: DataPoint,
    pub timestamp: DataTimestamp,
}

impl DeleteEventData {
    pub fn new(index: usize, removed_point: DataPoint, timestamp: DataTimestamp) -> (r: Self)
        ensures
            r == (DeleteEventData { index, point: removed_point, timestamp }),
    {
        Self { index, point: removed_point, timestamp }
    }
}

/// All points were removed. `points` holds the points that are not in the
/// store at the moment: the removed ones while the event can be undone, none
/// while it can be redone.
#[derive(PartialEq, Debug)]
pub struct ClearEventData {
    pub points: DataPoints,
    pub timestamp: DataTimestamp,
}

impl ClearEventData {
    pub fn new(points: DataPoints, timestamp: DataTimestamp) -> (r: Self)
        ensures
            r.points@ == points@,
            r.timestamp == timestamp,
    {
        Self { points, timestamp }
    }
}

/// All points were replaced by loaded ones. `points` holds the points that are
/// not in the store at the moment: the replaced ones while the event can be
/// undone, the loaded ones while it can be redone.
#[derive(PartialEq, Debug)]
pub struct LoadEventData {
    pub points: DataPoints,
    pub timestamp: DataTimestamp,
}

impl LoadEventData {
    pub fn new(points: Vec<DataPoint>, timestamp: DataTimestamp) -> (r: Self)
        ensures
            r.points@ == points@,
            r.timestamp == timestamp,
    {
        Self { points, timestamp }
    }
}

/// What an [`UndoManager`] holds: the limit on the undo stack, and the two
/// stacks with their most recent entry last.
pub struct HistoryModel {
    pub max_history_size: Option<u16>,
    pub undo: Seq<EventModel>,
    pub redo: Seq<EventModel>,
}

/// The entries that a limit lets stay: all of them without a limit, else the
/// most recent `bound`.
pub open spec fn most_recent(entries: Seq<EventModel>, bound: Option<u16>) -> Seq<EventModel> {
    match bound {
        Some(b) => if entries.len() > b {
            entries.subrange(entries.len() - b, entries.len() as int)
        } else {
            entries
        },
        None => entries,
    }
}

/// The entries after the oldest has left, if they were over the limit.
pub open spec fn without_oldest_if_over(entries: Seq<EventModel>, bound: Option<u16>) -> Seq<
    EventModel,
> {
    match bound {
        Some(b) => if entries.len() > b {
            entries.subrange(1, entries.len() as int)
        } else {
            entries
        },
        None => entries,
    }
}

impl HistoryModel {
    /// The undo stack is no longer than the limit, where there is one.
    pub open spec fn within_bound(self) -> bool {
        match self.max_history_size {
            Some(b) => self.undo.len() <= b,
            None => true,
        }
    }

    /// The undo stack stays within the limit even when everything that can be
    /// redone is redone.
    pub open spec fn has_room_for_redo(self) -> bool {
        match self.max_history_size {
            Some(b) => self.undo.len() + self.redo.len() <= b,
            None => true,
        }
    }

    /// The version of the data: the time of the most recent entry that can be
    /// undone, the epoch where there is none.
    pub open spec fn timestamp(self) -> DataTimestamp {
        if self.undo.len() > 0 {
            self.undo.last().timestamp()
        } else {
            DataTimestamp::spec_epoch()
        }
    }

    /// The history after a new change was recorded.
    pub open spec fn recorded(self, event: EventModel) -> HistoryModel {
        HistoryModel {
            max_history_size: self.max_history_size,
            undo: without_oldest_if_over(self.undo.push(event), self.max_history_size),
            redo: Seq::empty(),
        }
    }

    /// The history under a new limit.
    pub open spec fn limited_to(self, bound: Option<u16>) -> HistoryModel {
        HistoryModel {
            max_history_size: bound,
            undo: most_recent(self.undo, bound),
            redo: self.redo,
        }
    }

    /// The history with both stacks empty.
    pub open spec fn cleared(self) -> HistoryModel {
        HistoryModel {
            max_history_size: self.max_history_size,
            undo: Seq::empty(),
            redo: Seq::empty(),
        }
    }
}

/// The log of changes: a bounded undo stack, which gives up its oldest entries
/// first, and a redo stack, which is emptied by every new change.
#[derive(PartialEq, Debug)]
pub struct UndoManager {
    max_history_size: Option<u16>,
    undo_events: Deque<Event>,
    redo_events: Stack<Event>,
}

impl View for UndoManager {
    type V = HistoryModel;

    closed spec fn view(&self) -> HistoryModel {
        HistoryModel {
            max_history_size: self.max_history_size,
            undo: self.undo_events@.map_values(|e: Event| e@),
            redo: self.redo_events@.map_values(|e: Event| e@),
        }
    }
}

impl Default for UndoManager {
    fn default() -> (r: Self)
        ensures
            r@ == (HistoryModel {
                max_history_size: Some(UndoManager::DEFAULT_MAX_HISTORY),
                undo: Seq::empty(),
                redo: Seq::empty(),
            }),
    {
        let r = Self {
            max_history_size: Some(Self::DEFAULT_MAX_HISTORY),
            undo_events: Default::default(),
            redo_events: Default::default(),
        };
        assert(r@.undo =~= Seq::empty());
        assert(r@.redo =~= Seq::empty());
        r
    }
}

impl UndoManager {
    pub const DEFAULT_MAX_HISTORY: u16 = 200;

    pub fn max_history_size(&self) -> (r: Option<u16>)
        ensures
            r == self@.max_history_size,
    {
        self.max_history_size
    }

    /// Sets the limit and lets the oldest entries of the undo stack go until it
    /// is met. The redo stack stays as it is.
    pub fn set_max_history_size(&mut self, value: Option<u16>)
        ensures
            final(self)@ == old(self)@.limited_to(value),
            final(self)@.within_bound(),
    {
        self.max_history_size = value;
        if let Some(max_size) = self.max_history_size {
            let ghost before = self.undo_events@;
            while self.undo_events.len() > max_size as usize
                invariant
                    self.max_history_size == value,
                    value == Some(max_size),
                    self.redo_events == old(self).redo_events,
                    before == old(self).undo_events@,
                    self.undo_events@.len() <= before.len(),
                    before.len() <= max_size ==> self.undo_events@.len() == before.len(),
                    before.len() > max_size ==> self.undo_events@.len() >= max_size,
                    self.undo_events@ == before.subrange(
                        before.len() - self.undo_events@.len(),
                        before.len() as int,
                    ),
                decreases self.undo_events@.len(),
            {
                self.undo_events.remove_oldest();
            }
            assert(self@.undo =~= old(self)@.limited_to(value).undo);
        } else {
            assert(self@.undo =~= old(self)@.limited_to(value).undo);
        }
    }

    pub fn clear_all(&mut self)
        ensures
            final(self)@ == old(self)@.cleared(),
    {
        self.undo_events.clear();
        self.redo_events.clear();
        assert(self@.undo =~= Seq::empty());
        assert(self@.redo =~= Seq::empty());
    }

    pub fn is_undo_empty(&self) -> (r: bool)
        ensures
            r == (self@.undo.len() == 0),
    {
        self.undo_events.is_empty()
    }

    pub fn is_redo_empty(&self) -> (r: bool)
        ensures
            r == (self@.redo.len() == 0),
    {
        self.redo_events.is_empty()
    }

    pub fn is_empty(&self) -> (r: bool)
        ensures
            r == (self@.undo.len() == 0 && self@.redo.len() == 0),
    {
        self.is_undo_empty() && self.is_redo_empty()
    }

    /// Records a new change: empties the redo stack, puts the event on the undo
    /// stack and, if that is now over the limit, lets its oldest entry go.
    pub fn add_undo(&mut self, event: Event)
        ensures
            final(self)@ == old(self)@.recorded(event@),
            old(self)@.within_bound() ==> final(self)@.within_bound() && final(self)@.undo
                == most_recent(old(self)@.undo.push(event@), old(self)@.max_history_size),
    {
        self.redo_events.clear();
        self.undo_events.push(event);
        if let Some(max_size) = self.max_history_size {
            if self.undo_events.len() > max_size as usize {
                self.undo_events.remove_oldest();
            }
        }
        assert(self@.redo =~= Seq::empty());
        assert(self@.undo =~= old(self)@.recorded(event@).undo);
        assert(old(self)@.within_bound() ==> self@.undo =~= most_recent(
            old(self)@.undo.push(event@),
            old(self)@.max_history_size,
        ));
    }

    /// Moves the most recent entry of the undo stack onto the redo stack and
    /// returns a reference to it there.
    pub fn undo(&mut self) -> (r: &mut Event)
        requires
            old(self)@.undo.len() > 0,
        ensures
            (*r)@ == old(self)@.undo.last(),
            final(self)@ == (HistoryModel {
                max_history_size: old(self)@.max_history_size,
                undo: old(self)@.undo.drop_last(),
                redo: old(self)@.redo.push((*final(r))@),
            }),
    {
        let popped = self.undo_events.pop();
        let event = popped.unwrap();
        self.redo_events.push(event);
        let top = self.redo_events.peek();
        let r = top.unwrap();
        proof {
            assert(old(self).undo_events@.drop_last().map_values(|e: Event| e@) =~= old(
                self,
            )@.undo.drop_last());
            assert(old(self).redo_events@.push(event).update(
                old(self).redo_events@.len() as int,
                *final(r),
            ).map_values(|e: Event| e@) =~= old(self)@.redo.push((*final(r))@));
        }
        r
    }

    /// Moves the most recent entry of the redo stack onto the undo stack and
    /// returns a reference to it there.
    pub fn redo(&mut self) -> (r: &mut Event)
        requires
            old(self)@.redo.len() > 0,
        ensures
            (*r)@ == old(self)@.redo.last(),
            final(self)@ == (HistoryModel {
                max_history_size: old(self)@.max_history_size,
                undo: old(self)@.undo.push((*final(r))@),
                redo: old(self)@.redo.drop_last(),
            }),
    {
        let popped = self.redo_events.pop();
        let event = popped.unwrap();
        self.undo_events.push(event);
        let top = self.undo_events.peek_mut();
        let r = top.unwrap();
        proof {
            assert(old(self).redo_events@.drop_last().map_values(|e: Event| e@) =~= old(
                self,
            )@.redo.drop_last());
            assert(old(self).undo_events@.push(event).update(
                old(self).undo_events@.len() as int,
                *final(r),
            ).map_values(|e: Event| e@) =~= old(self)@.undo.push((*final(r))@));
        }
        r
    }

    /// A log with the given limit and entries; of each list the last entry is
    /// the most recent. The limit is not applied to the entries.
    pub fn from_parts(max_history_size: Option<u16>, undo: Vec<Event>, redo: Vec<Event>) -> (r:
        Self)
        ensures
            r@ == (HistoryModel {
                max_history_size,
                undo: undo@.map_values(|e: Event| e@),
                redo: redo@.map_values(|e: Event| e@),
            }),
    {
        Self {
            max_history_size,
            undo_events: Deque::from_vec(undo),
            redo_events: Stack::from_vec(redo),
        }
    }

    /// The number of entries that can be undone.
    pub fn undo_len(&self) -> (r: usize)
        ensures
            r == self@.undo.len(),
    {
        self.undo_events.len()
    }

    /// The number of entries that can be redone.
    pub fn redo_len(&self) -> (r: usize)
        ensures
            r == self@.redo.len(),
    {
        self.redo_events.len()
    }

    /// The entry of the undo stack at `index`, counted from the oldest.
    pub fn undo_event(&self, index: usize) -> (r: &Event)
        requires
            index < self@.undo.len(),
        ensures
            r@ == self@.undo[index as int],
    {
        self.undo_events.get(index)
    }

    /// The entry of the redo stack at `index`, counted from the one that is
    /// redone last.
    pub fn redo_event(&self, index: usize) -> (r: &Event)
        requires
            index < self@.redo.len(),
        ensures
            r@ == self@.redo[index as int],
    {
        self.redo_events.get(index)
    }

    /// The version of the data: the time of the most recent entry of the undo
    /// stack, the epoch where it is empty.
    pub fn timestamp(&self) -> (r: DataTimestamp)
        ensures
            r == self@.timestamp(),
    {
        if let Some(event) = self.undo_events.peek() {
            event.timestamp()
        } else {
            DataTimestamp::epoch()
        }
    }
}

} // verus!
