use crate::data_definition::undo_manager::{
    most_recent, DataTimestamp, EventModel, HistoryModel,
};
use crate::data_definition::DataPoint;
use vstd::prelude::*;

verus! {

/// Whether `event`, as the most recent entry of the undo stack, fits `points`:
/// the points look as they do right after the change it records.
pub open spec fn can_undo(points: Seq<DataPoint>, event: EventModel) -> bool {
    match event {
        EventModel::Add { point, .. } => points.len() > 0 && points.last() == point,
        EventModel::Edit { new_point, index, .. } => index < points.len() && points[index as int]
            == new_point,
        EventModel::Delete { index, .. } => index <= points.len(),
        EventModel::Clear { .. } => points.len() == 0,
        EventModel::Load { .. } => true,
    }
}

/// The points after `event` was taken back.
pub open spec fn undone_points(points: Seq<DataPoint>, event: EventModel) -> Seq<DataPoint> {
    match event {
        EventModel::Add { .. } => points.drop_last(),
        EventModel::Edit { old_point, index, .. } => points.update(index as int, old_point),
        EventModel::Delete { index, point, .. } => points.insert(index as int, point),
        EventModel::Clear { points: saved, .. } => saved,
        EventModel::Load { points: saved, .. } => saved,
    }
}

/// Whether `event`, as the most recent entry of the redo stack, fits `points`:
/// the points look as they did right before the change it records.
pub open spec fn can_redo(points: Seq<DataPoint>, event: EventModel) -> bool {
    match event {
        EventModel::Add { .. } => true,
        EventModel::Edit { old_point, index, .. } => index < points.len() && points[index as int]
            == old_point,
        EventModel::Delete { index, point, .. } => index < points.len() && points[index as int]
            == point,
        EventModel::Clear { points: saved, .. } => saved.len() == 0,
        EventModel::Load { .. } => true,
    }
}

/// The points after `event` was made again.
pub open spec fn redone_points(points: Seq<DataPoint>, event: EventModel) -> Seq<DataPoint> {
    match event {
        EventModel::Add { point, .. } => points.push(point),
        EventModel::Edit { new_point, index, .. } => points.update(index as int, new_point),
        EventModel::Delete { index, .. } => points.remove(index as int),
        EventModel::Clear { points: saved, .. } => saved,
        EventModel::Load { points: saved, .. } => saved,
    }
}

/// The event as it lies on the other stack after it was undone or redone while
/// the store held `points`: an event that swaps whole point sets now holds the
/// set that left the store; the others are unchanged.
pub open spec fn moved_event(points: Seq<DataPoint>, event: EventModel) -> EventModel {
    match event {
        EventModel::Clear { timestamp, .. } => EventModel::Clear { points, timestamp },
        EventModel::Load { timestamp, .. } => EventModel::Load { points, timestamp },
        _ => event,
    }
}

/// Every entry of the undo stack can be taken back in turn, starting with the
/// most recent, from `points`.
pub open spec fn unwinds(points: Seq<DataPoint>, undo: Seq<EventModel>) -> bool
    decreases undo.len(),
{
    undo.len() == 0 || (can_undo(points, undo.last()) && unwinds(
        undone_points(points, undo.last()),
        undo.drop_last(),
    ))
}

/// Every entry of the redo stack can be made again in turn, starting with the
/// most recent, from `points`.
pub open spec fn replays(points: Seq<DataPoint>, redo: Seq<EventModel>) -> bool
    decreases redo.len(),
{
    redo.len() == 0 || (can_redo(points, redo.last()) && replays(
        redone_points(points, redo.last()),
        redo.drop_last(),
    ))
}

/// What a point store holds, but for its cache.
pub struct StoreModel {
    pub points: Seq<DataPoint>,
    pub rounding_decimal_places: Option<u8>,
    pub history: HistoryModel,
}

impl StoreModel {
    /// The history fits the points: all of it can be undone and redone.
    pub open spec fn wf(self) -> bool {
        unwinds(self.points, self.history.undo) && replays(self.points, self.history.redo)
    }

    /// The version of the data.
    pub open spec fn timestamp(self) -> DataTimestamp {
        self.history.timestamp()
    }

    /// The store after a change that turned the points into `points` and is
    /// recorded as `event`.
    pub open spec fn changed(self, points: Seq<DataPoint>, event: EventModel) -> StoreModel {
        StoreModel {
            points,
            rounding_decimal_places: self.rounding_decimal_places,
            history: self.history.recorded(event),
        }
    }

    /// The store after `point` was appended at `timestamp`.
    pub open spec fn added(self, point: DataPoint, timestamp: DataTimestamp) -> StoreModel {
        self.changed(self.points.push(point), EventModel::Add { point, timestamp })
    }

    /// The store after the point at `index` was replaced by `new_point`.
    pub open spec fn edited(
        self,
        index: usize,
        new_point: DataPoint,
        timestamp: DataTimestamp,
    ) -> StoreModel {
        self.changed(
            self.points.update(index as int, new_point),
            EventModel::Edit { new_point, old_point: self.points[index as int], index, timestamp },
        )
    }

    /// The store after the point at `index` was removed.
    pub open spec fn deleted(self, index: usize, timestamp: DataTimestamp) -> StoreModel {
        self.changed(
            self.points.remove(index as int),
            EventModel::Delete { index, point: self.points[index as int], timestamp },
        )
    }

    /// The store after all points were removed.
    pub open spec fn cleared(self, timestamp: DataTimestamp) -> StoreModel {
        self.changed(Seq::empty(), EventModel::Clear { points: self.points, timestamp })
    }

    /// The store after its points were replaced by `points`.
    pub open spec fn loaded(self, points: Seq<DataPoint>, timestamp: DataTimestamp) -> StoreModel {
        self.changed(points, EventModel::Load { points: self.points, timestamp })
    }

    /// The store after its most recent change was taken back.
    pub open spec fn undone(self) -> StoreModel {
        let event = self.history.undo.last();
        StoreModel {
            points: undone_points(self.points, event),
            rounding_decimal_places: self.rounding_decimal_places,
            history: HistoryModel {
                max_history_size: self.history.max_history_size,
                undo: self.history.undo.drop_last(),
                redo: self.history.redo.push(moved_event(self.points, event)),
            },
        }
    }

    /// The store after the change that was taken back last was made again.
    pub open spec fn redone(self) -> StoreModel {
        let event = self.history.redo.last();
        StoreModel {
            points: redone_points(self.points, event),
            rounding_decimal_places: self.rounding_decimal_places,
            history: HistoryModel {
                max_history_size: self.history.max_history_size,
                undo: self.history.undo.push(moved_event(self.points, event)),
                redo: self.history.redo.drop_last(),
            },
        }
    }

    /// The store with its history forgotten.
    pub open spec fn without_history(self) -> StoreModel {
        StoreModel {
            points: self.points,
            rounding_decimal_places: self.rounding_decimal_places,
            history: self.history.cleared(),
        }
    }

    /// The store under a new limit on its undo stack.
    pub open spec fn limited_to(self, bound: Option<u16>) -> StoreModel {
        StoreModel {
            points: self.points,
            rounding_decimal_places: self.rounding_decimal_places,
            history: self.history.limited_to(bound),
        }
    }

    /// The store after undo was asked for: with its most recent change taken
    /// back, or as it is where there is no change to take back.
    pub open spec fn after_undo(self) -> StoreModel {
        if self.history.undo.len() > 0 {
            self.undone()
        } else {
            self
        }
    }

    /// The store after redo was asked for: with the change made again that was
    /// taken back last, or as it is where there is none.
    pub open spec fn after_redo(self) -> StoreModel {
        if self.history.redo.len() > 0 {
            self.redone()
        } else {
            self
        }
    }

    /// The store after `undo(); redo();` was asked for `rounds` times.
    pub open spec fn undone_and_redone(self, rounds: nat) -> StoreModel
        decreases rounds,
    {
        if rounds == 0 {
            self
        } else {
            self.after_undo().after_redo().undone_and_redone((rounds - 1) as nat)
        }
    }
}

/// An undo stack that unwinds still does after its oldest entries have left.
pub proof fn lemma_unwinds_without_oldest(points: Seq<DataPoint>, undo: Seq<EventModel>, from: int)
    requires
        unwinds(points, undo),
        0 <= from <= undo.len(),
    ensures
        unwinds(points, undo.subrange(from, undo.len() as int)),
    decreases undo.len(),
{
    let kept = undo.subrange(from, undo.len() as int);
    if kept.len() > 0 {
        assert(kept.last() == undo.last());
        assert(kept.drop_last() =~= undo.drop_last().subrange(from, undo.len() - 1));
        lemma_unwinds_without_oldest(undone_points(points, undo.last()), undo.drop_last(), from);
    }
}

/// A change that fits the points it produced keeps the store well formed.
pub proof fn lemma_changed_wf(store: StoreModel, points: Seq<DataPoint>, event: EventModel)
    requires
        store.wf(),
        can_undo(points, event),
        undone_points(points, event) == store.points,
    ensures
        store.changed(points, event).wf(),
{
    let grown = store.history.undo.push(event);
    assert(grown.last() == event);
    assert(grown.drop_last() =~= store.history.undo);
    assert(unwinds(points, grown));
    let after = store.changed(points, event);
    if after.history.undo != grown {
        assert(after.history.undo == grown.subrange(1, grown.len() as int));
        lemma_unwinds_without_oldest(points, grown, 1);
    }
}

/// Every change that the store makes keeps it well formed.
pub proof fn lemma_changes_keep_wf(
    store: StoreModel,
    point: DataPoint,
    index: usize,
    points: Seq<DataPoint>,
    timestamp: DataTimestamp,
)
    requires
        store.wf(),
    ensures
        store.added(point, timestamp).wf(),
        index < store.points.len() ==> store.edited(index, point, timestamp).wf(),
        index < store.points.len() ==> store.deleted(index, timestamp).wf(),
        store.cleared(timestamp).wf(),
        store.loaded(points, timestamp).wf(),
        store.without_history().wf(),
{
    let before = store.points;
    assert(before.push(point).drop_last() =~= before);
    lemma_changed_wf(store, before.push(point), EventModel::Add { point, timestamp });
    if index < before.len() {
        let old_point = before[index as int];
        assert(before.update(index as int, point).update(index as int, old_point) =~= before);
        lemma_changed_wf(
            store,
            before.update(index as int, point),
            EventModel::Edit { new_point: point, old_point, index, timestamp },
        );
        assert(before.remove(index as int).insert(index as int, old_point) =~= before);
        lemma_changed_wf(
            store,
            before.remove(index as int),
            EventModel::Delete { index, point: old_point, timestamp },
        );
    }
    lemma_changed_wf(store, Seq::empty(), EventModel::Clear { points: before, timestamp });
    lemma_changed_wf(store, points, EventModel::Load { points: before, timestamp });
}

/// A new limit keeps the store well formed.
pub proof fn lemma_limit_keeps_wf(store: StoreModel, bound: Option<u16>)
    requires
        store.wf(),
    ensures
        store.limited_to(bound).wf(),
{
    let undo = store.history.undo;
    let kept = store.limited_to(bound).history.undo;
    if kept != undo {
        lemma_unwinds_without_oldest(store.points, undo, undo.len() - bound.unwrap());
    }
}

/// Taking a change back keeps the store well formed, and so does making one
/// again.
pub proof fn lemma_undo_redo_keep_wf(store: StoreModel)
    requires
        store.wf(),
    ensures
        store.history.undo.len() > 0 ==> store.undone().wf(),
        store.history.redo.len() > 0 ==> store.redone().wf(),
{
    if store.history.undo.len() > 0 {
        let event = store.history.undo.last();
        let after = store.undone();
        let moved = moved_event(store.points, event);
        assert(after.history.redo.last() == moved);
        assert(after.history.redo.drop_last() =~= store.history.redo);
        lemma_inverse_steps(store.points, event);
    }
    if store.history.redo.len() > 0 {
        let event = store.history.redo.last();
        let after = store.redone();
        let moved = moved_event(store.points, event);
        assert(after.history.undo.last() == moved);
        assert(after.history.undo.drop_last() =~= store.history.undo);
        lemma_inverse_steps(store.points, event);
    }
}

/// Undoing an event and making it again are inverse to each other, on the
/// points and on the event itself.
pub proof fn lemma_inverse_steps(points: Seq<DataPoint>, event: EventModel)
    ensures
        can_undo(points, event) ==> {
            let back = undone_points(points, event);
            let moved = moved_event(points, event);
            &&& can_redo(back, moved)
            &&& redone_points(back, moved) == points
            &&& moved_event(back, moved) == event
        },
        can_redo(points, event) ==> {
            let forth = redone_points(points, event);
            let moved = moved_event(points, event);
            &&& can_undo(forth, moved)
            &&& undone_points(forth, moved) == points
            &&& moved_event(forth, moved) == event
        },
{
    if can_undo(points, event) {
        let back = undone_points(points, event);
        let moved = moved_event(points, event);
        assert(redone_points(back, moved) =~= points);
    }
    if can_redo(points, event) {
        let forth = redone_points(points, event);
        let moved = moved_event(points, event);
        assert(undone_points(forth, moved) =~= points);
    }
}

/// Undo followed by redo gives the store back as it was: the same points, the
/// same two stacks and so the same version. The same holds of redo followed by
/// undo.
pub proof fn lemma_undo_then_redo(store: StoreModel)
    requires
        store.wf(),
    ensures
        store.history.undo.len() > 0 ==> store.undone().redone() == store,
        store.history.redo.len() > 0 ==> store.redone().undone() == store,
{
    if store.history.undo.len() > 0 {
        let event = store.history.undo.last();
        lemma_inverse_steps(store.points, event);
        let there = store.undone();
        let back = there.redone();
        assert(there.history.redo.last() == moved_event(store.points, event));
        assert(back.history.undo =~= store.history.undo);
        assert(back.history.redo =~= store.history.redo);
    }
    if store.history.redo.len() > 0 {
        let event = store.history.redo.last();
        lemma_inverse_steps(store.points, event);
        let there = store.redone();
        let back = there.undone();
        assert(there.history.undo.last() == moved_event(store.points, event));
        assert(back.history.undo =~= store.history.undo);
        assert(back.history.redo =~= store.history.redo);
    }
}

/// `undo(); redo();` asked for any number of times gives the store back as it
/// was, and with it the version of the data. This holds of a store that has
/// something to undo or nothing to redo, which is so after every change, since
/// a change empties the redo stack.
pub proof fn lemma_undo_redo_repeated(store: StoreModel, rounds: nat)
    requires
        store.wf(),
        store.history.undo.len() > 0 || store.history.redo.len() == 0,
    ensures
        store.undone_and_redone(rounds) == store,
        store.undone_and_redone(rounds).timestamp() == store.timestamp(),
    decreases rounds,
{
    if rounds > 0 {
        lemma_undo_then_redo(store);
        lemma_undo_redo_repeated(store, (rounds - 1) as nat);
    }
}

/// The limit on the undo stack holds after every change, and what stays are the
/// most recent entries.
///
/// Setting a limit establishes it at once. Recording a change, undoing and
/// clearing the history keep it. Redoing keeps it as long as the two stacks
/// together are no longer than the limit, which every operation but the
/// setting of a lower limit maintains; setting one maintains it too while
/// nothing can be redone.
pub proof fn lemma_bound_is_kept(
    store: StoreModel,
    points: Seq<DataPoint>,
    event: EventModel,
    bound: Option<u16>,
)
    ensures
        store.limited_to(bound).history.within_bound(),
        store.limited_to(bound).history.undo == most_recent(store.history.undo, bound),
        store.history.redo.len() == 0 ==> store.limited_to(bound).history.has_room_for_redo(),
        store.history.has_room_for_redo() ==> store.history.within_bound(),
        store.history.within_bound() ==> {
            let after = store.changed(points, event).history;
            &&& after.has_room_for_redo()
            &&& after.undo == most_recent(
                store.history.undo.push(event),
                store.history.max_history_size,
            )
        },
        store.history.within_bound() ==> store.without_history().history.has_room_for_redo(),
        store.history.within_bound() && store.history.undo.len() > 0
            ==> store.undone().history.within_bound(),
        store.history.has_room_for_redo() && store.history.undo.len() > 0
            ==> store.undone().history.has_room_for_redo(),
        store.history.has_room_for_redo() && store.history.redo.len() > 0
            ==> store.redone().history.has_room_for_redo(),
{
}

} // verus!
