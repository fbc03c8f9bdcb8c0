use dbv::data_definition::undo_manager::dequeue::Deque;
use dbv::data_definition::undo_manager::stack::Stack;
use dbv::data_definition::undo_manager::{
    AddEventData, ClearEventData, DataTimestamp, DeleteEventData, EditEventData, Event,
    LoadEventData, UndoManager,
};
use dbv::data_definition::{Data, DataLabel, DataPoint};
use dbv::double::Double;

fn d(x: f64) -> Double {
    Double::from_bits(x.to_bits())
}

fn p(x: f64) -> DataPoint {
    DataPoint::new(d(x), d(-x), DataLabel::Normal)
}

fn t(nanos: u128) -> DataTimestamp {
    DataTimestamp::from_nanos(nanos)
}

fn add(x: f64, at: u128) -> Event {
    Event::Add(AddEventData::new(p(x), t(at)))
}

#[test]
fn deque_pushes_and_pops_at_the_newest_end() {
    let mut deque: Deque<u32> = Deque::default();
    assert!(deque.is_empty());
    assert_eq!(deque.len(), 0);
    assert_eq!(deque.pop(), None);
    assert_eq!(deque.peek(), None);
    assert_eq!(deque.remove_oldest(), None);
    deque.push(1);
    deque.push(2);
    deque.push(3);
    assert_eq!(deque.len(), 3);
    assert_eq!(deque.peek(), Some(&3));
    assert_eq!(deque.get(0), &1);
    assert_eq!(deque.remove_oldest(), Some(1));
    assert_eq!(deque.pop(), Some(3));
    assert_eq!(deque.pop(), Some(2));
    assert!(deque.is_empty());
    deque.push(4);
    deque.clear();
    assert!(deque.is_empty());
}

#[test]
fn deque_peek_mut_writes_to_the_newest_item() {
    let mut deque: Deque<u32> = Deque::default();
    assert!(deque.peek_mut().is_none());
    deque.push(1);
    deque.push(2);
    *deque.peek_mut().unwrap() = 20;
    assert_eq!(deque.len(), 2);
    assert_eq!(deque.pop(), Some(20));
    assert_eq!(deque.pop(), Some(1));
}

#[test]
fn deque_from_a_vector_keeps_the_order() {
    let mut deque = Deque::from_vec(vec![1, 2, 3, 4]);
    assert_eq!(deque.len(), 4);
    assert_eq!(deque.remove_oldest(), Some(1));
    assert_eq!(deque.pop(), Some(4));
    assert_eq!(deque.get(0), &2);
    assert_eq!(deque.get(1), &3);
    let empty: Deque<u8> = Deque::from_vec(vec![]);
    assert!(empty.is_empty());
}

#[test]
fn stack_pushes_and_pops_at_the_top() {
    let mut stack: Stack<u32> = Stack::default();
    assert!(stack.is_empty());
    assert_eq!(stack.pop(), None);
    assert!(stack.peek().is_none());
    stack.push(1);
    stack.push(2);
    assert_eq!(stack.len(), 2);
    *stack.peek().unwrap() += 5;
    assert_eq!(stack.get(0), &1);
    assert_eq!(stack.pop(), Some(7));
    stack.clear();
    assert!(stack.is_empty());
    let mut stack = Stack::from_vec(vec![1, 2, 3]);
    assert_eq!(stack.pop(), Some(3));
}

#[test]
fn events_carry_their_time() {
    assert_eq!(add(1.0, 5).timestamp(), t(5));
    assert_eq!(Event::Edit(EditEventData::new(p(1.0), p(2.0), 3, t(6))).timestamp(), t(6));
    assert_eq!(Event::Delete(DeleteEventData::new(2, p(1.0), t(7))).timestamp(), t(7));
    assert_eq!(Event::Clear(ClearEventData::new(vec![p(1.0)], t(8))).timestamp(), t(8));
    assert_eq!(Event::Load(LoadEventData::new(vec![], t(9))).timestamp(), t(9));
    let edit = EditEventData::new(p(1.0), p(2.0), 3, t(6));
    assert_eq!((edit.new_point, edit.old_point, edit.index), (p(1.0), p(2.0), 3));
    let delete = DeleteEventData::new(2, p(1.0), t(7));
    assert_eq!((delete.index, delete.point), (2, p(1.0)));
    assert_eq!(ClearEventData::new(vec![p(1.0)], t(8)).points, vec![p(1.0)]);
    assert_eq!(LoadEventData::new(vec![p(4.0)], t(8)).points, vec![p(4.0)]);
}

#[test]
fn timestamps_order_by_their_nanoseconds() {
    assert_eq!(DataTimestamp::epoch().as_nanos(), 0);
    assert_eq!(DataTimestamp::from_nanos(17).as_nanos(), 17);
    assert!(DataTimestamp::epoch() < t(1));
    assert!(t(1) < t(2));
    let first = DataTimestamp::now();
    let second = DataTimestamp::now();
    assert!(first > DataTimestamp::epoch());
    assert!(second.as_nanos() - first.as_nanos() < 60_000_000_000);
}

#[test]
fn a_reading_of_the_clock_stands_for_its_nanoseconds() {
    assert_eq!(DataTimestamp::from_reading(None), DataTimestamp::epoch());
    assert_eq!(DataTimestamp::from_reading(Some((0, 0))), DataTimestamp::epoch());
    assert_eq!(DataTimestamp::from_reading(Some((1, 5))), t(1_000_000_005));
    assert_eq!(
        DataTimestamp::from_reading(Some((1_700_000_000, 999_999_999))),
        t(1_700_000_000_999_999_999)
    );
    assert_eq!(
        DataTimestamp::from_reading(Some((u64::MAX, 999_999_999))),
        t(18_446_744_073_709_551_615_999_999_999)
    );
}

#[test]
fn new_log_is_empty_with_the_default_bound() {
    let log = UndoManager::default();
    assert!(log.is_empty());
    assert!(log.is_undo_empty());
    assert!(log.is_redo_empty());
    assert_eq!(log.max_history_size(), Some(200));
    assert_eq!(UndoManager::DEFAULT_MAX_HISTORY, 200);
    assert_eq!(log.timestamp(), DataTimestamp::epoch());
}

#[test]
fn log_moves_entries_between_its_stacks() {
    let mut log = UndoManager::default();
    log.add_undo(add(1.0, 1));
    log.add_undo(add(2.0, 2));
    assert_eq!(log.timestamp(), t(2));
    assert_eq!(log.undo_len(), 2);
    assert_eq!(log.undo().timestamp(), t(2));
    assert_eq!(log.timestamp(), t(1));
    assert_eq!((log.undo_len(), log.redo_len()), (1, 1));
    assert_eq!(log.redo_event(0), &add(2.0, 2));
    assert_eq!(log.undo().timestamp(), t(1));
    assert_eq!(log.timestamp(), DataTimestamp::epoch());
    assert!(log.is_undo_empty() && !log.is_redo_empty() && !log.is_empty());
    assert_eq!(log.redo().timestamp(), t(1));
    assert_eq!(log.timestamp(), t(1));
    assert_eq!(log.undo_event(0), &add(1.0, 1));
    log.add_undo(add(3.0, 3));
    assert!(log.is_redo_empty());
    assert_eq!(log.timestamp(), t(3));
    log.clear_all();
    assert!(log.is_empty());
}

#[test]
fn what_is_written_through_the_returned_entry_stays_in_the_log() {
    let mut log = UndoManager::default();
    log.add_undo(Event::Load(LoadEventData::new(vec![p(1.0)], t(1))));
    match log.undo() {
        Event::Load(data) => data.points = vec![p(2.0), p(3.0)],
        _ => panic!("a load"),
    }
    assert_eq!(log.redo_event(0), &Event::Load(LoadEventData::new(vec![p(2.0), p(3.0)], t(1))));
    match log.redo() {
        Event::Load(data) => data.points.clear(),
        _ => panic!("a load"),
    }
    assert_eq!(log.undo_event(0), &Event::Load(LoadEventData::new(vec![], t(1))));
}

#[test]
fn log_evicts_one_oldest_entry_on_overflow() {
    let mut log = UndoManager::default();
    log.set_max_history_size(Some(2));
    log.add_undo(add(1.0, 1));
    log.add_undo(add(2.0, 2));
    log.add_undo(add(3.0, 3));
    assert_eq!(log.undo_len(), 2);
    assert_eq!(log.undo_event(0), &add(2.0, 2));
    assert_eq!(log.undo_event(1), &add(3.0, 3));
    log.set_max_history_size(None);
    assert_eq!(log.max_history_size(), None);
    assert_eq!(log.undo_len(), 2);
    log.set_max_history_size(Some(0));
    assert!(log.is_undo_empty());
}

#[test]
fn lowering_the_bound_leaves_the_redo_stack() {
    let mut log = UndoManager::default();
    for i in 1..=4 {
        log.add_undo(add(i as f64, i));
    }
    log.undo();
    log.undo();
    log.set_max_history_size(Some(1));
    assert_eq!((log.undo_len(), log.redo_len()), (1, 2));
    assert_eq!(log.undo_event(0), &add(2.0, 2));
}

#[test]
fn log_from_parts_has_the_last_entry_as_the_most_recent() {
    let mut log =
        UndoManager::from_parts(Some(1), vec![add(1.0, 1), add(2.0, 2)], vec![add(4.0, 4), add(3.0, 3)]);
    assert_eq!(log.max_history_size(), Some(1));
    assert_eq!((log.undo_len(), log.redo_len()), (2, 2));
    assert_eq!(log.timestamp(), t(2));
    assert_eq!(log.redo().timestamp(), t(3));
    assert_eq!(log.timestamp(), t(3));
}

#[test]
fn store_from_parts_takes_a_history_that_fits() {
    let undo = vec![
        add(1.0, 1),
        add(2.0, 2),
        Event::Edit(EditEventData::new(p(5.0), p(1.0), 0, t(3))),
        Event::Delete(DeleteEventData::new(1, p(2.0), t(4))),
        Event::Clear(ClearEventData::new(vec![p(5.0)], t(5))),
        Event::Load(LoadEventData::new(vec![], t(6))),
    ];
    let redo = vec![add(8.0, 8), add(7.0, 7)];
    let log = UndoManager::from_parts(None, undo, redo);
    let mut data = Data::from_parts(vec![p(6.0)], Some(3), log).expect("the history fits");
    assert_eq!(data.rounding_decimal_places, Some(3));
    assert_eq!(data.timestamp(), t(6));
    assert_eq!(data.history().undo_len(), 6);
    let mut status = dbv::status_msg::StatusMsg::default();
    data.redo(&mut status);
    data.redo(&mut status);
    assert_eq!(data.points(), &[p(6.0), p(7.0), p(8.0)]);
    while data.has_undo() {
        data.undo(&mut status);
    }
    assert!(data.is_empty());
    assert!(status.is_empty());
}

#[test]
fn store_from_parts_refuses_a_history_that_does_not_fit() {
    let refused = |points: Vec<DataPoint>, undo: Vec<Event>, redo: Vec<Event>| {
        Data::from_parts(points, None, UndoManager::from_parts(None, undo, redo)).is_none()
    };
    assert!(refused(vec![], vec![add(1.0, 1)], vec![]));
    assert!(refused(vec![p(2.0)], vec![add(1.0, 1)], vec![]));
    assert!(!refused(vec![p(1.0)], vec![add(1.0, 1)], vec![]));
    assert!(refused(vec![p(1.0)], vec![Event::Edit(EditEventData::new(p(1.0), p(0.0), 1, t(1)))], vec![]));
    assert!(refused(vec![p(1.0)], vec![Event::Edit(EditEventData::new(p(2.0), p(0.0), 0, t(1)))], vec![]));
    assert!(refused(vec![p(1.0)], vec![Event::Delete(DeleteEventData::new(2, p(0.0), t(1)))], vec![]));
    assert!(!refused(vec![p(1.0)], vec![Event::Delete(DeleteEventData::new(1, p(0.0), t(1)))], vec![]));
    assert!(refused(vec![p(1.0)], vec![Event::Clear(ClearEventData::new(vec![], t(1)))], vec![]));
    assert!(refused(vec![p(1.0)], vec![add(9.0, 1), add(1.0, 2)], vec![]));
    assert!(refused(vec![p(1.0)], vec![], vec![Event::Delete(DeleteEventData::new(0, p(3.0), t(1)))]));
    assert!(refused(vec![p(1.0)], vec![], vec![Event::Edit(EditEventData::new(p(2.0), p(3.0), 0, t(1)))]));
    assert!(refused(vec![p(1.0)], vec![], vec![Event::Clear(ClearEventData::new(vec![p(1.0)], t(1)))]));
    assert!(!refused(vec![p(1.0)], vec![], vec![Event::Clear(ClearEventData::new(vec![], t(1)))]));
    assert!(!refused(vec![], vec![], vec![]));
}
