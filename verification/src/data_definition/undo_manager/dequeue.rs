use std::collections::VecDeque;
use vstd::prelude::*;

verus! {

/// A double-ended queue that is pushed and popped at its newest end and can
/// give up its oldest item. Its view lists the items from oldest to newest.
#[derive(Debug, PartialEq)]
pub struct Deque<T> {
    data: VecDeque<T>,
}

impl<T> View for Deque<T> {
    type V = Seq<T>;

    closed spec fn view(&self) -> Seq<T> {
        self.data@
    }
}

/// `VecDeque::back_mut`: a mutable reference to the newest item, `None` for an
/// empty queue. Whatever the caller writes through the reference is the newest
/// item afterwards; the other items stay as they are.
#[verifier::external_body]
fn newest_mut<T>(queue: &mut VecDeque<T>) -> (r: Option<&mut T>)
    ensures
        old(queue)@.len() == 0 ==> r.is_none() && final(queue)@ == old(queue)@,
        old(queue)@.len() > 0 ==> r.is_some() && *r.unwrap() == old(queue)@.last() && final(queue)@
            == old(queue)@.update(old(queue)@.len() - 1, *final(r.unwrap())),
{
    queue.back_mut()
}

impl<T> Default for Deque<T> {
    fn default() -> (r: Self)
        ensures
            r@ == Seq::<T>::empty(),
    {
        Self { data: VecDeque::new() }
    }
}

impl<T> Deque<T> {
    pub fn push(&mut self, value: T)
        ensures
            final(self)@ == old(self)@.push(value),
    {
        self.data.push_back(value);
    }

    pub fn pop(&mut self) -> (r: Option<T>)
        ensures
            old(self)@.len() == 0 ==> r.is_none() && final(self)@ == old(self)@,
            old(self)@.len() > 0 ==> r == Some(old(self)@.last()) && final(self)@ == old(self)@.drop_last(),
    {
        self.data.pop_back()
    }

    pub fn clear(&mut self)
        ensures
            final(self)@ == Seq::<T>::empty(),
    {
        self.data.clear()
    }

    pub fn is_empty(&self) -> (r: bool)
        ensures
            r == (self@.len() == 0),
    {
        self.data.len() == 0
    }

    /// A mutable reference to the item that `pop` would take.
    pub fn peek_mut(&mut self) -> (r: Option<&mut T>)
        ensures
            old(self)@.len() == 0 ==> r.is_none() && final(self)@ == old(self)@,
            old(self)@.len() > 0 ==> r.is_some() && *r.unwrap() == old(self)@.last() && final(self)@ == old(self)@.update(old(self)@.len() - 1, *final(r.unwrap())),
    {
        newest_mut(&mut self.data)
    }

    /// The item that `pop` would take.
    pub fn peek(&self) -> (r: Option<&T>)
        ensures
            self@.len() == 0 ==> r.is_none(),
            self@.len() > 0 ==> r == Some(&self@.last()),
    {
        let len = self.data.len();
        if len == 0 {
            None
        } else {
            Some(&self.data[len - 1])
        }
    }

    pub fn remove_oldest(&mut self) -> (r: Option<T>)
        ensures
            old(self)@.len() == 0 ==> r.is_none() && final(self)@ == old(self)@,
            old(self)@.len() > 0 ==> r == Some(old(self)@.first()) && final(self)@ == old(self)@.subrange(1, old(self)@.len() as int),
    {
        self.data.pop_front()
    }

    pub fn len(&self) -> (r: usize)
        ensures
            r == self@.len(),
    {
        self.data.len()
    }

    /// The item at `index`, counted from the oldest.
    pub fn get(&self, index: usize) -> (r: &T)
        requires
            index < self@.len(),
        ensures
            *r == self@[index as int],
    {
        &self.data[index]
    }

    /// A queue of the items of `items`, the last of them as its newest.
    pub fn from_vec(items: Vec<T>) -> (r: Self)
        ensures
            r@ == items@,
    {
        let mut items = items;
        let ghost given = items@;
        let mut reversed: Vec<T> = Vec::new();
        while items.len() > 0
            invariant
                items@.len() + reversed@.len() == given.len(),
                items@ == given.subrange(0, items@.len() as int),
                forall|i: int|
                    0 <= i < reversed@.len() ==> #[trigger] reversed@[i] == given[given.len() - 1
                        - i],
            decreases items@.len(),
        {
            let item = items.pop().unwrap();
            reversed.push(item);
        }
        let mut queue = Self { data: VecDeque::new() };
        while reversed.len() > 0
            invariant
                queue@.len() + reversed@.len() == given.len(),
                forall|i: int|
                    0 <= i < reversed@.len() ==> #[trigger] reversed@[i] == given[given.len() - 1
                        - i],
                queue@ == given.subrange(0, queue@.len() as int),
            decreases reversed@.len(),
        {
            let ghost at = queue@.len() as int;
            let item = reversed.pop().unwrap();
            assert(item == given[at]);
            queue.push(item);
            assert(queue@ =~= given.subrange(0, at + 1));
        }
        assert(queue@ =~= given);
        queue
    }
}

} // verus!
