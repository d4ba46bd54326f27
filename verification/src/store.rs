//! Sparse stores of one attribute each, keyed by entity id.

use std::collections::VecDeque;
use vstd::prelude::*;

verus! {

/// The values of one attribute: for each id handed out so far, the value
/// of the entity with that id, if it has one.
#[derive(Clone, Debug)]
pub struct CompStore<T> {
    pub store: Vec<Option<T>>,
}

impl<T> View for CompStore<T> {
    type V = Seq<Option<T>>;

    open spec fn view(&self) -> Seq<Option<T>> {
        self.store@
    }
}

/// The value that `s` holds for `id`; none for an id that was never
/// handed out.
pub open spec fn lookup<T>(s: Seq<Option<T>>, id: int) -> Option<T> {
    if 0 <= id < s.len() {
        s[id]
    } else {
        None
    }
}

impl<T: Copy> CompStore<T> {
    pub fn new() -> (s: CompStore<T>)
        ensures
            s@ == Seq::<Option<T>>::empty(),
    {
        CompStore { store: Vec::new() }
    }

    /// The number of ids that the store knows.
    pub fn len(&self) -> (n: usize)
        ensures
            n == self@.len(),
    {
        self.store.len()
    }

    /// Makes room for one more id, without a value.
    pub fn grow(&mut self)
        ensures
            final(self)@ == old(self)@.push(None),
    {
        self.store.push(None);
    }

    /// The value of `id`, if it has one.
    pub fn get(&self, id: usize) -> (r: Option<T>)
        ensures
            r == lookup(self@, id as int),
    {
        if id < self.store.len() {
            self.store[id]
        } else {
            None
        }
    }

    /// Whether `id` has a value.
    pub fn contains(&self, id: usize) -> (b: bool)
        ensures
            b == lookup(self@, id as int).is_some(),
    {
        self.get(id).is_some()
    }

    /// Gives `id` the value `value`.
    pub fn insert(&mut self, id: usize, value: T)
        requires
            id < old(self)@.len(),
        ensures
            final(self)@ == old(self)@.update(id as int, Some(value)),
    {
        self.store.set(id, Some(value));
    }

    /// Gives `id` the value `value`, or none.
    pub fn put(&mut self, id: usize, value: Option<T>)
        requires
            id < old(self)@.len(),
        ensures
            final(self)@ == old(self)@.update(id as int, value),
    {
        self.store.set(id, value);
    }

    /// Takes the value of `id` away; an id without a value stays so.
    pub fn remove(&mut self, id: usize)
        ensures
            final(self)@ == if id < old(self)@.len() {
                old(self)@.update(id as int, None)
            } else {
                old(self)@
            },
    {
        if id < self.store.len() {
            self.store.set(id, None);
        }
    }
}

/// The values of one attribute that is a queue: for each id handed out so
/// far, the queue of the entity with that id, if it has one.
#[derive(Clone, Debug)]
pub struct QueueStore<T> {
    pub store: Vec<Option<VecDeque<T>>>,
}

impl<T> View for QueueStore<T> {
    type V = Seq<Option<Seq<T>>>;

    open spec fn view(&self) -> Seq<Option<Seq<T>>> {
        Seq::new(
            self.store@.len(),
            |i: int|
                match self.store@[i] {
                    Some(q) => Some(q@),
                    None => None,
                },
        )
    }
}

impl<T: Copy> QueueStore<T> {
    pub fn new() -> (s: QueueStore<T>)
        ensures
            s@ == Seq::<Option<Seq<T>>>::empty(),
    {
        let s = QueueStore { store: Vec::new() };
        assert(s@ =~= Seq::<Option<Seq<T>>>::empty());
        s
    }

    /// The number of ids that the store knows.
    pub fn len(&self) -> (n: usize)
        ensures
            n == self@.len(),
    {
        self.store.len()
    }

    /// Makes room for one more id, without a queue.
    pub fn grow(&mut self)
        ensures
            final(self)@ == old(self)@.push(None),
    {
        self.store.push(None);
        assert(self@ =~= old(self)@.push(None));
    }

    /// Whether `id` has a queue.
    pub fn contains(&self, id: usize) -> (b: bool)
        ensures
            b == lookup(self@, id as int).is_some(),
    {
        if id < self.store.len() {
            self.store[id].is_some()
        } else {
            false
        }
    }

    /// The length of the queue of `id`; zero if it has none.
    pub fn queue_len(&self, id: usize) -> (n: usize)
        ensures
            n == match lookup(self@, id as int) {
                Some(q) => q.len(),
                None => 0,
            },
    {
        if id < self.store.len() {
            match &self.store[id] {
                Some(q) => q.len(),
                None => 0,
            }
        } else {
            0
        }
    }

    /// The item at the place `index` of the queue of `id`.
    pub fn item(&self, id: usize, index: usize) -> (r: T)
        requires
            lookup(self@, id as int) matches Some(q) && index < q.len(),
        ensures
            r == lookup(self@, id as int)->0[index as int],
    {
        match &self.store[id] {
            Some(q) => q[index],
            None => vstd::pervasive::unreached(),
        }
    }

    /// Replaces the queue of `id` by the empty queue.
    pub fn insert_empty(&mut self, id: usize)
        requires
            id < old(self)@.len(),
        ensures
            final(self)@ == old(self)@.update(id as int, Some(Seq::<T>::empty())),
    {
        self.store.set(id, Some(VecDeque::new()));
        assert(self@ =~= old(self)@.update(id as int, Some(Seq::<T>::empty())));
    }

    /// Takes the queue of `id` away.
    pub fn remove(&mut self, id: usize)
        ensures
            final(self)@ == if id < old(self)@.len() {
                old(self)@.update(id as int, None)
            } else {
                old(self)@
            },
    {
        if id < self.store.len() {
            self.store.set(id, None);
            assert(self@ =~= old(self)@.update(id as int, None));
        } else {
            assert(self@ =~= old(self)@);
        }
    }

    /// Appends `value` to the queue of `id`.
    pub fn push_back(&mut self, id: usize, value: T)
        requires
            lookup(old(self)@, id as int) is Some,
        ensures
            final(self)@ == old(self)@.update(
                id as int,
                Some(lookup(old(self)@, id as int)->0.push(value)),
            ),
    {
        let mut slot: Option<VecDeque<T>> = None;
        self.store.set_and_swap(id, &mut slot);
        match slot {
            Some(mut q) => {
                q.push_back(value);
                self.store.set(id, Some(q));
            },
            None => {},
        }
        assert(self@ =~= old(self)@.update(
            id as int,
            Some(lookup(old(self)@, id as int)->0.push(value)),
        ));
    }

    /// Puts `value` at the head of the queue of `id`.
    pub fn push_front(&mut self, id: usize, value: T)
        requires
            lookup(old(self)@, id as int) is Some,
        ensures
            final(self)@ == old(self)@.update(
                id as int,
                Some(seq![value] + lookup(old(self)@, id as int)->0),
            ),
    {
        let mut slot: Option<VecDeque<T>> = None;
        self.store.set_and_swap(id, &mut slot);
        match slot {
            Some(mut q) => {
                q.push_front(value);
                self.store.set(id, Some(q));
            },
            None => {},
        }
        assert(self@ =~= old(self)@.update(
            id as int,
            Some(seq![value] + lookup(old(self)@, id as int)->0),
        ));
    }

    /// Takes the item at the place `index` out of the queue of `id`.
    pub fn remove_at(&mut self, id: usize, index: usize)
        requires
            lookup(old(self)@, id as int) matches Some(q) && index < q.len(),
        ensures
            final(self)@ == old(self)@.update(
                id as int,
                Some(lookup(old(self)@, id as int)->0.remove(index as int)),
            ),
    {
        let mut slot: Option<VecDeque<T>> = None;
        self.store.set_and_swap(id, &mut slot);
        match slot {
            Some(mut q) => {
                q.remove(index);
                self.store.set(id, Some(q));
            },
            None => {},
        }
        assert(self@ =~= old(self)@.update(
            id as int,
            Some(lookup(old(self)@, id as int)->0.remove(index as int)),
        ));
    }

    /// Empties the queue of `id`, if it has one.
    pub fn clear(&mut self, id: usize)
        ensures
            final(self)@ == if lookup(old(self)@, id as int) is Some {
                old(self)@.update(id as int, Some(Seq::<T>::empty()))
            } else {
                old(self)@
            },
    {
        if self.contains(id) {
            self.insert_empty(id);
        }
    }
}

} // verus!
