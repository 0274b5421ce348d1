use vstd::prelude::*;

verus! {

/// Keyed storage for the records of one class.  Ids are handed out in
/// creation order and never reused: destroying a record leaves a permanent
/// hole, so an id means the same record for the life of the store.
pub struct Store<T> {
    slots: Vec<Option<T>>,
}

impl<T> View for Store<T> {
    type V = Seq<Option<T>>;

    closed spec fn view(&self) -> Seq<Option<T>> {
        self.slots@
    }
}

impl<T> Store<T> {
    /// The id names a live record.
    pub open spec fn spec_contains(self, id: int) -> bool {
        0 <= id < self@.len() && self@[id] is Some
    }

    pub fn new() -> (s: Store<T>)
        ensures
            s@ =~= Seq::<Option<T>>::empty(),
    {
        Store { slots: Vec::new() }
    }

    /// Creates a record and returns its fresh id.
    pub fn mint(&mut self, data: T) -> (id: usize)
        requires
            old(self)@.len() < usize::MAX,
        ensures
            id == old(self)@.len(),
            final(self)@ == old(self)@.push(Some(data)),
    {
        let id = self.slots.len();
        self.slots.push(Some(data));
        id
    }

    pub fn has(&self, id: usize) -> (b: bool)
        ensures
            b == self.spec_contains(id as int),
    {
        id < self.slots.len() && self.slots[id].is_some()
    }

    /// Borrows a live record.
    pub fn read(&self, id: usize) -> (r: &T)
        requires
            self.spec_contains(id as int),
        ensures
            *r == self@[id as int]->0,
    {
        self.slots[id].as_ref().unwrap()
    }

    /// Removes a live record and hands it to the caller, leaving a hole.
    pub fn take(&mut self, id: usize) -> (r: T)
        requires
            old(self).spec_contains(id as int),
        ensures
            r == old(self)@[id as int]->0,
            final(self)@ == old(self)@.update(id as int, None),
    {
        let slot = &mut self.slots[id];
        let v = slot.take();
        v.unwrap()
    }

    /// Stores a record back under an existing id.
    pub fn put(&mut self, id: usize, data: T)
        requires
            id < old(self)@.len(),
        ensures
            final(self)@ == old(self)@.update(id as int, Some(data)),
    {
        let slot = &mut self.slots[id];
        *slot = Some(data);
    }

    /// Destroys a live record.
    pub fn burn(&mut self, id: usize)
        requires
            old(self).spec_contains(id as int),
        ensures
            final(self)@ == old(self)@.update(id as int, None),
    {
        let _ = self.take(id);
    }

    pub fn len(&self) -> (n: usize)
        ensures
            n == self@.len(),
    {
        self.slots.len()
    }
}

} // verus!
