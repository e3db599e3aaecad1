//! The bounded list of sessions a player took part in.
use vstd::prelude::*;

verus! {

/// How many session identities a player's index holds.
pub const SESSION_INDEX_CAPACITY: usize = 10;

/// The sessions a player took part in, oldest first, at most
/// `SESSION_INDEX_CAPACITY` of them. What goes beyond the capacity is
/// dropped, never rotated in.
pub struct SessionIndex {
    ids: Vec<String>,
}

impl View for SessionIndex {
    type V = Seq<String>;

    closed spec fn view(&self) -> Seq<String> {
        self.ids@
    }
}

impl SessionIndex {
    /// The index never holds more than its capacity.
    pub open spec fn wf(&self) -> bool {
        self@.len() <= SESSION_INDEX_CAPACITY
    }

    pub fn new() -> (r: SessionIndex)
        ensures
            r.wf(),
            r@ == Seq::<String>::empty(),
    {
        SessionIndex { ids: Vec::new() }
    }

    /// The index as read from a stored list: its first
    /// `SESSION_INDEX_CAPACITY` entries.
    pub fn from_stored(stored: Vec<String>) -> (r: SessionIndex)
        ensures
            r.wf(),
            r@ == if stored@.len() <= SESSION_INDEX_CAPACITY {
                stored@
            } else {
                stored@.take(SESSION_INDEX_CAPACITY as int)
            },
    {
        let mut ids = stored;
        ids.truncate(SESSION_INDEX_CAPACITY);
        SessionIndex { ids }
    }

    /// Appends `id` while there is room; a full index stays as it is.
    pub fn push(&mut self, id: String) -> (r: bool)
        requires
            old(self).wf(),
        ensures
            final(self).wf(),
            r == (old(self)@.len() < SESSION_INDEX_CAPACITY),
            final(self)@ == if r { old(self)@.push(id) } else { old(self)@ },
    {
        if self.ids.len() < SESSION_INDEX_CAPACITY {
            self.ids.push(id);
            true
        } else {
            false
        }
    }

    pub fn len(&self) -> (r: usize)
        requires
            self.wf(),
        ensures
            r == self@.len(),
            r <= SESSION_INDEX_CAPACITY,
    {
        self.ids.len()
    }

    /// The identities, oldest first.
    pub fn ids(&self) -> (r: &Vec<String>)
        ensures
            r@ == self@,
    {
        &self.ids
    }

    /// One slot per place of the index, `None` past its end.
    pub fn to_slots(&self) -> (r: Vec<Option<String>>)
        requires
            self.wf(),
        ensures
            r@.len() == SESSION_INDEX_CAPACITY,
            forall|i: int|
                0 <= i < SESSION_INDEX_CAPACITY ==> #[trigger] r@[i] == if i < self@.len() {
                    Some(self@[i])
                } else {
                    None
                },
    {
        let mut slots: Vec<Option<String>> = Vec::new();
        let mut i: usize = 0;
        while i < SESSION_INDEX_CAPACITY
            invariant
                i <= SESSION_INDEX_CAPACITY,
                self.ids.len() <= SESSION_INDEX_CAPACITY,
                slots@.len() == i,
                forall|j: int|
                    0 <= j < i ==> #[trigger] slots@[j] == if j < self@.len() {
                        Some(self@[j])
                    } else {
                        None
                    },
            decreases SESSION_INDEX_CAPACITY - i,
        {
            if i < self.ids.len() {
                slots.push(Some(self.ids[i].clone()));
            } else {
                slots.push(None);
            }
            i += 1;
        }
        slots
    }
}

} // verus!
