use vstd::prelude::*;

verus! {

/// No stream id occurs twice.
pub open spec fn ids_unique(s: Seq<(i32, bool)>) -> bool {
    forall|i: int, j: int| 0 <= i < j < s.len() ==> s[i].0 != s[j].0
}

/// The stream is known.
pub open spec fn tracks(s: Seq<(i32, bool)>, id: i32) -> bool {
    exists|i: int| 0 <= i < s.len() && s[i].0 == id
}

/// At least one stream is known, and every known stream is closed.
pub open spec fn all_closed_in(s: Seq<(i32, bool)>) -> bool {
    s.len() > 0 && forall|i: int| 0 <= i < s.len() ==> s[i].1
}

/// `new` keeps every entry of `old` at its place, with its id, and a closed
/// stream stays closed; entries are only ever added at the end.
pub open spec fn advances(old: Seq<(i32, bool)>, new: Seq<(i32, bool)>) -> bool {
    &&& old.len() <= new.len()
    &&& forall|i: int| 0 <= i < old.len() ==> #[trigger] new[i].0 == old[i].0 && (old[i].1 ==> new[i].1)
}

/// Which streams have been seen and which of them have closed, in the order
/// in which they were first seen.
pub struct Tracker {
    entries: Vec<(i32, bool)>,
}

impl View for Tracker {
    type V = Seq<(i32, bool)>;

    closed spec fn view(&self) -> Seq<(i32, bool)> {
        self.entries@
    }
}

impl Tracker {
    pub open spec fn wf(&self) -> bool {
        ids_unique(self@)
    }

    /// A tracker that knows no stream.
    pub fn new() -> (r: Tracker)
        ensures
            r.wf(),
            r@ == Seq::<(i32, bool)>::empty(),
    {
        Tracker { entries: Vec::new() }
    }

    /// The number of known streams.
    pub fn len(&self) -> (r: usize)
        ensures
            r == self@.len(),
    {
        self.entries.len()
    }

    /// The closed flag of a stream, if the stream is known.
    pub fn get(&self, id: i32) -> (r: Option<bool>)
        requires
            self.wf(),
        ensures
            r is Some <==> tracks(self@, id),
            r matches Some(b) ==> exists|i: int| 0 <= i < self@.len() && self@[i] == (id, b),
    {
        let mut i: usize = 0;
        while i < self.entries.len()
            invariant
                i <= self.entries@.len(),
                self@ == self.entries@,
                forall|j: int| 0 <= j < i ==> self@[j].0 != id,
            decreases self.entries@.len() - i,
        {
            if self.entries[i].0 == id {
                return Some(self.entries[i].1);
            }
            i = i + 1;
        }
        None
    }

    /// A data chunk arrived on a stream: an unseen stream is added, open.
    pub fn on_data(&mut self, id: i32)
        requires
            old(self).wf(),
        ensures
            final(self).wf(),
            tracks(old(self)@, id) ==> final(self)@ == old(self)@,
            !tracks(old(self)@, id) ==> final(self)@ == old(self)@.push((id, false)),
            advances(old(self)@, final(self)@),
    {
        if self.get(id).is_none() {
            self.entries.push((id, false));
            assert forall|i: int, j: int| 0 <= i < j < self@.len() implies self@[i].0
                != self@[j].0 by {
                if j == self@.len() - 1 {
                    assert(old(self)@[i].0 != id);
                }
            }
        }
    }

    /// A stream closed: its entry, if any, is marked closed.
    pub fn on_close(&mut self, id: i32)
        requires
            old(self).wf(),
        ensures
            final(self).wf(),
            final(self)@.len() == old(self)@.len(),
            forall|i: int|
                0 <= i < old(self)@.len() ==> #[trigger] final(self)@[i] == (
                    old(self)@[i].0,
                    old(self)@[i].1 || old(self)@[i].0 == id,
                ),
            advances(old(self)@, final(self)@),
    {
        let mut i: usize = 0;
        while i < self.entries.len()
            invariant
                i <= self.entries@.len(),
                self.entries@.len() == old(self)@.len(),
                forall|j: int|
                    0 <= j < old(self)@.len() ==> #[trigger] self.entries@[j] == if j < i {
                        (old(self)@[j].0, old(self)@[j].1 || old(self)@[j].0 == id)
                    } else {
                        old(self)@[j]
                    },
            decreases self.entries@.len() - i,
        {
            if self.entries[i].0 == id {
                self.entries.set(i, (id, true));
            }
            i = i + 1;
        }
        assert forall|a: int, b: int| 0 <= a < b < self@.len() implies self@[a].0
            != self@[b].0 by {
            assert(self@[a].0 == old(self)@[a].0);
            assert(self@[b].0 == old(self)@[b].0);
        }
    }

    /// Whether at least one stream is known and every known stream is closed.
    /// An empty tracker never reports that all streams are closed.
    pub fn all_closed(&self) -> (r: bool)
        ensures
            r == all_closed_in(self@),
            self@.len() == 0 ==> !r,
    {
        if self.entries.len() == 0 {
            return false;
        }
        let mut i: usize = 0;
        while i < self.entries.len()
            invariant
                i <= self.entries@.len(),
                self@ == self.entries@,
                forall|j: int| 0 <= j < i ==> self@[j].1,
            decreases self.entries@.len() - i,
        {
            if !self.entries[i].1 {
                return false;
            }
            i = i + 1;
        }
        true
    }
}

} // verus!
