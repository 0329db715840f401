//! The list of floating windows that this process believes it has open.

use vstd::prelude::*;

verus! {

/// The entries of `entries` other than `id`, in the order they had.
pub open spec fn without(entries: Seq<Seq<char>>, id: Seq<char>) -> Seq<Seq<char>> {
    entries.filter(|entry: Seq<char>| entry != id)
}

/// The text of each string of `ids`, in order.
pub open spec fn texts(ids: Seq<String>) -> Seq<Seq<char>> {
    ids.map_values(|id: String| id@)
}

/// The identifiers of the floating windows, oldest first.
///
/// An identifier is added when the host has built its window and taken out
/// when the host has closed it. The same identifier may stand in the list
/// more than once: two windows asked for within one millisecond share it.
///
/// The list is never held against the windows that the host really has. It
/// says which windows this process made and has not closed, not which are
/// open.
pub struct WindowRegistry {
    ids: Vec<String>,
}

impl View for WindowRegistry {
    type V = Seq<Seq<char>>;

    closed spec fn view(&self) -> Seq<Seq<char>> {
        texts(self.ids@)
    }
}

impl WindowRegistry {
    /// A registry with no window in it.
    pub fn new() -> (registry: WindowRegistry)
        ensures
            registry@ == Seq::<Seq<char>>::empty(),
    {
        WindowRegistry { ids: Vec::new() }
    }

    /// The number of entries.
    pub fn len(&self) -> (n: usize)
        ensures
            n == self@.len(),
    {
        self.ids.len()
    }

    /// Whether `id` is listed.
    pub fn contains(&self, id: &str) -> (found: bool)
        ensures
            found == self@.contains(id@),
    {
        let wanted = id.to_owned();
        let mut i: usize = 0;
        while i < self.ids.len()
            invariant
                i <= self.ids.len(),
                wanted@ == id@,
                forall|k: int| 0 <= k < i ==> self@[k] != id@,
            decreases self.ids.len() - i,
        {
            if self.ids[i] == wanted {
                assert(self@[i as int] == id@);
                return true;
            }
            i += 1;
        }
        false
    }

    /// Adds `id` behind the entries that are there.
    pub fn record(&mut self, id: String)
        ensures
            final(self)@ == old(self)@.push(id@),
    {
        self.ids.push(id);
        assert(self@ =~= old(self)@.push(id@));
    }

    /// Takes out every entry equal to `id` and keeps the others in their order.
    pub fn forget(&mut self, id: &str)
        ensures
            final(self)@ == without(old(self)@, id@),
    {
        let wanted = id.to_owned();
        let mut kept: Vec<String> = Vec::new();
        let mut i: usize = 0;
        while i < self.ids.len()
            invariant
                i <= self.ids.len(),
                wanted@ == id@,
                self.ids == old(self).ids,
                texts(kept@) == without(self@.take(i as int), id@),
            decreases self.ids.len() - i,
        {
            proof {
                self@.take(i as int).lemma_filter_push(
                    self@[i as int],
                    |entry: Seq<char>| entry != id@,
                );
                assert(self@.take(i as int + 1) =~= self@.take(i as int).push(self@[i as int]));
            }
            if !(self.ids[i] == wanted) {
                let entry = self.ids[i].clone();
                let ghost before = kept@;
                kept.push(entry);
                assert(texts(kept@) =~= texts(before).push(entry@));
            }
            i += 1;
        }
        assert(self@.take(i as int) =~= self@);
        self.ids = kept;
    }

    /// A copy of the entries, oldest first.
    pub fn list(&self) -> (ids: Vec<String>)
        ensures
            texts(ids@) == self@,
    {
        let mut ids: Vec<String> = Vec::new();
        let mut i: usize = 0;
        while i < self.ids.len()
            invariant
                i <= self.ids.len(),
                texts(ids@) == self@.take(i as int),
            decreases self.ids.len() - i,
        {
            let entry = self.ids[i].clone();
            let ghost before = ids@;
            ids.push(entry);
            assert(texts(ids@) =~= texts(before).push(entry@));
            assert(self@.take(i as int + 1) =~= self@.take(i as int).push(self@[i as int]));
            i += 1;
        }
        assert(self@.take(i as int) =~= self@);
        ids
    }
}

} // verus!
