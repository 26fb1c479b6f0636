//! The counter rebasing ledger: the last raw value seen per jail, and the
//! rule that turns a resettable raw counter into a non-decreasing total.
use vstd::prelude::*;

verus! {

/// The increase credited when the raw counter moves from `old` to `new`: the
/// difference while it grows, and the whole new value after it fell (the
/// counter restarted from zero).
pub open spec fn rebase_delta_spec(old: int, new: int) -> int {
    if new >= old {
        new - old
    } else {
        new
    }
}

/// Computes the increase credited when the raw counter moves from `old` to
/// `new`.
pub fn rebase_delta(old: u64, new: u64) -> (r: u64)
    ensures
        r as int == rebase_delta_spec(old as int, new as int),
        r <= new,
{
    if new >= old {
        new - old
    } else {
        new
    }
}

/// Last raw value seen, per jail name. Entries are created on first sight
/// and never removed.
pub struct Ledger {
    entries: Vec<(String, u64)>,
    book: Ghost<Map<Seq<char>, u64>>,
}

/// The value that a book holds for a name, zero where it holds none.
pub open spec fn book_at(book: Map<Seq<char>, u64>, name: Seq<char>) -> int {
    if book.dom().contains(name) {
        book[name] as int
    } else {
        0
    }
}

impl Ledger {
    /// The last raw value seen, by jail name.
    pub closed spec fn view(&self) -> Map<Seq<char>, u64> {
        self.book@
    }

    /// Names are unique among the entries, and the entries are the book.
    pub closed spec fn wf(&self) -> bool {
        &&& forall|i: int, j: int|
            0 <= i < j < self.entries@.len() ==> self.entries@[i].0@ != self.entries@[j].0@
        &&& forall|i: int|
            0 <= i < self.entries@.len() ==> #[trigger] self.book@.contains_key(self.entries@[i].0@)
                && self.book@[self.entries@[i].0@] == self.entries@[i].1
        &&& forall|k: Seq<char>|
            #[trigger] self.book@.contains_key(k) ==> exists|i: int|
                0 <= i < self.entries@.len() && self.entries@[i].0@ == k
    }

    /// An empty ledger.
    pub fn new() -> (r: Ledger)
        ensures
            r.wf(),
            r@ == Map::<Seq<char>, u64>::empty(),
    {
        Ledger { entries: Vec::new(), book: Ghost(Map::empty()) }
    }

    /// Position of the entry for `name`, if there is one.
    fn find(&self, name: &String) -> (r: Option<usize>)
        requires
            self.wf(),
        ensures
            r is Some ==> r->Some_0 < self.entries@.len() && self.entries@[r->Some_0 as int].0@ == name@,
            r is None ==> !self@.contains_key(name@),
    {
        let mut i: usize = 0;
        while i < self.entries.len()
            invariant
                self.wf(),
                i <= self.entries@.len(),
                forall|j: int| 0 <= j < i ==> self.entries@[j].0@ != name@,
            decreases self.entries@.len() - i,
        {
            if self.entries[i].0 == *name {
                return Some(i);
            }
            i = i + 1;
        }
        None
    }

    /// Whether a raw value was seen for `name`.
    pub fn contains(&self, name: &String) -> (r: bool)
        requires
            self.wf(),
        ensures
            r == self@.contains_key(name@),
    {
        self.find(name).is_some()
    }

    /// The last raw value seen for `name`, zero if none was.
    pub fn get(&self, name: &String) -> (r: u64)
        requires
            self.wf(),
        ensures
            r as int == book_at(self@, name@),
    {
        match self.find(name) {
            Some(i) => self.entries[i].1,
            None => 0,
        }
    }

    /// Records `value` as the last raw value seen for `name`.
    pub fn record(&mut self, name: &String, value: u64)
        requires
            old(self).wf(),
        ensures
            final(self).wf(),
            final(self)@ == old(self)@.insert(name@, value),
    {
        match self.find(name) {
            Some(i) => {
                self.entries.set(i, (name.clone(), value));
                self.book = Ghost(self.book@.insert(name@, value));
                assert forall|k: Seq<char>| #[trigger] self.book@.contains_key(k) implies exists|j: int|
                    0 <= j < self.entries@.len() && self.entries@[j].0@ == k by {
                    if k != name@ {
                        let j = choose|j: int| 0 <= j < old(self).entries@.len() && old(self).entries@[j].0@ == k;
                        assert(self.entries@[j].0@ == k);
                    } else {
                        assert(self.entries@[i as int].0@ == k);
                    }
                }
            },
            None => {
                self.entries.push((name.clone(), value));
                self.book = Ghost(self.book@.insert(name@, value));
                assert forall|k: Seq<char>| #[trigger] self.book@.contains_key(k) implies exists|j: int|
                    0 <= j < self.entries@.len() && self.entries@[j].0@ == k by {
                    if k != name@ {
                        let j = choose|j: int| 0 <= j < old(self).entries@.len() && old(self).entries@[j].0@ == k;
                        assert(self.entries@[j].0@ == k);
                    } else {
                        assert(self.entries@[self.entries@.len() - 1].0@ == k);
                    }
                }
            },
        }
    }
}

} // verus!
