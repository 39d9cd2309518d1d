//! The broker's set of connected device IDs: one entry per connected peer.
use vstd::prelude::*;
use crate::text::same_text;

verus! {

/// IDs of the peers that currently have a session.
pub struct ConnectedSet {
    ids: Vec<String>,
}

impl View for ConnectedSet {
    type V = Seq<Seq<char>>;

    closed spec fn view(&self) -> Seq<Seq<char>> {
        self.ids@.map_values(|s: String| s@)
    }
}

impl ConnectedSet {
    /// Well-formed: no ID is held twice.
    pub open spec fn wf(&self) -> bool {
        self@.no_duplicates()
    }

    /// An empty set.
    pub fn new() -> (r: ConnectedSet)
        ensures
            r.wf(),
            r@.len() == 0,
    {
        ConnectedSet { ids: Vec::new() }
    }

    pub fn len(&self) -> (r: usize)
        ensures
            r == self@.len(),
    {
        self.ids.len()
    }

    /// Whether `id` is connected.
    pub fn contains(&self, id: &str) -> (r: bool)
        ensures
            r == self@.contains(id@),
    {
        let mut i: usize = 0;
        while i < self.ids.len()
            invariant
                i <= self@.len(),
                self@.len() == self.ids@.len(),
                forall|j: int| 0 <= j < i ==> self@[j] != id@,
            decreases self@.len() - i,
        {
            if same_text(self.ids[i].as_str(), id) {
                assert(self@[i as int] == id@);
                return true;
            }
            i = i + 1;
        }
        false
    }

    /// Admits `id` unless it is already connected; says whether it was admitted.
    pub fn try_insert(&mut self, id: String) -> (r: bool)
        requires
            old(self).wf(),
        ensures
            final(self).wf(),
            r == !old(self)@.contains(id@),
            r ==> final(self)@ == old(self)@.push(id@),
            !r ==> final(self)@ == old(self)@,
    {
        if self.contains(id.as_str()) {
            return false;
        }
        let ghost before = self@;
        let ghost idv = id@;
        self.ids.push(id);
        assert(self@ == before.push(idv));
        assert(self@.no_duplicates()) by {
            assert forall|i: int, j: int|
                0 <= i < self@.len() && 0 <= j < self@.len() && i != j implies self@[i]
                != self@[j] by {
                if i < before.len() && j < before.len() {
                } else if i == before.len() {
                    assert(before[j] != idv);
                } else {
                    assert(before[i] != idv);
                }
            }
        }
        true
    }

    /// Forgets `id`; every other entry stays, in order.
    pub fn remove(&mut self, id: &str)
        requires
            old(self).wf(),
        ensures
            final(self).wf(),
            !final(self)@.contains(id@),
            final(self)@ == old(self)@.filter(|x: Seq<char>| x != id@),
    {
        let ghost before = self@;
        let mut kept: Vec<String> = Vec::new();
        let mut i: usize = 0;
        let n = self.ids.len();
        while i < n
            invariant
                n == self.ids@.len(),
                self@ == before,
                before.no_duplicates(),
                i <= n,
                kept@.map_values(|s: String| s@) == before.subrange(0, i as int).filter(
                    |x: Seq<char>| x != id@,
                ),
                kept@.map_values(|s: String| s@).no_duplicates(),
                forall|a: int|
                    0 <= a < kept@.len() ==> exists|b: int|
                        0 <= b < i && before[b] == (#[trigger] kept@[a])@,
                forall|a: int| 0 <= a < kept@.len() ==> (#[trigger] kept@[a])@ != id@,
            decreases n - i,
        {
            let ghost prev = kept@;
            assert(before.subrange(0, i + 1) == before.subrange(0, i as int).push(before[i as int]));
            assert(before.subrange(0, i + 1).drop_last() == before.subrange(0, i as int));
            reveal(Seq::filter);
            if !same_text(self.ids[i].as_str(), id) {
                kept.push(self.ids[i].clone());
                assert(kept@ == prev.push(self.ids@[i as int]));
                assert(kept@.map_values(|s: String| s@) == prev.map_values(|s: String| s@).push(
                    before[i as int],
                ));
                assert forall|a: int|
                    0 <= a < kept@.len() implies exists|b: int|
                        0 <= b < i + 1 && before[b] == (#[trigger] kept@[a])@ by {
                    if a < prev.len() {
                        assert(kept@[a] == prev[a]);
                    } else {
                        assert(before[i as int] == kept@[a]@);
                    }
                }
                assert(kept@.map_values(|s: String| s@).no_duplicates()) by {
                    let kv = kept@.map_values(|s: String| s@);
                    assert forall|x: int, y: int|
                        0 <= x < kv.len() && 0 <= y < kv.len() && x != y implies kv[x]
                        != kv[y] by {
                        if x < prev.len() && y < prev.len() {
                            assert(kv[x] == prev.map_values(|s: String| s@)[x]);
                            assert(kv[y] == prev.map_values(|s: String| s@)[y]);
                        } else if x == prev.len() {
                            assert(kv[y] == prev[y]@);
                            let b = choose|b: int| 0 <= b < i && before[b] == (#[trigger] prev[y])@;
                            assert(before[b] != before[i as int]);
                        } else {
                            assert(kv[x] == prev[x]@);
                            let b = choose|b: int| 0 <= b < i && before[b] == (#[trigger] prev[x])@;
                            assert(before[b] != before[i as int]);
                        }
                    }
                }
            }
            i = i + 1;
        }
        assert(before.subrange(0, n as int) == before);
        self.ids = kept;
        proof {
            if self@.contains(id@) {
                let k = choose|k: int| 0 <= k < self@.len() && self@[k] == id@;
                assert(self.ids@[k]@ != id@);
            }
        }
    }

    /// A copy of the connected IDs, in the order they were admitted.
    pub fn ids(&self) -> (r: Vec<String>)
        ensures
            r@.map_values(|s: String| s@) == self@,
    {
        let mut out: Vec<String> = Vec::new();
        let mut i: usize = 0;
        while i < self.ids.len()
            invariant
                i <= self.ids@.len(),
                out@ == self.ids@.subrange(0, i as int),
            decreases self.ids@.len() - i,
        {
            out.push(self.ids[i].clone());
            i = i + 1;
        }
        assert(out@ == self.ids@);
        out
    }
}

/// In a well-formed set an ID occupies at most one position.
pub proof fn lemma_at_most_one_entry(s: ConnectedSet, id: Seq<char>, i: int, j: int)
    requires
        s.wf(),
        0 <= i < s@.len(),
        0 <= j < s@.len(),
        s@[i] == id,
        s@[j] == id,
    ensures
        i == j,
{
}

} // verus!
