use vstd::prelude::*;

use crate::text::same_text;

verus! {

/// The correlation ids of requests sent to one connection whose responses
/// are still awaited.
pub struct PendingResponses {
    callbacks: Vec<String>,
}

impl View for PendingResponses {
    type V = Set<Seq<char>>;

    closed spec fn view(&self) -> Set<Seq<char>> {
        Set::new(|c: Seq<char>| exists|i: int| 0 <= i < self.callbacks@.len() && #[trigger] self.callbacks@[i]@ == c)
    }
}

impl PendingResponses {
    pub closed spec fn well_formed(&self) -> bool {
        forall|i: int, j: int|
            0 <= i < self.callbacks@.len() && 0 <= j < self.callbacks@.len() && #[trigger] self.callbacks@[i]@
                == #[trigger] self.callbacks@[j]@ ==> i == j
    }

    /// No request is awaited.
    pub fn new() -> (r: PendingResponses)
        ensures
            r.well_formed(),
            r@ == Set::<Seq<char>>::empty(),
    {
        let r = PendingResponses { callbacks: Vec::new() };
        assert(r@ =~= Set::<Seq<char>>::empty());
        r
    }

    fn find(&self, correlation_id: &str) -> (r: Option<usize>)
        ensures
            r matches Some(i) ==> i < self.callbacks@.len() && self.callbacks@[i as int]@ == correlation_id@,
            r is None ==> !self@.contains(correlation_id@),
    {
        let mut i: usize = 0;
        while i < self.callbacks.len()
            invariant
                i <= self.callbacks@.len(),
                forall|j: int| 0 <= j < i ==> #[trigger] self.callbacks@[j]@ != correlation_id@,
            decreases self.callbacks@.len() - i,
        {
            if same_text(self.callbacks[i].as_str(), correlation_id) {
                return Some(i);
            }
            i = i + 1;
        }
        None
    }

    /// Whether a response under `correlation_id` is awaited.
    pub fn contains(&self, correlation_id: &str) -> (r: bool)
        ensures
            r == self@.contains(correlation_id@),
    {
        match self.find(correlation_id) {
            Some(i) => {
                assert(self@.contains(correlation_id@) <==> exists|j: int|
                    0 <= j < self.callbacks@.len() && #[trigger] self.callbacks@[j]@ == correlation_id@);
                assert(self.callbacks@[i as int]@ == correlation_id@);
                true
            },
            None => false,
        }
    }

    /// Awaits a response under `correlation_id`.
    pub fn insert(&mut self, correlation_id: String)
        requires
            old(self).well_formed(),
        ensures
            final(self).well_formed(),
            final(self)@ == old(self)@.insert(correlation_id@),
    {
        match self.find(correlation_id.as_str()) {
            Some(i) => {
                assert(self@.contains(correlation_id@) <==> exists|j: int|
                    0 <= j < self.callbacks@.len() && #[trigger] self.callbacks@[j]@ == correlation_id@);
                assert(self.callbacks@[i as int]@ == correlation_id@);
                assert(self@ =~= old(self)@.insert(correlation_id@));
            },
            None => {
                let ghost before = self.callbacks@;
                self.callbacks.push(correlation_id);
                assert forall|c: Seq<char>| #[trigger] self@.contains(c) == old(self)@.insert(correlation_id@).contains(c) by {
                    if c == correlation_id@ {
                        assert(self.callbacks@[before.len() as int]@ == c);
                    }
                    if old(self)@.contains(c) {
                        let j = choose|j: int| 0 <= j < before.len() && #[trigger] before[j]@ == c;
                        assert(self.callbacks@[j]@ == c);
                    }
                    if self@.contains(c) {
                        let j = choose|j: int| 0 <= j < self.callbacks@.len() && #[trigger] self.callbacks@[j]@ == c;
                        if j < before.len() {
                            assert(before[j]@ == c);
                        }
                    }
                }
                assert(self@ =~= old(self)@.insert(correlation_id@));
            },
        }
    }

    /// Completes the awaited response under `correlation_id`: true, and no
    /// longer awaited, when it was awaited; false, with nothing changed,
    /// otherwise.
    pub fn complete(&mut self, correlation_id: &str) -> (r: bool)
        requires
            old(self).well_formed(),
        ensures
            final(self).well_formed(),
            r == old(self)@.contains(correlation_id@),
            final(self)@ == old(self)@.remove(correlation_id@),
    {
        match self.find(correlation_id) {
            None => {
                assert(self@ =~= old(self)@.remove(correlation_id@));
                false
            },
            Some(k) => {
                let ghost before = self.callbacks@;
                let _ = self.callbacks.remove(k);
                assert(old(self)@.contains(correlation_id@) <==> exists|j: int|
                    0 <= j < before.len() && #[trigger] before[j]@ == correlation_id@);
                assert(before[k as int]@ == correlation_id@);
                assert forall|i: int, j: int|
                    0 <= i < self.callbacks@.len() && 0 <= j < self.callbacks@.len() && #[trigger] self.callbacks@[i]@
                        == #[trigger] self.callbacks@[j]@ implies i == j by {
                    let a = if i < k { i } else { i + 1 };
                    let b = if j < k { j } else { j + 1 };
                    assert(before[a]@ == before[b]@);
                }
                assert forall|c: Seq<char>| #[trigger] self@.contains(c) == old(self)@.remove(correlation_id@).contains(c) by {
                    if self@.contains(c) {
                        let j = choose|j: int| 0 <= j < self.callbacks@.len() && #[trigger] self.callbacks@[j]@ == c;
                        let a = if j < k { j } else { j + 1 };
                        assert(before[a]@ == c);
                        assert(a != k);
                    }
                    if old(self)@.remove(correlation_id@).contains(c) {
                        let j = choose|j: int| 0 <= j < before.len() && #[trigger] before[j]@ == c;
                        assert(j != k);
                        let b = if j < k { j } else { j - 1 };
                        assert(self.callbacks@[b]@ == c);
                    }
                }
                assert(self@ =~= old(self)@.remove(correlation_id@));
                true
            },
        }
    }
}

} // verus!
