use vstd::prelude::*;

verus! {

/// Issues increasing numeric identifiers, never the same one twice.
pub struct Counter {
    next_value: u32,
}

impl Counter {
    /// The identifier that the next call of `next` hands out.
    pub closed spec fn upcoming(&self) -> nat {
        self.next_value as nat
    }

    /// Whether another identifier can still be issued without wrapping around.
    pub open spec fn can_issue(&self) -> bool {
        self.upcoming() < u32::MAX
    }

    /// One call of `next` took the counter from `pre` to `post` and returned `id`.
    pub open spec fn issued(pre: Counter, post: Counter, id: u32) -> bool {
        &&& id as nat == pre.upcoming()
        &&& post.upcoming() == pre.upcoming() + 1
    }

    /// A counter whose first identifier is 1.
    pub fn new() -> (r: Counter)
        ensures
            r.upcoming() == 1,
    {
        Counter { next_value: 1 }
    }

    /// A counter whose first identifier is `start`.
    pub fn new_with_start(start: u32) -> (r: Counter)
        ensures
            r.upcoming() == start,
    {
        Counter { next_value: start }
    }

    /// The identifier that the next call of `next` will return.
    pub fn peek(&self) -> (r: u32)
        ensures
            r as nat == self.upcoming(),
    {
        self.next_value
    }

    /// Returns a fresh identifier and advances the counter.
    pub fn next(&mut self) -> (id: u32)
        requires
            old(self).can_issue(),
        ensures
            Counter::issued(*old(self), *final(self), id),
    {
        let id = self.next_value;
        self.next_value = self.next_value + 1;
        id
    }
}

/// Identifiers handed out by successive calls of `next` strictly increase,
/// so no two of them are equal.
pub proof fn lemma_issued_ids_increase(states: Seq<Counter>, ids: Seq<u32>)
    requires
        states.len() == ids.len() + 1,
        forall|k: int| 0 <= k < ids.len() ==> #[trigger] Counter::issued(states[k], states[k + 1], ids[k]),
    ensures
        forall|i: int, j: int| 0 <= i < j < ids.len() ==> ids[i] < ids[j],
        forall|i: int, j: int| 0 <= i < ids.len() && 0 <= j < ids.len() && i != j ==> ids[i] != ids[j],
{
    assert forall|i: int, j: int| 0 <= i < j < ids.len() implies ids[i] < ids[j] by {
        lemma_upcoming_grows(states, ids, i, j);
        assert(Counter::issued(states[i], states[i + 1], ids[i]));
        assert(Counter::issued(states[j], states[j + 1], ids[j]));
    }
    assert forall|i: int, j: int| 0 <= i < ids.len() && 0 <= j < ids.len() && i != j implies ids[i] != ids[j] by {
        assert(Counter::issued(states[i], states[i + 1], ids[i]));
        assert(Counter::issued(states[j], states[j + 1], ids[j]));
        if i < j {
            lemma_upcoming_grows(states, ids, i, j);
        } else {
            lemma_upcoming_grows(states, ids, j, i);
        }
    }
}

proof fn lemma_upcoming_grows(states: Seq<Counter>, ids: Seq<u32>, i: int, j: int)
    requires
        states.len() == ids.len() + 1,
        forall|k: int| 0 <= k < ids.len() ==> #[trigger] Counter::issued(states[k], states[k + 1], ids[k]),
        0 <= i < j <= ids.len(),
    ensures
        states[j].upcoming() >= states[i].upcoming() + (j - i),
    decreases j - i,
{
    let k = j - 1;
    assert(Counter::issued(states[k], states[k + 1], ids[k]));
    if i < j - 1 {
        lemma_upcoming_grows(states, ids, i, j - 1);
    }
}

} // verus!
