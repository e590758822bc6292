//! Rolling history of sensor readings: a bounded ring buffer whose logical
//! index 0 is always the oldest retained reading. Once full, each insertion
//! evicts exactly the oldest entry.

use vstd::prelude::*;

verus! {

/// Physical slot of logical position `i` in a ring of `cap` slots whose
/// oldest entry sits at physical index `start`.
pub open spec fn ring_slot(start: int, i: int, cap: int) -> int {
    if start + i < cap {
        start + i
    } else {
        start + i - cap
    }
}

/// What a ring of capacity `cap` retains after the insertions `inserted`,
/// oldest first: all of them while they fit, otherwise the last `cap`.
pub open spec fn retained_model(cap: nat, inserted: Seq<u16>) -> Seq<u16> {
    if inserted.len() <= cap {
        inserted
    } else {
        inserted.skip(inserted.len() - cap)
    }
}

/// The maximum over a sequence of readings, 0 for an empty one.
pub open spec fn seq_max_u16(s: Seq<u16>) -> u16
    decreases s.len(),
{
    if s.len() == 0 {
        0
    } else if s.len() == 1 {
        s[0]
    } else {
        let rest = seq_max_u16(s.drop_last());
        if s.last() > rest {
            s.last()
        } else {
            rest
        }
    }
}

/// The maximum of a nonempty sequence is one of its entries and bounds
/// every entry.
pub proof fn lemma_seq_max_properties(s: Seq<u16>)
    requires
        s.len() > 0,
    ensures
        s.contains(seq_max_u16(s)),
        forall|i: int| 0 <= i < s.len() ==> s[i] <= seq_max_u16(s),
    decreases s.len(),
{
    if s.len() == 1 {
        assert(s.contains(seq_max_u16(s))) by {
            assert(s[0] == seq_max_u16(s));
        }
    } else {
        let rest = s.drop_last();
        lemma_seq_max_properties(rest);
        if s.last() > seq_max_u16(rest) {
            assert(s.contains(seq_max_u16(s))) by {
                assert(s[s.len() - 1] == seq_max_u16(s));
            }
        } else {
            assert(s.contains(seq_max_u16(s))) by {
                let i = choose|i: int| 0 <= i < rest.len() && rest[i] == seq_max_u16(rest);
                assert(s[i] == seq_max_u16(s));
            }
        }
        assert forall|i: int| 0 <= i < s.len() implies s[i] <= seq_max_u16(s) by {
            if i < s.len() - 1 {
                assert(rest[i] == s[i]);
            }
        }
    }
}

/// An entry that bounds every entry is the maximum.
pub proof fn lemma_seq_max_characterization(s: Seq<u16>, m: u16)
    requires
        s.contains(m),
        forall|i: int| 0 <= i < s.len() ==> s[i] <= m,
    ensures
        m == seq_max_u16(s),
{
    lemma_seq_max_properties(s);
    let i = choose|i: int| 0 <= i < s.len() && s[i] == m;
    let x = seq_max_u16(s);
    let j = choose|j: int| 0 <= j < s.len() && s[j] == x;
    assert(s[i] <= x);
    assert(s[j] <= m);
}

/// Bounded time-series of 16-bit readings with oldest-first access.
pub struct History {
    slots: Vec<u16>,
    start: usize,
    count: usize,
}

impl View for History {
    type V = Seq<u16>;

    /// The retained readings, oldest first.
    closed spec fn view(&self) -> Seq<u16> {
        Seq::new(
            self.count as nat,
            |i: int| self.slots@[ring_slot(self.start as int, i, self.slots@.len() as int)],
        )
    }
}

impl History {
    /// Number of slots the ring was created with.
    pub closed spec fn capacity(&self) -> nat {
        self.slots@.len()
    }

    pub closed spec fn wf(&self) -> bool {
        &&& self.slots@.len() >= 1
        &&& (self.start as int) < self.slots@.len()
        &&& (self.count as int) <= self.slots@.len()
    }

    /// A well-formed history has at least one slot and never retains more
    /// readings than it has slots.
    pub proof fn lemma_wf_bounds(&self)
        requires
            self.wf(),
        ensures
            self.capacity() >= 1,
            self@.len() <= self.capacity(),
    {
    }

    /// A fresh, empty history of `capacity` slots, as the retention region
    /// holds after a cold boot.
    pub fn new(capacity: usize) -> (h: History)
        requires
            capacity >= 1,
        ensures
            h.wf(),
            h.capacity() == capacity,
            h@ == Seq::<u16>::empty(),
    {
        let mut slots: Vec<u16> = Vec::new();
        while slots.len() < capacity
            invariant
                slots@.len() <= capacity,
            decreases capacity - slots.len(),
        {
            slots.push(0);
        }
        let h = History { slots, start: 0, count: 0 };
        proof {
            assert(h@ =~= Seq::<u16>::empty());
        }
        h
    }

    /// Number of currently retained readings.
    pub fn len(&self) -> (n: usize)
        ensures
            n == self@.len(),
    {
        self.count
    }

    /// Exec mirror of `capacity`.
    pub fn capacity_slots(&self) -> (c: usize)
        ensures
            c == self.capacity(),
    {
        self.slots.len()
    }

    /// The reading at logical position `i`, oldest first.
    pub fn at(&self, i: usize) -> (v: u16)
        requires
            self.wf(),
            i < self@.len(),
        ensures
            v == self@[i as int],
    {
        let cap = self.slots.len();
        let j = if i < cap - self.start {
            self.start + i
        } else {
            i - (cap - self.start)
        };
        self.slots[j]
    }

    /// Appends a reading; once the ring is full, the oldest entry is evicted.
    /// Never fails.
    pub fn add_measurement(&mut self, value: u16)
        requires
            old(self).wf(),
        ensures
            final(self).wf(),
            final(self).capacity() == old(self).capacity(),
            old(self)@.len() < old(self).capacity() ==> final(self)@ == old(self)@.push(value),
            old(self)@.len() == old(self).capacity() ==> final(self)@ == old(self)@.subrange(
                1,
                old(self)@.len() as int,
            ).push(value),
    {
        let cap = self.slots.len();
        if self.count < cap {
            let j = if self.count < cap - self.start {
                self.start + self.count
            } else {
                self.count - (cap - self.start)
            };
            self.slots.set(j, value);
            self.count = self.count + 1;
            proof {
                assert(self@ =~= old(self)@.push(value));
            }
        } else {
            self.slots.set(self.start, value);
            self.start = if self.start + 1 < cap {
                self.start + 1
            } else {
                0
            };
            proof {
                assert(self@ =~= old(self)@.subrange(1, old(self)@.len() as int).push(value));
            }
        }
    }

    /// The maximum retained reading, used for display scaling; absent exactly
    /// when the history is empty.
    pub fn max_value(&self) -> (r: Option<u16>)
        requires
            self.wf(),
        ensures
            match r {
                Some(m) => self@.len() > 0 && m == seq_max_u16(self@) && self@.contains(m)
                    && forall|i: int| 0 <= i < self@.len() ==> self@[i] <= m,
                None => self@.len() == 0,
            },
    {
        if self.count == 0 {
            return None;
        }
        let mut best: u16 = self.at(0);
        let ghost mut witness: int = 0;
        let mut k: usize = 1;
        while k < self.count
            invariant
                self.wf(),
                1 <= k <= self.count,
                self.count == self@.len(),
                0 <= witness < self@.len(),
                self@[witness] == best,
                forall|i: int| 0 <= i < k ==> self@[i] <= best,
            decreases self.count - k,
        {
            let v = self.at(k);
            if v > best {
                best = v;
                proof {
                    witness = k as int;
                }
            }
            k = k + 1;
        }
        proof {
            assert(self@.contains(best)) by {
                assert(self@[witness] == best);
            }
            lemma_seq_max_characterization(self@, best);
        }
        Some(best)
    }

    /// Oldest-to-newest projection for plotting: logical positions paired
    /// with the readings, a read-only view of the retained data.
    pub fn data_for_display(&self) -> (r: (Vec<usize>, Vec<u16>))
        requires
            self.wf(),
        ensures
            r.1@ == self@,
            r.0@.len() == self@.len(),
            forall|i: int| 0 <= i < self@.len() ==> r.0@[i] == i,
    {
        let mut positions: Vec<usize> = Vec::new();
        let mut values: Vec<u16> = Vec::new();
        let mut k: usize = 0;
        while k < self.count
            invariant
                self.wf(),
                k <= self.count,
                self.count == self@.len(),
                positions@.len() == k as nat,
                values@.len() == k as nat,
                forall|i: int| 0 <= i < k ==> positions@[i] == i,
                forall|i: int| 0 <= i < k ==> values@[i] == self@[i],
            decreases self.count - k,
        {
            positions.push(k);
            values.push(self.at(k));
            k = k + 1;
        }
        proof {
            assert(values@ =~= self@);
        }
        (positions, values)
    }
}

/// After any insertions `inserted` into a ring of capacity `cap`, the ring
/// retains the smaller of the two counts, and retained entry `i` is the
/// insertion `inserted.len() - retained.len() + i`: below capacity that is
/// insertion `i` itself; above it, entry 0 is insertion `inserted.len() - cap`
/// (the oldest retained) and the last entry is the newest insertion.
pub proof fn lemma_retained_model(cap: nat, inserted: Seq<u16>)
    requires
        cap >= 1,
    ensures
        retained_model(cap, inserted).len() == if inserted.len() <= cap {
            inserted.len()
        } else {
            cap
        },
        forall|i: int| 0 <= i < retained_model(cap, inserted).len() ==> retained_model(
            cap,
            inserted,
        )[i] == inserted[inserted.len() - retained_model(cap, inserted).len() + i],
{
}

/// One more insertion moves the retained-content model exactly as
/// `add_measurement` moves the History view: appended while the ring is
/// below capacity, otherwise the oldest entry dropped and the new one
/// appended.
pub proof fn lemma_retained_model_step(cap: nat, inserted: Seq<u16>, value: u16)
    requires
        cap >= 1,
    ensures
        retained_model(cap, inserted).len() < cap ==> retained_model(cap, inserted.push(value))
            == retained_model(cap, inserted).push(value),
        retained_model(cap, inserted).len() == cap ==> retained_model(cap, inserted.push(value))
            == retained_model(cap, inserted).subrange(1, cap as int).push(value),
{
    if inserted.len() < cap {
        assert(retained_model(cap, inserted.push(value)) =~= retained_model(cap, inserted).push(
            value,
        ));
    } else {
        assert(retained_model(cap, inserted.push(value)) =~= retained_model(cap, inserted).subrange(
            1,
            cap as int,
        ).push(value));
    }
}

} // verus!
