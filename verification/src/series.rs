//! Bounded history: a sequence that keeps its most recent entries and drops
//! the oldest ones when there are more than the capacity.

use vstd::prelude::*;

verus! {

/// Number of entries that a rolling series keeps.
pub const CAPACITY: usize = 100;

/// The last `n` entries of `s`, or all of `s` where it has no more than `n`.
pub open spec fn most_recent<T>(s: Seq<T>, n: nat) -> Seq<T> {
    if s.len() <= n {
        s
    } else {
        s.subrange(s.len() - n, s.len() as int)
    }
}

/// What a series holds after one more entry arrived.
pub open spec fn pushed<T>(s: Seq<T>, value: T) -> Seq<T> {
    most_recent(s.push(value), CAPACITY as nat)
}

/// What a series holds after the entries of `values` arrived one by one, in order.
pub open spec fn pushed_all<T>(s: Seq<T>, values: Seq<T>) -> Seq<T>
    decreases values.len(),
{
    if values.len() == 0 {
        s
    } else {
        pushed(pushed_all(s, values.drop_last()), values.last())
    }
}

/// What trimming leaves of a sequence: its most recent `CAPACITY` entries,
/// in their order, or all of it where it has no more.
pub open spec fn trimmed<T>(s: Seq<T>) -> Seq<T> {
    most_recent(s, CAPACITY as nat)
}

/// Trimming enforces the capacity and nothing more: what is left has the
/// smaller of the length and the capacity, a sequence within the capacity is
/// left as it is, and trimming twice is trimming once.
pub proof fn lemma_trimmed_enforces_capacity<T>(s: Seq<T>)
    ensures
        trimmed(s).len() == if s.len() <= CAPACITY {
            s.len()
        } else {
            CAPACITY as nat
        },
        s.len() <= CAPACITY ==> trimmed(s) == s,
        trimmed(trimmed(s)) == trimmed(s),
        forall|i: int|
            0 <= i < trimmed(s).len() ==> #[trigger] trimmed(s)[i] == s[s.len() - trimmed(s).len()
                + i],
{
}

/// Keeping the most recent `n` of a sequence and then of its extension by one
/// entry is the same as keeping the most recent `n` of the extension.
pub proof fn lemma_most_recent_push<T>(s: Seq<T>, value: T, n: nat)
    ensures
        most_recent(most_recent(s, n).push(value), n) == most_recent(s.push(value), n),
{
    let a = most_recent(most_recent(s, n).push(value), n);
    let b = most_recent(s.push(value), n);
    assert(a.len() == b.len());
    assert forall|i: int| 0 <= i < a.len() implies a[i] == b[i] by {}
    assert(a =~= b);
}

/// Entries pushed one by one into a series within its capacity leave exactly
/// the most recent `CAPACITY` of everything that was ever in it, oldest first.
pub proof fn lemma_pushed_all_keeps_most_recent<T>(s: Seq<T>, values: Seq<T>)
    requires
        s.len() <= CAPACITY,
    ensures
        pushed_all(s, values) == most_recent(s + values, CAPACITY as nat),
        pushed_all(s, values).len() <= CAPACITY,
    decreases values.len(),
{
    if values.len() == 0 {
        assert(s + values =~= s);
    } else {
        let init = values.drop_last();
        lemma_pushed_all_keeps_most_recent(s, init);
        lemma_most_recent_push(s + init, values.last(), CAPACITY as nat);
        assert((s + init).push(values.last()) =~= s + values);
    }
}

/// A series that was within its capacity before a push loses its oldest
/// entry exactly when it was full, and never another: it grows by one entry
/// up to the capacity, and the entry pushed is its newest.
pub proof fn lemma_pushed_evicts_oldest<T>(s: Seq<T>, value: T)
    requires
        s.len() <= CAPACITY,
    ensures
        s.len() < CAPACITY ==> pushed(s, value) == s.push(value),
        s.len() == CAPACITY ==> pushed(s, value) == s.drop_first().push(value),
        pushed(s, value).len() == if s.len() < CAPACITY {
            s.len() + 1
        } else {
            CAPACITY as nat
        },
        pushed(s, value).last() == value,
{
    if s.len() == CAPACITY {
        assert(pushed(s, value) =~= s.drop_first().push(value));
    } else {
        assert(pushed(s, value) =~= s.push(value));
    }
}

/// Enforces the capacity on a sequence: keeps its most recent `CAPACITY`
/// entries, in their order, and drops the older ones.
pub fn trim<T>(entries: &mut Vec<T>)
    ensures
        final(entries)@ == trimmed(old(entries)@),
        final(entries)@ == most_recent(old(entries)@, CAPACITY as nat),
{
    let len: usize = entries.len();
    if len > CAPACITY {
        let mut kept: Vec<T> = entries.split_off(len - CAPACITY);
        core::mem::swap(entries, &mut kept);
    }
}

/// The most recent entries of a stream, oldest first, at most `CAPACITY` of them.
pub struct RollingSeries<T> {
    entries: Vec<T>,
}

impl<T> View for RollingSeries<T> {
    type V = Seq<T>;

    closed spec fn view(&self) -> Seq<T> {
        self.entries@
    }
}

impl<T> RollingSeries<T> {
    #[verifier::type_invariant]
    spec fn within_capacity(&self) -> bool {
        self.entries@.len() <= CAPACITY
    }

    /// An empty series.
    pub fn new() -> (series: Self)
        ensures
            series@ == Seq::<T>::empty(),
    {
        RollingSeries { entries: Vec::new() }
    }

    /// Number of entries held, never more than `CAPACITY`.
    pub fn len(&self) -> (n: usize)
        ensures
            n == self@.len(),
            n <= CAPACITY,
    {
        proof {
            use_type_invariant(self);
        }
        self.entries.len()
    }

    /// Appends an entry; the oldest entry leaves if the series was full.
    pub fn push(&mut self, value: T)
        ensures
            final(self)@ == pushed(old(self)@, value),
            final(self)@ == trimmed(old(self)@.push(value)),
            final(self)@.len() == if old(self)@.len() < CAPACITY {
                old(self)@.len() + 1
            } else {
                CAPACITY as nat
            },
            final(self)@.last() == value,
    {
        proof {
            use_type_invariant(&*self);
            lemma_pushed_evicts_oldest(self.entries@, value);
        }
        let mut entries: Vec<T> = Vec::new();
        core::mem::swap(&mut self.entries, &mut entries);
        entries.push(value);
        trim(&mut entries);
        core::mem::swap(&mut self.entries, &mut entries);
    }

    /// Appends the entries of `values` one by one, in order.
    pub fn push_all(&mut self, values: Vec<T>)
        ensures
            final(self)@ == pushed_all(old(self)@, values@),
            final(self)@ == most_recent(old(self)@ + values@, CAPACITY as nat),
            final(self)@.len() <= CAPACITY,
    {
        proof {
            use_type_invariant(&*self);
            lemma_pushed_all_keeps_most_recent(self@, values@);
        }
        for value in it: values
            invariant
                self@ == pushed_all(old(self)@, it.seq().take(it.index() as int)),
                it.seq() == values@,
        {
            proof {
                let done = it.seq().take(it.index() as int);
                let next = it.seq().take(it.index() + 1);
                assert(next.drop_last() =~= done);
                assert(next.last() == value);
            }
            self.push(value);
        }
        assert(values@.take(values@.len() as int) =~= values@);
    }

    /// The entries, oldest first.
    pub fn entries(&self) -> (entries: &Vec<T>)
        ensures
            entries@ == self@,
            entries@.len() <= CAPACITY,
    {
        proof {
            use_type_invariant(self);
        }
        &self.entries
    }

    /// The newest entry, if there is one.
    pub fn last(&self) -> (newest: Option<&T>)
        ensures
            self@.len() == 0 ==> newest is None,
            self@.len() > 0 ==> newest == Some(&self@.last()),
    {
        let n: usize = self.entries.len();
        if n == 0 {
            None
        } else {
            Some(&self.entries[n - 1])
        }
    }
}

} // verus!
