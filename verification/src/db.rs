//! The bounded connection pool, modelled over plain values: a fixed set of
//! slots, each either free or checked out. A checkout hands back an owned
//! handle naming the slot it occupies; the handle must be released to free the
//! slot. The physical connections and the blocking-with-timeout wait live with
//! the database driver outside the library; this model carries the checkout
//! discipline and its invariant.

use vstd::prelude::*;

verus! {

/// The diagnostic a timed-out checkout reports.
pub const POOL_TIMEOUT_MESSAGE: &'static str = "timed out waiting for a free connection";

/// Why a checkout failed.
#[derive(Debug, PartialEq, Eq)]
pub enum PoolError {
    /// No connection could be handed out before the internal timeout: the
    /// pool is exhausted or the backend is unavailable.
    Unavailable(String),
}

/// An owned, scope-bound handle to one pooled connection. While it exists, no
/// other borrower holds the same slot.
#[derive(Debug, PartialEq, Eq)]
pub struct Connection {
    /// The pool slot this handle occupies.
    pub slot: usize,
}

/// How many slots of a pool are checked out.
pub open spec fn checked_out_count(s: Seq<bool>) -> int
    decreases s.len(),
{
    if s.len() == 0 {
        0
    } else {
        checked_out_count(s.drop_last()) + if s.last() { 1int } else { 0int }
    }
}

/// A successful checkout against a pool: the handle took a slot that was
/// free, and only that slot changed.
pub open spec fn acquired(pre: Seq<bool>, post: Seq<bool>, slot: int) -> bool {
    &&& 0 <= slot < pre.len()
    &&& !pre[slot]
    &&& post == pre.update(slot, true)
}

/// Bounded pool of database connections.
#[derive(Debug, PartialEq, Eq)]
pub struct ConnectionPool {
    /// One entry per connection; true while its connection is checked out.
    slots: Vec<bool>,
}

impl ConnectionPool {
    /// The slot states, for specification purposes.
    pub closed spec fn view(&self) -> Seq<bool> {
        self.slots@
    }

    /// Builds a pool of `max_size` connections, all free.
    pub fn new(max_size: usize) -> (r: ConnectionPool)
        ensures
            r@.len() == max_size,
            forall|i: int| 0 <= i < max_size ==> !r@[i],
            checked_out_count(r@) == 0,
    {
        let mut slots: Vec<bool> = Vec::new();
        while slots.len() < max_size
            invariant
                slots@.len() <= max_size,
                forall|i: int| 0 <= i < slots@.len() ==> !slots@[i],
                checked_out_count(slots@) == 0,
            decreases max_size - slots.len(),
        {
            proof {
                lemma_count_push(slots@, false);
            }
            slots.push(false);
        }
        ConnectionPool { slots }
    }

    /// How many connections the pool owns in total.
    pub fn capacity(&self) -> (r: usize)
        ensures
            r == self@.len(),
    {
        self.slots.len()
    }

    /// How many connections are currently checked out.
    pub fn checked_out(&self) -> (r: usize)
        ensures
            r == checked_out_count(self@),
    {
        proof {
            lemma_count_bounds(self@);
        }
        let mut count: usize = 0;
        let mut i: usize = 0;
        while i < self.slots.len()
            invariant
                i <= self.slots@.len(),
                count == checked_out_count(self.slots@.take(i as int)),
                count <= i,
            decreases self.slots@.len() - i,
        {
            proof {
                assert(self.slots@.take(i + 1).drop_last() =~= self.slots@.take(i as int));
            }
            if self.slots[i] {
                count = count + 1;
            }
            i = i + 1;
        }
        proof {
            assert(self.slots@.take(self.slots@.len() as int) =~= self.slots@);
        }
        count
    }

    /// Whether a slot exists and its connection is currently checked out.
    pub fn is_checked_out(&self, slot: usize) -> (r: bool)
        ensures
            r == (slot < self@.len() && self@[slot as int]),
    {
        slot < self.slots.len() && self.slots[slot]
    }

    /// Checks one connection out. Succeeds exactly when a free slot exists;
    /// on success the returned handle owns a slot that was free and is now
    /// checked out, and no other slot changes. On failure the pool is
    /// unchanged and the error says the pool was unavailable.
    pub fn acquire(&mut self) -> (r: Result<Connection, PoolError>)
        ensures
            r is Ok <==> exists|i: int| 0 <= i < old(self)@.len() && !old(self)@[i],
            r matches Ok(c) ==> acquired(old(self)@, final(self)@, c.slot as int),
            r matches Ok(c) ==> checked_out_count(final(self)@)
                == checked_out_count(old(self)@) + 1,
            r is Err ==> final(self)@ == old(self)@,
            r matches Err(PoolError::Unavailable(m)) ==> m@ == POOL_TIMEOUT_MESSAGE@,
    {
        let mut i: usize = 0;
        while i < self.slots.len()
            invariant
                i <= self.slots@.len(),
                self.slots@ == old(self).slots@,
                forall|j: int| 0 <= j < i ==> self.slots@[j],
            decreases self.slots@.len() - i,
        {
            if !self.slots[i] {
                proof {
                    lemma_count_update(self.slots@, i as int, true);
                    assert(0 <= (i as int) < old(self)@.len() && !old(self)@[i as int]);
                }
                self.slots[i] = true;
                return Ok(Connection { slot: i });
            }
            i = i + 1;
        }
        Err(PoolError::Unavailable(String::from_str(POOL_TIMEOUT_MESSAGE)))
    }

    /// Returns a checked-out connection to the pool, freeing its slot and
    /// touching no other.
    pub fn release(&mut self, connection: Connection)
        requires
            connection.slot < old(self)@.len(),
            old(self)@[connection.slot as int],
        ensures
            final(self)@ == old(self)@.update(connection.slot as int, false),
            checked_out_count(final(self)@) == checked_out_count(old(self)@) - 1,
    {
        proof {
            lemma_count_update(self.slots@, connection.slot as int, false);
        }
        self.slots[connection.slot] = false;
    }
}

/// Pushing a slot state onto the pool adds one to the checked-out count when
/// it is checked out and nothing otherwise.
pub proof fn lemma_count_push(s: Seq<bool>, b: bool)
    ensures
        checked_out_count(s.push(b)) == checked_out_count(s) + if b { 1int } else { 0int },
{
    assert(s.push(b).drop_last() =~= s);
}

/// The checked-out count never falls below zero nor exceeds the capacity: at
/// most as many connections are checked out simultaneously as the pool owns.
pub proof fn lemma_count_bounds(s: Seq<bool>)
    ensures
        0 <= checked_out_count(s) <= s.len(),
    decreases s.len(),
{
    if s.len() > 0 {
        lemma_count_bounds(s.drop_last());
    }
}

/// Changing one slot changes the checked-out count by exactly the difference
/// the new state makes.
pub proof fn lemma_count_update(s: Seq<bool>, i: int, b: bool)
    requires
        0 <= i < s.len(),
    ensures
        checked_out_count(s.update(i, b)) == checked_out_count(s)
            - (if s[i] { 1int } else { 0int }) + (if b { 1int } else { 0int }),
    decreases s.len(),
{
    let u = s.update(i, b);
    if i == s.len() - 1 {
        assert(u.drop_last() =~= s.drop_last());
    } else {
        assert(u.drop_last() =~= s.drop_last().update(i, b));
        lemma_count_update(s.drop_last(), i, b);
    }
}

/// A pool with as many connections checked out as it owns has no free slot:
/// once the capacity is reached a further checkout is refused, never
/// over-committed.
pub proof fn lemma_full_pool_has_no_free_slot(s: Seq<bool>)
    requires
        checked_out_count(s) == s.len(),
    ensures
        forall|i: int| 0 <= i < s.len() ==> s[i],
    decreases s.len(),
{
    if s.len() > 0 {
        lemma_count_bounds(s.drop_last());
        lemma_full_pool_has_no_free_slot(s.drop_last());
        assert forall|i: int| 0 <= i < s.len() implies s[i] by {
            if i < s.len() - 1 {
                assert(s.drop_last()[i]);
            }
        }
    }
}

/// Releasing a connection always leaves a free slot, so the next checkout
/// after a release succeeds: a waiting borrower is never starved by the pool
/// itself once another borrower finishes.
pub proof fn lemma_release_enables_checkout(s: Seq<bool>, slot: int)
    requires
        0 <= slot < s.len(),
        s[slot],
    ensures
        exists|i: int| 0 <= i < s.update(slot, false).len() && !s.update(slot, false)[i],
{
    assert(!s.update(slot, false)[slot]);
}

/// Two checkouts in a row never hand out the same slot: a connection is owned
/// by at most one borrower until it is released.
pub proof fn lemma_borrowers_exclusive(
    s0: Seq<bool>,
    s1: Seq<bool>,
    s2: Seq<bool>,
    first: int,
    second: int,
)
    requires
        acquired(s0, s1, first),
        acquired(s1, s2, second),
    ensures
        first != second,
{
}

} // verus!
