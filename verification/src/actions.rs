use crate::errors::GameError;
use vstd::prelude::*;

verus! {

/// A deferred effect, applied when simulation time reaches `trigger_time`
/// (milliseconds).  `period == Some(p)` makes the action recurring: each
/// firing re-schedules it at `trigger_time + p` (saturating at the top of
/// the time range).  A non-recurring action is removed once it fires.
#[derive(Clone, Copy, PartialEq, Eq, Debug)]
pub struct ScheduledAction {
    /// Stable identity assigned by the gameplay layer.
    pub id: u64,
    /// Simulation time (ms) at or after which the action fires.
    pub trigger_time: u64,
    /// `Some(p)`: fire again every `p` milliseconds; `None`: fire once.
    pub period: Option<u64>,
}

/// The capability a timed action exposes: when it first fires, and whether
/// it recurs.  `ScheduledAction` is the one concrete owner of this
/// capability in the closed action vocabulary.
pub trait TimedAction {
    /// The simulation time (ms) at or after which the action fires.
    fn trigger_time(&self) -> u64;

    /// `Some(p)` when the action fires again every `p` milliseconds.
    fn period(&self) -> Option<u64>;
}

impl TimedAction for ScheduledAction {
    fn trigger_time(&self) -> u64 {
        self.trigger_time
    }

    fn period(&self) -> Option<u64> {
        self.period
    }
}

/// Entries ordered by trigger time; among equal trigger times, insertion
/// order (FIFO stability).
pub open spec fn sorted_by_trigger(s: Seq<ScheduledAction>) -> bool {
    forall|i: int, j: int|
        0 <= i <= j < s.len() ==> #[trigger] s[i].trigger_time <= #[trigger] s[j].trigger_time
}

/// How many entries at the front of a trigger-sorted sequence have a
/// trigger time at or before `now`.  On a sorted sequence this is also the
/// position at which a new entry with trigger time `now` is inserted so
/// that earlier entries with the same trigger time stay in front of it.
pub open spec fn due_prefix_len(s: Seq<ScheduledAction>, now: u64) -> int
    decreases s.len(),
{
    if s.len() == 0 {
        0
    } else if s[0].trigger_time <= now {
        1 + due_prefix_len(s.drop_first(), now)
    } else {
        0
    }
}

/// Saturating addition on simulation times.
pub open spec fn spec_sat_add_u64(a: u64, b: u64) -> u64 {
    if a + b > u64::MAX {
        u64::MAX
    } else {
        (a + b) as u64
    }
}

/// A recurring action as it is re-scheduled after firing: the same action,
/// one period later.
pub open spec fn renewed(a: ScheduledAction, p: u64) -> ScheduledAction {
    ScheduledAction { id: a.id, trigger_time: spec_sat_add_u64(a.trigger_time, p), period: a.period }
}

/// The queue contents after one fired action has been handled: a recurring
/// action is inserted back one period later, a one-shot action is gone.
pub open spec fn requeue_step(rest: Seq<ScheduledAction>, a: ScheduledAction) -> Seq<ScheduledAction> {
    match a.period {
        Some(p) => rest.insert(due_prefix_len(rest, renewed(a, p).trigger_time), renewed(a, p)),
        None => rest,
    }
}

/// The queue contents after every fired action in `due` has been handled,
/// in firing order.
pub open spec fn requeued(rest: Seq<ScheduledAction>, due: Seq<ScheduledAction>) -> Seq<ScheduledAction>
    decreases due.len(),
{
    if due.len() == 0 {
        rest
    } else {
        requeue_step(requeued(rest, due.drop_last()), due.last())
    }
}

/// The due-prefix length lies within the sequence, everything before it is
/// due and everything after it is not.
pub proof fn lemma_due_prefix_len_bounds(s: Seq<ScheduledAction>, now: u64)
    requires
        sorted_by_trigger(s),
    ensures
        0 <= due_prefix_len(s, now) <= s.len(),
        forall|k: int| 0 <= k < due_prefix_len(s, now) ==> s[k].trigger_time <= now,
        forall|k: int| due_prefix_len(s, now) <= k < s.len() ==> s[k].trigger_time > now,
    decreases s.len(),
{
    if s.len() == 0 {
    } else if s[0].trigger_time <= now {
        let rest = s.drop_first();
        assert forall|i: int, j: int| 0 <= i <= j < rest.len() implies #[trigger] rest[i].trigger_time
            <= #[trigger] rest[j].trigger_time by {
            assert(rest[i] == s[i + 1]);
            assert(rest[j] == s[j + 1]);
        }
        lemma_due_prefix_len_bounds(rest, now);
        assert forall|k: int| 0 <= k < due_prefix_len(s, now) implies s[k].trigger_time <= now by {
            if k > 0 {
                assert(rest[k - 1] == s[k]);
            }
        }
        assert forall|k: int| due_prefix_len(s, now) <= k < s.len() implies s[k].trigger_time
            > now by {
            assert(rest[k - 1] == s[k]);
        }
    } else {
        assert forall|k: int| 0 <= k < s.len() implies s[k].trigger_time > now by {
            assert(s[0].trigger_time <= s[k].trigger_time);
        }
    }
}

/// The due-prefix length is the unique split point: if everything before
/// `i` is due and the entry at `i` (if any) is not, then `i` is it.
pub proof fn lemma_due_prefix_len_unique(s: Seq<ScheduledAction>, now: u64, i: int)
    requires
        sorted_by_trigger(s),
        0 <= i <= s.len(),
        forall|k: int| 0 <= k < i ==> s[k].trigger_time <= now,
        i < s.len() ==> s[i].trigger_time > now,
    ensures
        due_prefix_len(s, now) == i,
{
    lemma_due_prefix_len_bounds(s, now);
    let p = due_prefix_len(s, now);
    if p < i {
        assert(s[p].trigger_time <= now);
        assert(s[p].trigger_time > now);
    }
    if p > i {
        assert(s[i].trigger_time <= now);
        assert(s[i].trigger_time > now);
    }
}

/// Inserting an entry at its due-prefix position keeps the sequence sorted.
pub proof fn lemma_insert_keeps_sorted(s: Seq<ScheduledAction>, a: ScheduledAction)
    requires
        sorted_by_trigger(s),
    ensures
        sorted_by_trigger(s.insert(due_prefix_len(s, a.trigger_time), a)),
{
    lemma_due_prefix_len_bounds(s, a.trigger_time);
    let p = due_prefix_len(s, a.trigger_time);
    let t = s.insert(p, a);
    assert forall|i: int, j: int| 0 <= i <= j < t.len() implies #[trigger] t[i].trigger_time
        <= #[trigger] t[j].trigger_time by {
        if i < p {
            assert(t[i] == s[i]);
        } else if i > p {
            assert(t[i] == s[i - 1]);
        }
        if j < p {
            assert(t[j] == s[j]);
        } else if j > p {
            assert(t[j] == s[j - 1]);
        }
    }
}

/// The capacity-bounded queue of timed actions, kept sorted by trigger
/// time with FIFO stability among equal trigger times.
pub struct ActionQueue {
    entries: Vec<ScheduledAction>,
    max_actions: u32,
}

impl View for ActionQueue {
    type V = Seq<ScheduledAction>;

    closed spec fn view(&self) -> Seq<ScheduledAction> {
        self.entries@
    }
}

impl ActionQueue {
    /// The configured capacity bound.
    pub closed spec fn capacity(&self) -> u32 {
        self.max_actions
    }

    /// The queue invariant: entries sorted by trigger time, count within
    /// the configured bound.
    pub open spec fn wf(&self) -> bool {
        &&& sorted_by_trigger(self@)
        &&& self@.len() <= self.capacity()
    }

    /// An empty queue bounded by `max_actions`.
    pub fn new(max_actions: u32) -> (q: ActionQueue)
        ensures
            q@ == Seq::<ScheduledAction>::empty(),
            q.capacity() == max_actions,
            q.wf(),
    {
        ActionQueue { entries: Vec::new(), max_actions }
    }

    /// How many actions are queued.
    pub fn len(&self) -> (n: usize)
        ensures
            n == self@.len(),
    {
        self.entries.len()
    }

    /// The queued action at index `i`, front of the queue first.
    pub fn get(&self, i: usize) -> (a: &ScheduledAction)
        requires
            i < self@.len(),
        ensures
            *a == self@[i as int],
    {
        &self.entries[i]
    }

    /// The configured capacity bound.
    pub fn max_actions(&self) -> (n: u32)
        ensures
            n == self.capacity(),
    {
        self.max_actions
    }

    /// Inserts `a` before every queued entry with a later trigger time and
    /// after every entry with the same or an earlier one.
    #[verifier::loop_isolation(false)]
    fn insert_sorted(&mut self, a: ScheduledAction)
        requires
            sorted_by_trigger(old(self)@),
        ensures
            final(self)@ == old(self)@.insert(
                due_prefix_len(old(self)@, a.trigger_time),
                a,
            ),
            sorted_by_trigger(final(self)@),
            final(self).capacity() == old(self).capacity(),
            final(self)@.len() == old(self)@.len() + 1,
    {
        let ghost s0 = self.entries@;
        let mut i: usize = 0;
        while i < self.entries.len() && self.entries[i].trigger_time <= a.trigger_time
            invariant
                i <= s0.len(),
                forall|k: int| 0 <= k < i ==> s0[k].trigger_time <= a.trigger_time,
            decreases s0.len() - i,
        {
            i += 1;
        }
        proof {
            lemma_due_prefix_len_unique(s0, a.trigger_time, i as int);
            lemma_insert_keeps_sorted(s0, a);
        }
        self.entries.insert(i, a);
    }

    /// Adds an action to the queue.  Succeeds exactly when the queue is
    /// below its capacity bound; a full queue reports `CapacityExceeded`
    /// and is left unchanged.  The new entry lands behind every entry whose
    /// trigger time is the same or earlier, preserving FIFO stability.
    pub fn schedule(&mut self, a: ScheduledAction) -> (r: Result<(), GameError>)
        requires
            old(self).wf(),
        ensures
            final(self).wf(),
            final(self).capacity() == old(self).capacity(),
            old(self)@.len() < old(self).capacity() ==> r is Ok && final(self)@ == old(
                self,
            )@.insert(due_prefix_len(old(self)@, a.trigger_time), a),
            old(self)@.len() >= old(self).capacity() ==> r == Err::<(), GameError>(
                GameError::CapacityExceeded,
            ) && final(self)@ == old(self)@,
    {
        if self.entries.len() >= self.max_actions as usize {
            return Err(GameError::CapacityExceeded);
        }
        self.insert_sorted(a);
        Ok(())
    }

    /// Removes and returns, in trigger-time order (ties in insertion
    /// order), every action whose trigger time has been reached.  Each
    /// returned recurring action is re-scheduled one period later; within
    /// one drain no action fires twice, even if its renewed trigger time
    /// has also been reached already.
    #[verifier::loop_isolation(false)]
    pub fn drain_due(&mut self, now: u64) -> (due: Vec<ScheduledAction>)
        requires
            old(self).wf(),
        ensures
            final(self).wf(),
            final(self).capacity() == old(self).capacity(),
            due@ == old(self)@.take(due_prefix_len(old(self)@, now)),
            forall|k: int| 0 <= k < due@.len() ==> due@[k].trigger_time <= now,
            final(self)@ == requeued(old(self)@.skip(due_prefix_len(old(self)@, now)), due@),
    {
        let ghost s0 = self.entries@;
        let mut due: Vec<ScheduledAction> = Vec::new();
        while self.entries.len() > 0 && self.entries[0].trigger_time <= now
            invariant
                due@.len() <= s0.len(),
                s0 == due@ + self.entries@,
                due@ == s0.take(due@.len() as int),
                forall|k: int| 0 <= k < due@.len() ==> due@[k].trigger_time <= now,
                self.capacity() == old(self).capacity(),
            decreases self.entries@.len(),
        {
            let a = self.entries.remove(0);
            due.push(a);
            proof {
                assert(due@ =~= s0.take(due@.len() as int));
                assert(s0 =~= due@ + self.entries@);
            }
        }
        proof {
            assert forall|k: int| 0 <= k < due@.len() implies s0[k].trigger_time <= now by {
                assert(s0[k] == due@[k]);
            }
            if self.entries@.len() > 0 {
                assert(s0[due@.len() as int] == self.entries@[0]);
            }
            lemma_due_prefix_len_unique(s0, now, due@.len() as int);
            assert(self.entries@ =~= s0.skip(due@.len() as int));
            assert forall|i: int, j: int|
                0 <= i <= j < self.entries@.len() implies #[trigger] self.entries@[i].trigger_time
                <= #[trigger] self.entries@[j].trigger_time by {
                assert(self.entries@[i] == s0[due@.len() + i]);
                assert(self.entries@[j] == s0[due@.len() + j]);
            }
        }
        let ghost rest0 = self.entries@;
        let mut i: usize = 0;
        while i < due.len()
            invariant
                i <= due@.len(),
                sorted_by_trigger(self.entries@),
                self.entries@ == requeued(rest0, due@.take(i as int)),
                self.entries@.len() <= rest0.len() + i,
                self.capacity() == old(self).capacity(),
            decreases due@.len() - i,
        {
            let a = due[i];
            match a.period {
                Some(p) => {
                    let na = ScheduledAction {
                        id: a.id,
                        trigger_time: a.trigger_time.saturating_add(p),
                        period: a.period,
                    };
                    proof {
                        assert(na == renewed(a, p));
                    }
                    self.insert_sorted(na);
                },
                None => {},
            }
            proof {
                assert(due@.take(i as int + 1).drop_last() =~= due@.take(i as int));
                assert(due@.take(i as int + 1).last() == due@[i as int]);
                assert(self.entries@ == requeue_step(requeued(rest0, due@.take(i as int)), a));
            }
            i += 1;
        }
        proof {
            assert(due@.take(due@.len() as int) =~= due@);
        }
        due
    }

    /// Empties the queue, keeping its capacity bound.
    pub fn clear(&mut self)
        ensures
            final(self)@ == Seq::<ScheduledAction>::empty(),
            final(self).capacity() == old(self).capacity(),
            final(self).wf(),
    {
        self.entries.clear();
    }
}

} // verus!
