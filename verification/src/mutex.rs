//! The mutex registry: binary locks keyed by small integer identifiers,
//! with timeout-bounded, queue-fair acquisition.
//!
//! The scheduler is cooperative, so mutual exclusion is about the order
//! of guest-visible operations between yield points, not about racing
//! memory accesses. A blocked acquisition is driven from outside: the
//! caller enqueues once, then polls between yields until the lock is
//! handed over or the deadline passes. Releasing hands the lock
//! directly to the longest-waiting blocked caller, so waiters are
//! served strictly first-in, first-out.

use vstd::prelude::*;

verus! {

/// The timeout argument that means "wait indefinitely".
pub const MUTEX_TIMEOUT_INFINITE: u32 = 0xFFFF_FFFF;

/// One lock: whether the identifier is live, who holds the lock, and
/// who waits for it, longest-waiting first.
#[derive(Debug)]
pub struct MutexSlot {
    /// Whether this identifier currently names a mutex.
    pub exists: bool,
    /// The task holding the lock, if any.
    pub holder: Option<u32>,
    /// Tasks blocked on the lock, longest-waiting first.
    pub waiters: Vec<u32>,
}

impl MutexSlot {
    /// A structurally sound slot: a deleted identifier holds no lock
    /// state, nobody waits for a lock nobody holds (release hands the
    /// lock over immediately), and no task waits twice.
    pub open spec fn wf(self) -> bool {
        &&& (!self.exists ==> self.holder is None && self.waiters@.len() == 0)
        &&& (self.holder is None ==> self.waiters@.len() == 0)
        &&& (forall|i: int, j: int|
            0 <= i < j < self.waiters@.len() ==> self.waiters@[i] != self.waiters@[j])
    }
}

/// The registry of all mutexes, indexed by identifier. Identifiers are
/// handed out smallest-free-first, so one is reused only after its
/// mutex was deleted.
#[derive(Debug)]
pub struct MutexTable {
    /// One slot per identifier ever created.
    pub slots: Vec<MutexSlot>,
}

/// The outcome of polling a blocked acquisition.
#[derive(Debug, Clone, Copy, PartialEq, Eq, Structural)]
pub enum LockPoll {
    /// The lock was handed to the polling task: acquisition succeeded.
    Acquired,
    /// The deadline passed without the lock arriving: report failure.
    TimedOut,
    /// Neither yet: yield and poll again.
    Waiting,
}

/// What one creation does: the identifier named no mutex before and
/// names a fresh, unheld one after; at most one slot is added and no
/// other slot changes.
pub open spec fn create_step(pre: MutexTable, post: MutexTable, id: int) -> bool {
    &&& 0 <= id <= pre.slots@.len()
    &&& !pre.valid_id(id)
    &&& post.valid_id(id)
    &&& post.slots@.len() == if id == pre.slots@.len() {
        pre.slots@.len() + 1
    } else {
        pre.slots@.len()
    }
    &&& post.slots@[id].holder is None
    &&& post.slots@[id].waiters@.len() == 0
    &&& (forall|j: int| 0 <= j < pre.slots@.len() && j != id ==> post.slots@[j] == pre.slots@[j])
}

/// What one deletion does: the identifier stops naming a mutex, its
/// lock state is discarded — waiters are abandoned without a wake-up —
/// and no other slot changes.
pub open spec fn delete_step(pre: MutexTable, post: MutexTable, id: int) -> bool {
    &&& pre.valid_id(id)
    &&& post.slots@.len() == pre.slots@.len()
    &&& !post.slots@[id].exists
    &&& post.slots@[id].holder is None
    &&& post.slots@[id].waiters@.len() == 0
    &&& (forall|j: int| 0 <= j < pre.slots@.len() && j != id ==> post.slots@[j] == pre.slots@[j])
}

/// What one withdrawal does: the task leaves the wait queue, everyone
/// else keeps their order, the holder stays, and no other slot changes.
pub open spec fn cancel_step(pre: MutexTable, post: MutexTable, id: int, task: u32) -> bool {
    &&& pre.valid_id(id)
    &&& post.slots@.len() == pre.slots@.len()
    &&& post.slots@[id].exists == pre.slots@[id].exists
    &&& post.slots@[id].holder == pre.slots@[id].holder
    &&& post.slots@[id].waiters@ == if pre.slots@[id].waiters@.contains(task) {
        pre.slots@[id].waiters@.remove_value(task)
    } else {
        pre.slots@[id].waiters@
    }
    &&& (forall|j: int| 0 <= j < pre.slots@.len() && j != id ==> post.slots@[j] == pre.slots@[j])
}

/// What one lock request does: acquire exactly when nobody holds the
/// lock, otherwise join the back of the wait queue. Nothing else in the
/// table changes.
pub open spec fn lock_request_step(
    pre: MutexTable,
    post: MutexTable,
    id: int,
    task: u32,
    acquired: bool,
) -> bool {
    &&& post.slots@.len() == pre.slots@.len()
    &&& (acquired <==> pre.slots@[id].holder is None)
    &&& post.slots@[id].exists == pre.slots@[id].exists
    &&& (acquired ==> post.slots@[id].holder == Some(task) && post.slots@[id].waiters@
        == pre.slots@[id].waiters@)
    &&& (!acquired ==> post.slots@[id].holder == pre.slots@[id].holder
        && post.slots@[id].waiters@ == pre.slots@[id].waiters@.push(task))
    &&& (forall|j: int| 0 <= j < pre.slots@.len() && j != id ==> post.slots@[j] == pre.slots@[j])
}

/// What one release does: with waiters present, the lock passes to the
/// longest-waiting one, who leaves the queue; with none, the lock
/// becomes free. Nothing else in the table changes.
pub open spec fn unlock_step(
    pre: MutexTable,
    post: MutexTable,
    id: int,
    woken: Option<u32>,
) -> bool {
    &&& post.slots@.len() == pre.slots@.len()
    &&& post.slots@[id].exists == pre.slots@[id].exists
    &&& (pre.slots@[id].waiters@.len() == 0 ==> woken is None && post.slots@[id].holder is None
        && post.slots@[id].waiters@.len() == 0)
    &&& (pre.slots@[id].waiters@.len() > 0 ==> woken == Some(pre.slots@[id].waiters@[0])
        && post.slots@[id].holder == Some(pre.slots@[id].waiters@[0])
        && post.slots@[id].waiters@ == pre.slots@[id].waiters@.drop_first())
    &&& (forall|j: int| 0 <= j < pre.slots@.len() && j != id ==> post.slots@[j] == pre.slots@[j])
}

/// What one poll of a blocked acquisition reports in a given state:
/// acquisition exactly when the lock has been handed to the task, and
/// timeout exactly when it has not and the deadline has passed.
pub open spec fn lock_poll_result(
    m: MutexTable,
    id: int,
    task: u32,
    now: u64,
    deadline: Option<u64>,
) -> LockPoll {
    if m.slots@[id].holder == Some(task) {
        LockPoll::Acquired
    } else if deadline matches Some(d) && now >= d {
        LockPoll::TimedOut
    } else {
        LockPoll::Waiting
    }
}

/// One observable operation on the mutex registry.
pub enum MutexOp {
    Create { id: int },
    Delete { id: int },
    Lock { id: int, task: u32, acquired: bool },
    Unlock { id: int, woken: Option<u32> },
    Cancel { id: int, task: u32 },
}

/// What each operation does to the registry, exactly as the
/// corresponding function's contract states it, together with the
/// demands that function makes of its caller.
pub open spec fn table_step(pre: MutexTable, post: MutexTable, op: MutexOp) -> bool {
    match op {
        MutexOp::Create { id } => create_step(pre, post, id),
        MutexOp::Delete { id } => delete_step(pre, post, id),
        MutexOp::Lock { id, task, acquired } => pre.valid_id(id) && !pre.slots@[id].waiters@.contains(
            task,
        ) && lock_request_step(pre, post, id, task, acquired),
        MutexOp::Unlock { id, woken } => pre.valid_id(id) && unlock_step(pre, post, id, woken),
        MutexOp::Cancel { id, task } => cancel_step(pre, post, id, task),
    }
}

/// A history of the registry: `states` are the successive registry
/// values, each consecutive pair connected by the operation between
/// them.
pub open spec fn is_history(states: Seq<MutexTable>, ops: Seq<MutexOp>) -> bool {
    &&& states.len() == ops.len() + 1
    &&& (forall|k: int|
        0 <= k < ops.len() ==> table_step(states[k], states[k + 1], #[trigger] ops[k]))
}

/// No operation in the span releases or deletes mutex `id`.
pub open spec fn keeps_hold(ops: Seq<MutexOp>, id: int) -> bool {
    forall|k: int|
        0 <= k < ops.len() ==> match #[trigger] ops[k] {
            MutexOp::Unlock { id: j, .. } => j != id,
            MutexOp::Delete { id: j } => j != id,
            _ => true,
        }
}

/// One step that neither releases nor deletes a held mutex leaves its
/// holder in place: a creation cannot hit a still-existing identifier,
/// a lock request against a holder only enqueues, and a withdrawal
/// touches only the queue.
pub proof fn lemma_step_keeps_holder(
    pre: MutexTable,
    post: MutexTable,
    op: MutexOp,
    id: int,
    h: u32,
)
    requires
        table_step(pre, post, op),
        pre.valid_id(id),
        pre.slots@[id].holder == Some(h),
        !(op matches MutexOp::Unlock { id: j, .. } && j == id),
        !(op matches MutexOp::Delete { id: j } && j == id),
    ensures
        post.valid_id(id),
        post.slots@[id].holder == Some(h),
{
}

/// A standing acquisition persists through any operation sequence that
/// neither releases nor deletes the mutex: its holder is the same in
/// every state of the history.
pub proof fn lemma_holder_persists(
    states: Seq<MutexTable>,
    ops: Seq<MutexOp>,
    id: int,
    h: u32,
)
    requires
        is_history(states, ops),
        keeps_hold(ops, id),
        states.len() > 0,
        states[0].valid_id(id),
        states[0].slots@[id].holder == Some(h),
    ensures
        forall|k: int|
            0 <= k < states.len() ==> (#[trigger] states[k]).valid_id(id)
                && states[k].slots@[id].holder == Some(h),
    decreases ops.len(),
{
    if ops.len() > 0 {
        lemma_step_keeps_holder(states[0], states[1], ops[0], id, h);
        let states_rest = states.drop_first();
        let ops_rest = ops.drop_first();
        assert forall|k: int|
            0 <= k < ops_rest.len() implies table_step(
            states_rest[k],
            states_rest[k + 1],
            #[trigger] ops_rest[k],
        ) by {
            assert(ops_rest[k] == ops[k + 1]);
            assert(table_step(states[k + 1], states[k + 2], ops[k + 1]));
        }
        assert(is_history(states_rest, ops_rest));
        assert forall|k: int| 0 <= k < ops_rest.len() implies match #[trigger] ops_rest[k] {
            MutexOp::Unlock { id: j, .. } => j != id,
            MutexOp::Delete { id: j } => j != id,
            _ => true,
        } by {
            assert(ops_rest[k] == ops[k + 1]);
        }
        lemma_holder_persists(states_rest, ops_rest, id, h);
        assert forall|k: int|
            0 <= k < states.len() implies (#[trigger] states[k]).valid_id(id)
            && states[k].slots@[id].holder == Some(h) by {
            if k > 0 {
                assert(states[k] == states_rest[k - 1]);
            }
        }
    }
}

/// Mutual exclusion over all operation sequences: while one lock call's
/// acquisition stands — the mutex still exists and has not been
/// released — no later lock call on the same mutex reports acquisition,
/// whatever else the sequence creates, deletes, locks or unlocks in
/// between.
pub proof fn lemma_no_second_acquisition_over_history(
    states: Seq<MutexTable>,
    ops: Seq<MutexOp>,
    id: int,
    h: u32,
    k: int,
)
    requires
        is_history(states, ops),
        keeps_hold(ops, id),
        states.len() > 0,
        states[0].valid_id(id),
        states[0].slots@[id].holder == Some(h),
        0 <= k < ops.len(),
        ops[k] matches MutexOp::Lock { id: j, .. } && j == id,
    ensures
        !(ops[k] matches MutexOp::Lock { acquired: true, .. }),
{
    lemma_holder_persists(states, ops, id, h);
    assert(states[k].slots@[id].holder == Some(h));
    assert(table_step(states[k], states[k + 1], ops[k]));
}

/// Mutual exclusion: two lock requests on one mutex, with no release in
/// between, never both report acquisition. The first acquisition
/// installs a holder, and a request acquires only a lock with none.
pub proof fn lemma_no_simultaneous_acquisition(
    s0: MutexTable,
    s1: MutexTable,
    s2: MutexTable,
    id: int,
    t1: u32,
    t2: u32,
    r1: bool,
    r2: bool,
)
    requires
        0 <= id < s0.slots@.len(),
        lock_request_step(s0, s1, id, t1, r1),
        lock_request_step(s1, s2, id, t2, r2),
    ensures
        !(r1 && r2),
{
}

/// Bounded timeout latency: a poll at or past the deadline never asks
/// the caller to keep waiting; the attempt resolves, one way or the
/// other, at the first poll from the deadline on.
pub proof fn lemma_poll_resolves_by_deadline(
    m: MutexTable,
    id: int,
    task: u32,
    now: u64,
    d: u64,
)
    requires
        now >= d,
    ensures
        lock_poll_result(m, id, task, now, Some(d)) != LockPoll::Waiting,
{
}

/// A timed-out acquisition reports failure exactly when the lock stayed
/// out of the caller's hands: at or past the deadline, timeout is
/// reported if and only if the task has not been handed the lock, and
/// every hand-over goes to a task, so the lock was held whenever the
/// caller was passed over.
pub proof fn lemma_timeout_iff_not_acquired(
    m: MutexTable,
    id: int,
    task: u32,
    now: u64,
    d: u64,
)
    requires
        now >= d,
    ensures
        lock_poll_result(m, id, task, now, Some(d)) == LockPoll::TimedOut <==> m.slots@[id].holder
            != Some(task),
{
}

/// While anyone waits, the mutex is held: a release hands the lock
/// straight to the longest waiter, never leaving it free with a queue
/// behind it. A blocked caller that times out was therefore passed over
/// only while the lock was in someone's hands.
pub proof fn lemma_waiters_imply_held(m: MutexTable, id: int)
    requires
        m.wf(),
        0 <= id < m.slots@.len(),
        m.slots@[id].waiters@.len() > 0,
    ensures
        m.slots@[id].holder is Some,
{
    assert(m.slots@[id].wf());
}

impl MutexTable {
    /// A table that, for every identifier, is structurally sound.
    pub open spec fn wf(self) -> bool {
        forall|i: int| 0 <= i < self.slots@.len() ==> (#[trigger] self.slots@[i]).wf()
    }

    /// Whether `id` currently names a mutex.
    pub open spec fn valid_id(self, id: int) -> bool {
        0 <= id < self.slots@.len() && self.slots@[id].exists
    }

    /// An empty registry.
    pub fn new() -> (m: MutexTable)
        ensures
            m.wf(),
            m.slots@.len() == 0,
    {
        MutexTable { slots: Vec::new() }
    }

    /// Creates a mutex and returns its identifier: the smallest one not
    /// in use, so an identifier is reused only after its mutex was
    /// deleted. The new mutex is unheld with nobody waiting; every
    /// other slot is untouched.
    pub fn create_mutex(&mut self) -> (id: usize)
        requires
            old(self).wf(),
        ensures
            final(self).wf(),
            create_step(*old(self), *final(self), id as int),
            forall|j: int| 0 <= j < id ==> (#[trigger] final(self).slots@[j]).exists,
    {
        let n = self.slots.len();
        let mut i: usize = 0;
        while i < n
            invariant
                i <= n,
                n == self.slots@.len(),
                self == old(self),
                old(self).wf(),
                forall|j: int| 0 <= j < i ==> (#[trigger] self.slots@[j]).exists,
            decreases n - i,
        {
            if !self.slots[i].exists {
                self.slots.set(
                    i,
                    MutexSlot { exists: true, holder: None, waiters: Vec::new() },
                );
                proof {
                    assert forall|j: int|
                        0 <= j < self.slots@.len() implies (#[trigger] self.slots@[j]).wf() by {
                        if j != i {
                            assert(self.slots@[j] == old(self).slots@[j]);
                        }
                    }
                }
                return i;
            }
            i = i + 1;
        }
        self.slots.push(MutexSlot { exists: true, holder: None, waiters: Vec::new() });
        n
    }

    /// Deletes a mutex. Deleting an identifier that names no mutex is a
    /// guest bug and demanded away. Tasks still blocked on the mutex
    /// are abandoned without a wake-up, as the modeled system does.
    pub fn delete_mutex(&mut self, id: usize)
        requires
            old(self).wf(),
            old(self).valid_id(id as int),
        ensures
            final(self).wf(),
            delete_step(*old(self), *final(self), id as int),
    {
        self.slots.set(id, MutexSlot { exists: false, holder: None, waiters: Vec::new() });
    }

    /// One lock request by `task`: acquires exactly when nobody holds
    /// the lock, and otherwise joins the back of the wait queue. A task
    /// blocks on at most one acquisition at a time, so it is not
    /// already in this queue.
    pub fn lock_request(&mut self, id: usize, task: u32) -> (acquired: bool)
        requires
            old(self).wf(),
            old(self).valid_id(id as int),
            !old(self).slots@[id as int].waiters@.contains(task),
        ensures
            final(self).wf(),
            final(self).valid_id(id as int),
            lock_request_step(*old(self), *final(self), id as int, task, acquired),
    {
        let held = self.slots[id].holder.is_some();
        if !held {
            let mut waiters = self.slots[id].waiters.clone();
            proof {
                assert(waiters@ =~= self.slots@[id as int].waiters@) by {
                    assert forall|k: int|
                        0 <= k < waiters@.len() implies waiters@[k] == self.slots@[id
                        as int].waiters@[k] by {
                        assert(vstd::pervasive::cloned::<u32>(
                            self.slots@[id as int].waiters@[k],
                            waiters@[k],
                        ));
                    }
                }
            }
            let exists_flag = self.slots[id].exists;
            self.slots.set(id, MutexSlot { exists: exists_flag, holder: Some(task), waiters });
            true
        } else {
            let mut waiters = self.slots[id].waiters.clone();
            proof {
                assert(waiters@ =~= self.slots@[id as int].waiters@) by {
                    assert forall|k: int|
                        0 <= k < waiters@.len() implies waiters@[k] == self.slots@[id
                        as int].waiters@[k] by {
                        assert(vstd::pervasive::cloned::<u32>(
                            self.slots@[id as int].waiters@[k],
                            waiters@[k],
                        ));
                    }
                }
            }
            waiters.push(task);
            let exists_flag = self.slots[id].exists;
            let holder = self.slots[id].holder;
            self.slots.set(id, MutexSlot { exists: exists_flag, holder, waiters });
            false
        }
    }

    /// Releases a mutex, unconditionally: the modeled system does not
    /// check that the caller is the holder. With waiters present the
    /// lock passes to the longest-waiting one, who is returned so the
    /// scheduler can make it runnable; with none the lock becomes free.
    pub fn unlock(&mut self, id: usize) -> (woken: Option<u32>)
        requires
            old(self).wf(),
            old(self).valid_id(id as int),
        ensures
            final(self).wf(),
            final(self).valid_id(id as int),
            unlock_step(*old(self), *final(self), id as int, woken),
    {
        let has_waiters = self.slots[id].waiters.len() > 0;
        if has_waiters {
            let mut waiters = self.slots[id].waiters.clone();
            proof {
                assert(waiters@ =~= self.slots@[id as int].waiters@) by {
                    assert forall|k: int|
                        0 <= k < waiters@.len() implies waiters@[k] == self.slots@[id
                        as int].waiters@[k] by {
                        assert(vstd::pervasive::cloned::<u32>(
                            self.slots@[id as int].waiters@[k],
                            waiters@[k],
                        ));
                    }
                }
            }
            let front = waiters.remove(0);
            let exists_flag = self.slots[id].exists;
            self.slots.set(id, MutexSlot { exists: exists_flag, holder: Some(front), waiters });
            proof {
                assert(self.slots@[id as int].waiters@ =~= old(self).slots@[id
                    as int].waiters@.drop_first());
            }
            Some(front)
        } else {
            let exists_flag = self.slots[id].exists;
            self.slots.set(
                id,
                MutexSlot { exists: exists_flag, holder: None, waiters: Vec::new() },
            );
            None
        }
    }

    /// One poll of a blocked acquisition by `task`: reports acquisition
    /// exactly when the lock has been handed to it, timeout exactly
    /// when it has not and the deadline has passed, and asks for
    /// another yield otherwise. `None` as deadline waits indefinitely.
    pub fn poll_lock(&self, id: usize, task: u32, now: u64, deadline: Option<u64>) -> (r:
        LockPoll)
        requires
            self.wf(),
            self.valid_id(id as int),
        ensures
            r == lock_poll_result(*self, id as int, task, now, deadline),
    {
        match &self.slots[id].holder {
            Some(h) => {
                if *h == task {
                    return LockPoll::Acquired;
                }
            },
            None => {},
        }
        match deadline {
            Some(d) => {
                if now >= d {
                    LockPoll::TimedOut
                } else {
                    LockPoll::Waiting
                }
            },
            None => LockPoll::Waiting,
        }
    }

    /// Withdraws a timed-out task from a mutex's wait queue. The queue
    /// order of everyone else is kept.
    pub fn cancel_wait(&mut self, id: usize, task: u32)
        requires
            old(self).wf(),
            old(self).valid_id(id as int),
        ensures
            final(self).wf(),
            final(self).valid_id(id as int),
            cancel_step(*old(self), *final(self), id as int, task),
    {
        let n = self.slots[id].waiters.len();
        let mut i: usize = 0;
        while i < n
            invariant
                i <= n,
                self == old(self),
                old(self).wf(),
                old(self).valid_id(id as int),
                n == self.slots@[id as int].waiters@.len(),
                forall|k: int| 0 <= k < i ==> self.slots@[id as int].waiters@[k] != task,
            decreases n - i,
        {
            if self.slots[id].waiters[i] == task {
                let mut waiters = self.slots[id].waiters.clone();
                proof {
                    assert(waiters@ =~= self.slots@[id as int].waiters@) by {
                        assert forall|k: int|
                            0 <= k < waiters@.len() implies waiters@[k] == self.slots@[id
                            as int].waiters@[k] by {
                            assert(vstd::pervasive::cloned::<u32>(
                                self.slots@[id as int].waiters@[k],
                                waiters@[k],
                            ));
                        }
                    }
                }
                waiters.remove(i);
                let exists_flag = self.slots[id].exists;
                let holder = self.slots[id].holder;
                self.slots.set(id, MutexSlot { exists: exists_flag, holder, waiters });
                proof {
                    let pre = old(self).slots@[id as int].waiters@;
                    assert(pre.contains(task)) by {
                        assert(pre[i as int] == task);
                    }
                    pre.index_of_first_ensures(task);
                    assert(pre.index_of_first(task) == Some(i as int)) by {
                        let w = pre.index_of_first(task)->0;
                        assert(pre[w] == task);
                        if w > i as int {
                            assert(pre[i as int] != task);
                        }
                    }
                    assert(self.slots@[id as int].waiters@ =~= pre.remove_value(task));
                }
                return ;
            }
            i = i + 1;
        }
        proof {
            let pre = old(self).slots@[id as int].waiters@;
            if pre.contains(task) {
                let w = choose|w: int| 0 <= w < pre.len() && pre[w] == task;
                assert(pre[w] != task);
            }
        }
    }
}

/// The deadline for a timed acquisition: the sentinel timeout waits
/// indefinitely; any other waits `timeout_ms` past `now_ms`.
pub fn take_deadline(now_ms: u64, timeout_ms: u32) -> (r: Option<u64>)
    requires
        now_ms + timeout_ms <= u64::MAX,
    ensures
        timeout_ms == MUTEX_TIMEOUT_INFINITE ==> r is None,
        timeout_ms != MUTEX_TIMEOUT_INFINITE ==> r == Some((now_ms + timeout_ms) as u64),
{
    if timeout_ms == MUTEX_TIMEOUT_INFINITE {
        None
    } else {
        Some(now_ms + timeout_ms as u64)
    }
}

} // verus!
