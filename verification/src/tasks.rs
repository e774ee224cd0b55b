//! The cooperative task pool.
//!
//! Tasks are units of guest execution multiplexed over one logical
//! thread: a task runs until it voluntarily yields, and timing is
//! implemented as busy-yield against the clock. The pool decides; the
//! executor around the library performs: it resolves entry points,
//! drives task bodies, yields, and reads the clock, feeding the
//! outcomes back in as plain values.
//!
//! Task identifiers are assigned monotonically and never reused while
//! the pool is alive, however many tasks finish.

use vstd::prelude::*;

verus! {

/// Number of thread-local storage slots each task owns.
pub const TASK_LOCAL_SLOTS: usize = 5;

/// One concurrently-scheduled unit of guest execution.
#[derive(Debug)]
pub struct Task {
    /// Unique, monotonically assigned identifier.
    pub id: u32,
    /// Scheduling preference under contention; lower is preferred.
    pub priority: u32,
    /// Whether a global suspend has taken the task off the schedule.
    pub suspended: bool,
    /// Guest function table index of the zero-argument task body.
    pub entry: u32,
    /// Opaque parameter pointer handed to the body.
    pub param: u32,
    /// Per-task scratch slots; an unset slot reads as zero.
    pub locals: Vec<u32>,
}

/// Holds when `b` is `a` with only its suspended flag set to
/// `suspended`.
pub open spec fn task_same_except_suspended(a: Task, b: Task, suspended: bool) -> bool {
    &&& b.id == a.id
    &&& b.priority == a.priority
    &&& b.entry == a.entry
    &&& b.param == a.param
    &&& b.locals@ == a.locals@
    &&& b.suspended == suspended
}

/// What a global suspend does: every task's suspended flag is set and
/// nothing else changes.
pub open spec fn suspend_all_step(pre: TaskPool, post: TaskPool) -> bool {
    &&& post.tasks@.len() == pre.tasks@.len()
    &&& (forall|i: int|
        0 <= i < pre.tasks@.len() ==> task_same_except_suspended(
            pre.tasks@[i],
            post.tasks@[i],
            true,
        ))
    &&& post.next_id == pre.next_id
    &&& post.current == pre.current
    &&& post.assigned@ == pre.assigned@
}

/// What a global resume does: every task's suspended flag is cleared,
/// nothing else changes, and the result reports whether at least one
/// task was suspended before — that is, whether some task became
/// schedulable again.
pub open spec fn resume_all_step(pre: TaskPool, post: TaskPool, r: bool) -> bool {
    &&& post.tasks@.len() == pre.tasks@.len()
    &&& (forall|i: int|
        0 <= i < pre.tasks@.len() ==> task_same_except_suspended(
            pre.tasks@[i],
            post.tasks@[i],
            false,
        ))
    &&& post.next_id == pre.next_id
    &&& post.current == pre.current
    &&& post.assigned@ == pre.assigned@
    &&& (r <==> exists|i: int| 0 <= i < pre.tasks@.len() && (#[trigger] pre.tasks@[i]).suspended)
}

/// A global resume after a global suspend of a nonempty pool always
/// reports success: the suspend left every task suspended, so at least
/// one previously-suspended task becomes schedulable again.
pub proof fn lemma_resume_after_suspend_succeeds(
    s0: TaskPool,
    s1: TaskPool,
    s2: TaskPool,
    r: bool,
)
    requires
        s0.tasks@.len() > 0,
        suspend_all_step(s0, s1),
        resume_all_step(s1, s2, r),
    ensures
        r,
{
    assert(s1.tasks@[0].suspended);
}

/// What a successful spawn does to the identifier bookkeeping: it
/// returns an identifier the pool has never assigned, records it, and
/// moves the counter past it.
pub open spec fn spawn_id_step(pre: TaskPool, post: TaskPool, id: u32) -> bool {
    &&& id == pre.next_id
    &&& !pre.assigned@.contains(id)
    &&& post.next_id == pre.next_id + 1
    &&& post.assigned@ == pre.assigned@.insert(id)
}

/// One observable operation on the pool, as far as identifiers are
/// concerned.
pub enum PoolOp {
    /// A successful spawn, with the identifier it returned.
    Spawn { id: u32 },
    /// Any other pool operation — a task finishing among them: none of
    /// them assigns or forgets identifiers.
    Other,
}

/// What each operation does to the identifier bookkeeping, exactly as
/// the functions' contracts state it.
pub open spec fn pool_step(pre: TaskPool, post: TaskPool, op: PoolOp) -> bool {
    match op {
        PoolOp::Spawn { id } => spawn_id_step(pre, post, id),
        PoolOp::Other => post.next_id == pre.next_id && post.assigned@ == pre.assigned@,
    }
}

/// A history of one pool instance: successive pool values, each
/// consecutive pair connected by the operation between them.
pub open spec fn is_pool_history(states: Seq<TaskPool>, ops: Seq<PoolOp>) -> bool {
    &&& states.len() == ops.len() + 1
    &&& (forall|k: int|
        0 <= k < ops.len() ==> pool_step(states[k], states[k + 1], #[trigger] ops[k]))
}

/// An assigned identifier stays assigned through every later state of
/// the history: no operation forgets one.
pub proof fn lemma_assigned_only_grows(states: Seq<TaskPool>, ops: Seq<PoolOp>, id: u32)
    requires
        is_pool_history(states, ops),
        states.len() > 0,
        states[0].assigned@.contains(id),
    ensures
        forall|k: int| 0 <= k < states.len() ==> (#[trigger] states[k]).assigned@.contains(id),
    decreases ops.len(),
{
    if ops.len() > 0 {
        assert(pool_step(states[0], states[1], ops[0]));
        let states_rest = states.drop_first();
        let ops_rest = ops.drop_first();
        assert forall|k: int|
            0 <= k < ops_rest.len() implies pool_step(
            states_rest[k],
            states_rest[k + 1],
            #[trigger] ops_rest[k],
        ) by {
            assert(ops_rest[k] == ops[k + 1]);
            assert(pool_step(states[k + 1], states[k + 2], ops[k + 1]));
        }
        lemma_assigned_only_grows(states_rest, ops_rest, id);
        assert forall|k: int|
            0 <= k < states.len() implies (#[trigger] states[k]).assigned@.contains(id) by {
            if k > 0 {
                assert(states[k] == states_rest[k - 1]);
            }
        }
    }
}

/// Task identifiers are unique over the whole life of a pool instance:
/// two spawns in any history return different identifiers, however many
/// tasks finish in between — the first one's identifier is still on
/// record when the second spawn picks a fresh one.
pub proof fn lemma_spawned_ids_unique(
    states: Seq<TaskPool>,
    ops: Seq<PoolOp>,
    k1: int,
    k2: int,
    id1: u32,
    id2: u32,
)
    requires
        is_pool_history(states, ops),
        0 <= k1 < k2 < ops.len(),
        ops[k1] == (PoolOp::Spawn { id: id1 }),
        ops[k2] == (PoolOp::Spawn { id: id2 }),
    ensures
        id1 != id2,
{
    assert(pool_step(states[k1], states[k1 + 1], ops[k1]));
    assert(states[k1 + 1].assigned@.contains(id1));
    let states_rest = states.subrange(k1 + 1, states.len() as int);
    let ops_rest = ops.subrange(k1 + 1, ops.len() as int);
    assert forall|k: int|
        0 <= k < ops_rest.len() implies pool_step(
        states_rest[k],
        states_rest[k + 1],
        #[trigger] ops_rest[k],
    ) by {
        assert(ops_rest[k] == ops[k1 + 1 + k]);
        assert(pool_step(states[k1 + 1 + k], states[k1 + 1 + k + 1], ops[k1 + 1 + k]));
    }
    lemma_assigned_only_grows(states_rest, ops_rest, id1);
    assert(states_rest[k2 - k1 - 1] == states[k2]);
    assert(states[k2].assigned@.contains(id1));
    assert(pool_step(states[k2], states[k2 + 1], ops[k2]));
}

/// Task identifiers are never reused while a pool instance lives:
/// every spawn returns an identifier outside the set of identifiers the
/// pool ever assigned — however many tasks have finished, since a
/// finished task's identifier stays in that set — and the two spawns'
/// identifiers are therefore distinct.
pub proof fn lemma_task_ids_never_reused(
    assigned0: Set<u32>,
    id1: u32,
    assigned1: Set<u32>,
    id2: u32,
)
    requires
        !assigned0.contains(id1),
        assigned1 == assigned0.insert(id1),
        !assigned1.contains(id2),
    ensures
        id2 != id1,
        !assigned0.contains(id2),
{
}

/// The registry of live tasks, the identifier counter, and the
/// executor's notion of which task is presently running. Identifier
/// zero stands for the host's own startup context and is never
/// assigned to a task.
pub struct TaskPool {
    /// The live tasks: spawned and not yet finished.
    pub tasks: Vec<Task>,
    /// The next identifier to assign; greater than every identifier
    /// ever assigned.
    pub next_id: u32,
    /// The identifier of the task presently executing, as reported by
    /// the executor; zero for the host context.
    pub current: u32,
    /// Every identifier ever assigned by this pool instance.
    pub assigned: Ghost<Set<u32>>,
}

impl TaskPool {
    /// A structurally sound pool: identifiers are nonzero, distinct,
    /// all below the counter and all recorded as assigned; recorded
    /// identifiers never reach the counter; each task carries the fixed
    /// number of local slots.
    pub open spec fn wf(self) -> bool {
        &&& (forall|i: int|
            0 <= i < self.tasks@.len() ==> 0 < (#[trigger] self.tasks@[i]).id)
        &&& (forall|i: int, j: int|
            0 <= i < j < self.tasks@.len() ==> self.tasks@[i].id != self.tasks@[j].id)
        &&& (forall|i: int|
            0 <= i < self.tasks@.len() ==> self.assigned@.contains(
                (#[trigger] self.tasks@[i]).id,
            ))
        &&& (forall|id: u32| self.assigned@.contains(id) ==> id < self.next_id)
        &&& (forall|i: int|
            0 <= i < self.tasks@.len() ==> (#[trigger] self.tasks@[i]).locals@.len()
                == TASK_LOCAL_SLOTS)
        &&& 0 < self.next_id
    }

    /// Whether a live task carries identifier `id`.
    pub open spec fn is_live(self, id: u32) -> bool {
        exists|i: int| 0 <= i < self.tasks@.len() && (#[trigger] self.tasks@[i]).id == id
    }

    /// The position of the live task carrying `id`.
    pub open spec fn task_index(self, id: u32) -> int {
        choose|i: int| 0 <= i < self.tasks@.len() && (#[trigger] self.tasks@[i]).id == id
    }

    /// An empty pool, running in the host context.
    pub fn new() -> (p: TaskPool)
        ensures
            p.wf(),
            p.tasks@.len() == 0,
            p.next_id == 1,
            p.current == 0,
            p.assigned@ == Set::<u32>::empty(),
    {
        TaskPool { tasks: Vec::new(), next_id: 1, current: 0, assigned: Ghost(Set::empty()) }
    }

    /// Spawns a task. `entry_valid` is the executor's verdict on
    /// whether `entry` resolves to a callable zero-argument guest
    /// function; an invalid entry point is a request-level error, not
    /// an abort. On success the task gets a fresh identifier — one this
    /// pool has never assigned — starts running (not suspended) with
    /// the given priority, and its local slots all read zero.
    pub fn spawn(&mut self, entry_valid: bool, entry: u32, param: u32, priority: u32) -> (r:
        Result<u32, crate::errno::Errno>)
        requires
            old(self).wf(),
            old(self).next_id < u32::MAX,
        ensures
            final(self).wf(),
            !entry_valid ==> r == Err::<u32, crate::errno::Errno>(crate::errno::Errno::EINVAL)
                && *final(self) == *old(self),
            entry_valid ==> {
                &&& r == Ok::<u32, crate::errno::Errno>(old(self).next_id)
                &&& spawn_id_step(*old(self), *final(self), old(self).next_id)
                &&& final(self).current == old(self).current
                &&& final(self).tasks@.len() == old(self).tasks@.len() + 1
                &&& (forall|i: int|
                    0 <= i < old(self).tasks@.len() ==> final(self).tasks@[i] == old(
                        self,
                    ).tasks@[i])
                &&& ({
                    let t = final(self).tasks@.last();
                    &&& t.id == old(self).next_id
                    &&& t.priority == priority
                    &&& !t.suspended
                    &&& t.entry == entry
                    &&& t.param == param
                    &&& t.locals@.len() == TASK_LOCAL_SLOTS
                    &&& (forall|k: int| 0 <= k < t.locals@.len() ==> t.locals@[k] == 0u32)
                })
            },
    {
        if !entry_valid {
            return Err(crate::errno::Errno::EINVAL);
        }
        let id = self.next_id;
        let task = Task {
            id,
            priority,
            suspended: false,
            entry,
            param,
            locals: vec![0u32; TASK_LOCAL_SLOTS],
        };
        self.tasks.push(task);
        self.next_id = self.next_id + 1;
        proof {
            self.assigned@ = self.assigned@.insert(id);
        }
        Ok(id)
    }

    /// Takes a finished task out of the pool: its body returned. Its
    /// identifier stays assigned, so it is never handed out again while
    /// this pool lives.
    pub fn task_finished(&mut self, id: u32)
        requires
            old(self).wf(),
            old(self).is_live(id),
        ensures
            final(self).wf(),
            final(self).tasks@ == old(self).tasks@.remove(old(self).task_index(id)),
            final(self).next_id == old(self).next_id,
            final(self).current == old(self).current,
            final(self).assigned@ == old(self).assigned@,
    {
        let i = self.find_task(id);
        self.tasks.remove(i);
    }

    /// The identifier of the task presently executing: zero while the
    /// host context runs.
    pub fn current_task(&self) -> (r: u32)
        ensures
            r == self.current,
    {
        self.current
    }

    /// Records which task the executor is about to run.
    pub fn set_current(&mut self, id: u32)
        ensures
            final(self).current == id,
            final(self).tasks == old(self).tasks,
            final(self).next_id == old(self).next_id,
            final(self).assigned@ == old(self).assigned@,
    {
        self.current = id;
    }

    /// Takes every task off the schedule.
    pub fn suspend_all(&mut self)
        requires
            old(self).wf(),
        ensures
            final(self).wf(),
            suspend_all_step(*old(self), *final(self)),
    {
        let n = self.tasks.len();
        let mut i: usize = 0;
        let mut t = scratch_task();
        while i < n
            invariant
                i <= n,
                n == self.tasks@.len(),
                n == old(self).tasks@.len(),
                self.next_id == old(self).next_id,
                self.current == old(self).current,
                self.assigned@ == old(self).assigned@,
                forall|k: int|
                    0 <= k < i ==> task_same_except_suspended(
                        old(self).tasks@[k],
                        self.tasks@[k],
                        true,
                    ),
                forall|k: int| i <= k < n ==> self.tasks@[k] == old(self).tasks@[k],
            decreases n - i,
        {
            self.tasks.set_and_swap(i, &mut t);
            t.suspended = true;
            self.tasks.set_and_swap(i, &mut t);
            i = i + 1;
        }
        proof {
            lemma_flagging_preserves_wf(*old(self), *self);
        }
    }

    /// Puts every task back on the schedule and reports whether at
    /// least one previously-suspended task became schedulable again.
    /// Resumption is not instantaneous for the caller's own timeslice:
    /// the executor yields at least once after this call before handing
    /// the result to the guest, so resumed tasks observe the change
    /// first.
    pub fn resume_all(&mut self) -> (r: bool)
        requires
            old(self).wf(),
        ensures
            final(self).wf(),
            resume_all_step(*old(self), *final(self), r),
    {
        let n = self.tasks.len();
        let mut i: usize = 0;
        let mut any: bool = false;
        let mut t = scratch_task();
        while i < n
            invariant
                i <= n,
                n == self.tasks@.len(),
                n == old(self).tasks@.len(),
                self.next_id == old(self).next_id,
                self.current == old(self).current,
                self.assigned@ == old(self).assigned@,
                forall|k: int|
                    0 <= k < i ==> task_same_except_suspended(
                        old(self).tasks@[k],
                        self.tasks@[k],
                        false,
                    ),
                forall|k: int| i <= k < n ==> self.tasks@[k] == old(self).tasks@[k],
                any <==> exists|k: int|
                    0 <= k < i && (#[trigger] old(self).tasks@[k]).suspended,
            decreases n - i,
        {
            self.tasks.set_and_swap(i, &mut t);
            if t.suspended {
                any = true;
            }
            t.suspended = false;
            self.tasks.set_and_swap(i, &mut t);
            proof {
                if old(self).tasks@[i as int].suspended {
                    assert(exists|k: int|
                        0 <= k < i + 1 && (#[trigger] old(self).tasks@[k]).suspended);
                }
            }
            i = i + 1;
        }
        proof {
            lemma_flagging_preserves_wf(*old(self), *self);
        }
        any
    }

    /// The identifier of a preferred ready task: one that is not
    /// suspended and whose priority number is no greater than any other
    /// ready task's. Returns nothing when every task is suspended or
    /// the pool is empty. Priority only states a preference to the
    /// executor; it does not affect correctness.
    pub fn next_ready(&self) -> (r: Option<u32>)
        requires
            self.wf(),
        ensures
            r is None <==> (forall|i: int|
                0 <= i < self.tasks@.len() ==> (#[trigger] self.tasks@[i]).suspended),
            r matches Some(id) ==> self.is_live(id) && exists|i: int|
                0 <= i < self.tasks@.len() && (#[trigger] self.tasks@[i]).id == id
                    && !self.tasks@[i].suspended && (forall|j: int|
                    0 <= j < self.tasks@.len() && !(#[trigger] self.tasks@[j]).suspended
                        ==> self.tasks@[i].priority <= self.tasks@[j].priority),
    {
        let n = self.tasks.len();
        let mut best: Option<usize> = None;
        let mut i: usize = 0;
        while i < n
            invariant
                i <= n,
                n == self.tasks@.len(),
                self.wf(),
                best is None ==> (forall|k: int|
                    0 <= k < i ==> (#[trigger] self.tasks@[k]).suspended),
                best matches Some(b) ==> b < i && !self.tasks@[b as int].suspended && (forall|
                    k: int,
                |
                    0 <= k < i && !(#[trigger] self.tasks@[k]).suspended
                        ==> self.tasks@[b as int].priority <= self.tasks@[k].priority),
            decreases n - i,
        {
            if !self.tasks[i].suspended {
                match best {
                    None => {
                        best = Some(i);
                    },
                    Some(b) => {
                        if self.tasks[i].priority < self.tasks[b].priority {
                            best = Some(i);
                        }
                    },
                }
            }
            i = i + 1;
        }
        match best {
            None => None,
            Some(b) => {
                let id = self.tasks[b].id;
                proof {
                    assert(0 <= b < self.tasks@.len() && self.tasks@[b as int].id == id);
                }
                Some(id)
            },
        }
    }

    /// Reads one of a task's local slots; an unset slot reads zero. The
    /// slot index was validated by the caller: an out-of-range index is
    /// a fatal contract violation, not an error code.
    pub fn get_local(&self, id: u32, slot: usize) -> (r: u32)
        requires
            self.wf(),
            self.is_live(id),
            slot < TASK_LOCAL_SLOTS,
        ensures
            r == self.tasks@[self.task_index(id)].locals@[slot as int],
    {
        let i = self.find_task(id);
        self.tasks[i].locals[slot]
    }

    /// Writes one of a task's local slots, touching nothing else. The
    /// slot index was validated by the caller, as for reads.
    pub fn set_local(&mut self, id: u32, slot: usize, value: u32)
        requires
            old(self).wf(),
            old(self).is_live(id),
            slot < TASK_LOCAL_SLOTS,
        ensures
            final(self).wf(),
            final(self).tasks@.len() == old(self).tasks@.len(),
            ({
                let i = old(self).task_index(id);
                &&& (forall|j: int|
                    0 <= j < old(self).tasks@.len() && j != i ==> final(self).tasks@[j] == old(
                        self,
                    ).tasks@[j])
                &&& final(self).tasks@[i].id == old(self).tasks@[i].id
                &&& final(self).tasks@[i].priority == old(self).tasks@[i].priority
                &&& final(self).tasks@[i].suspended == old(self).tasks@[i].suspended
                &&& final(self).tasks@[i].entry == old(self).tasks@[i].entry
                &&& final(self).tasks@[i].param == old(self).tasks@[i].param
                &&& final(self).tasks@[i].locals@ == old(self).tasks@[i].locals@.update(
                    slot as int,
                    value,
                )
            }),
            final(self).next_id == old(self).next_id,
            final(self).current == old(self).current,
            final(self).assigned@ == old(self).assigned@,
    {
        let i = self.find_task(id);
        let mut t = scratch_task();
        self.tasks.set_and_swap(i, &mut t);
        t.locals.set(slot, value);
        self.tasks.set_and_swap(i, &mut t);
        proof {
            assert forall|ii: int, jj: int|
                0 <= ii < jj < self.tasks@.len() implies self.tasks@[ii].id
                != self.tasks@[jj].id by {
            }
        }
    }

    /// The position of the live task carrying `id`.
    fn find_task(&self, id: u32) -> (r: usize)
        requires
            self.wf(),
            self.is_live(id),
        ensures
            r < self.tasks@.len(),
            self.tasks@[r as int].id == id,
            r as int == self.task_index(id),
    {
        let n = self.tasks.len();
        let mut i: usize = 0;
        while i < n
            invariant
                i <= n,
                n == self.tasks@.len(),
                self.wf(),
                self.is_live(id),
                forall|k: int| 0 <= k < i ==> (#[trigger] self.tasks@[k]).id != id,
            decreases n - i,
        {
            if self.tasks[i].id == id {
                proof {
                    let c = self.task_index(id);
                    assert(self.tasks@[c].id == id);
                    if c != i as int {
                        assert(self.tasks@[c].id != self.tasks@[i as int].id);
                    }
                }
                return i;
            }
            i = i + 1;
        }
        proof {
            let w = choose|w: int|
                0 <= w < self.tasks@.len() && (#[trigger] self.tasks@[w]).id == id;
            assert(self.tasks@[w].id != id);
        }
        unreached()
    }
}

/// Both global flips keep the pool structurally sound: identifiers and
/// local-slot counts are untouched.
proof fn lemma_flagging_preserves_wf(pre: TaskPool, post: TaskPool)
    requires
        pre.wf(),
        post.tasks@.len() == pre.tasks@.len(),
        forall|i: int|
            0 <= i < pre.tasks@.len() ==> ((#[trigger] post.tasks@[i]).id == pre.tasks@[i].id
                && post.tasks@[i].locals@ == pre.tasks@[i].locals@),
        post.next_id == pre.next_id,
        post.assigned@ == pre.assigned@,
    ensures
        post.wf(),
{
    assert forall|i: int, j: int|
        0 <= i < j < post.tasks@.len() implies post.tasks@[i].id != post.tasks@[j].id by {
        assert(pre.tasks@[i].id != pre.tasks@[j].id);
    }
}

/// A scratch task value swapped in during in-place element updates.
fn scratch_task() -> (t: Task)
    ensures
        t.locals@.len() == 0,
{
    Task { id: 0, priority: 0, suspended: false, entry: 0, param: 0, locals: Vec::new() }
}

/// The wall-clock deadline of a timed delay: `millis` past `now_ms`.
/// A delay of zero still yields once; that is the executor's part.
pub fn delay_deadline(now_ms: u64, millis: u32) -> (r: u64)
    requires
        now_ms + millis <= u64::MAX,
    ensures
        r == now_ms + millis,
{
    now_ms + millis as u64
}

/// Whether a delay must keep yielding: the deadline has not passed.
pub fn delay_should_wait(now_ms: u64, end_ms: u64) -> (r: bool)
    ensures
        r == (now_ms < end_ms),
{
    now_ms < end_ms
}

/// The deadline of a periodic delay: the guest's stored previous wake
/// time advanced by `delta_ms`, both relative to the program's start.
/// A zero advance would spin without progress and is a guest bug,
/// demanded away as the modeled system does.
pub fn delay_until_deadline(prev_ms: u32, delta_ms: u32) -> (r: u64)
    requires
        delta_ms > 0,
    ensures
        r == prev_ms + delta_ms,
{
    prev_ms as u64 + delta_ms as u64
}

/// The millisecond clock the guest reads: elapsed time since program
/// start, wrapped to the guest's register width.
pub fn millis_now(elapsed_ms: u64) -> (r: u32)
    ensures
        r == elapsed_ms % 0x1_0000_0000,
{
    #[verifier::truncate]
    let r = elapsed_ms as u32;
    proof {
        assert(elapsed_ms as u32 == elapsed_ms % 0x1_0000_0000) by (bit_vector);
    }
    r
}

} // verus!
