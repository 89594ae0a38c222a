//! Advisory per-task edit locks.
//!
//! At most one lock exists per task. A lock records who holds it (`agent`
//! or `user`), when it was taken, and an optional snapshot of the content
//! at acquisition time. Locks expire through a staleness sweep.

use vstd::prelude::*;

verus! {

/// One edit-lock row. `locked_at` is in seconds of some monotonic or
/// wall-clock epoch supplied by the caller.
#[derive(Debug)]
pub struct EditLock {
    pub task_id: i64,
    pub locked_by: String,
    pub locked_at: u64,
    pub original_content: Option<String>,
}

/// The lock state reported for a task.
#[derive(Debug)]
pub struct LockStatus {
    pub is_locked: bool,
    pub locked_by: Option<String>,
}

/// The mathematical content of one lock.
pub struct LockV {
    pub locked_by: Seq<char>,
    pub locked_at: u64,
    pub original_content: Option<Seq<char>>,
}

impl View for EditLock {
    type V = LockV;

    open spec fn view(&self) -> LockV {
        LockV {
            locked_by: self.locked_by@,
            locked_at: self.locked_at,
            original_content: self.original_content.deep_view(),
        }
    }
}

/// The map of a lock sequence: task id to lock.
pub open spec fn locks_map(s: Seq<EditLock>) -> Map<int, LockV>
    decreases s.len(),
{
    if s.len() == 0 {
        Map::empty()
    } else {
        locks_map(s.drop_last()).insert(s.last().task_id as int, s.last()@)
    }
}

/// Whether the task ids of a lock sequence are pairwise distinct.
pub open spec fn unique_ids(s: Seq<EditLock>) -> bool {
    forall|i: int, j: int|
        0 <= i < j < s.len() ==> (#[trigger] s[i]).task_id != (#[trigger] s[j]).task_id
}

/// Whether a valid actor name was given: exactly `agent` or `user`.
pub open spec fn valid_actor(s: Seq<char>) -> bool {
    s == "agent"@ || s == "user"@
}

/// Whether a lock is stale: strictly older than the timeout.
pub open spec fn stale_lock(l: LockV, timeout_minutes: int, now: int) -> bool {
    now - l.locked_at > timeout_minutes * 60
}

/// What acquisition does to the lock map: reject bad actor names, report
/// `false` when the task is already locked, insert and report `true`
/// otherwise.
pub open spec fn acquire_spec(
    m: Map<int, LockV>,
    task_id: int,
    locked_by: Seq<char>,
    original_content: Option<Seq<char>>,
    now: u64,
) -> (Map<int, LockV>, Result<bool, Seq<char>>) {
    if !valid_actor(locked_by) {
        (m, Err("locked_by must be 'agent' or 'user'"@))
    } else if m.contains_key(task_id) {
        (m, Ok(false))
    } else {
        (
            m.insert(task_id, LockV { locked_by, locked_at: now, original_content }),
            Ok(true),
        )
    }
}

/// What release does to the lock map: remove the task's lock if any.
pub open spec fn release_spec(m: Map<int, LockV>, task_id: int) -> Map<int, LockV> {
    m.remove(task_id)
}

/// What the staleness sweep leaves: exactly the locks that are not stale.
pub open spec fn cleanup_spec(m: Map<int, LockV>, timeout_minutes: int, now: int) -> Map<
    int,
    LockV,
> {
    Map::new(
        |k: int| m.contains_key(k) && !stale_lock(m[k], timeout_minutes, now),
        |k: int| m[k],
    )
}

/// The in-memory lock table. The map view keys each lock by its task id;
/// the table keeps at most one lock per task.
pub struct LockTable {
    locks: Vec<EditLock>,
}

impl View for LockTable {
    type V = Map<int, LockV>;

    closed spec fn view(&self) -> Map<int, LockV> {
        locks_map(self.locks@)
    }
}

proof fn lemma_locks_map_props(s: Seq<EditLock>)
    requires
        unique_ids(s),
    ensures
        locks_map(s).dom().finite(),
        locks_map(s).dom().len() == s.len(),
        forall|k: int|
            locks_map(s).contains_key(k) <==> exists|i: int|
                0 <= i < s.len() && (#[trigger] s[i]).task_id == k,
        forall|i: int|
            0 <= i < s.len() ==> locks_map(s).contains_key((#[trigger] s[i]).task_id as int)
                && locks_map(s)[s[i].task_id as int] == s[i]@,
    decreases s.len(),
{
    if s.len() == 0 {
    } else {
        let d = s.drop_last();
        assert(unique_ids(d)) by {
            assert(forall|i: int, j: int|
                0 <= i < j < d.len() ==> (#[trigger] d[i]).task_id != (#[trigger] d[j]).task_id)
                by {
                assert(forall|i: int| 0 <= i < d.len() ==> d[i] == s[i]);
            }
        }
        lemma_locks_map_props(d);
        assert(!locks_map(d).contains_key(s.last().task_id as int)) by {
            assert(forall|i: int| 0 <= i < d.len() ==> d[i] == s[i]);
            assert(forall|i: int|
                0 <= i < d.len() ==> (#[trigger] s[i]).task_id != s.last().task_id);
        }
        assert(forall|i: int| 0 <= i < d.len() ==> d[i] == s[i]);
        assert(s[s.len() - 1] == s.last());
    }
}

impl LockTable {
    /// The table invariant: one lock per task.
    pub closed spec fn wf(&self) -> bool {
        unique_ids(self.locks@)
    }

    /// An empty lock table.
    pub fn new() -> (r: LockTable)
        ensures
            r.wf(),
            r@ == Map::<int, LockV>::empty(),
    {
        LockTable { locks: Vec::new() }
    }

    /// The number of locks held.
    pub fn len(&self) -> (r: usize)
        requires
            self.wf(),
        ensures
            r == self@.dom().len(),
    {
        proof {
            lemma_locks_map_props(self.locks@);
        }
        self.locks.len()
    }

    /// The index of the lock of a task, if one is held.
    fn find_index(&self, task_id: i64) -> (r: Option<usize>)
        requires
            self.wf(),
        ensures
            match r {
                Some(i) => i < self.locks@.len() && self.locks@[i as int].task_id == task_id
                    && self@.contains_key(task_id as int) && self@[task_id as int]
                    == self.locks@[i as int]@,
                None => !self@.contains_key(task_id as int),
            },
    {
        proof {
            lemma_locks_map_props(self.locks@);
        }
        let mut i: usize = 0;
        while i < self.locks.len()
            invariant
                self.wf(),
                0 <= i <= self.locks@.len(),
                forall|j: int| 0 <= j < i ==> (#[trigger] self.locks@[j]).task_id != task_id,
            decreases self.locks@.len() - i,
        {
            if self.locks[i].task_id == task_id {
                proof {
                    lemma_locks_map_props(self.locks@);
                }
                return Some(i);
            }
            i += 1;
        }
        None
    }

    /// Acquire an edit lock for a task. Reports `Ok(false)` without change
    /// when the task is already locked; rejects actors other than `agent`
    /// and `user`.
    pub fn acquire_edit_lock(
        &mut self,
        task_id: i64,
        locked_by: String,
        original_content: Option<String>,
        now: u64,
    ) -> (r: Result<bool, String>)
        requires
            old(self).wf(),
        ensures
            final(self).wf(),
            ({
                let (m2, rv) = acquire_spec(
                    old(self)@,
                    task_id as int,
                    locked_by@,
                    original_content.deep_view(),
                    now,
                );
                final(self)@ == m2 && match r {
                    Ok(b) => rv == Ok::<bool, Seq<char>>(b),
                    Err(e) => rv == Err::<bool, Seq<char>>(e@),
                }
            }),
    {
        let is_agent = locked_by == String::from_str("agent");
        let is_user = locked_by == String::from_str("user");
        if !is_agent && !is_user {
            return Err(String::from_str("locked_by must be 'agent' or 'user'"));
        }
        match self.find_index(task_id) {
            Some(_) => Ok(false),
            None => {
                let ghost s0 = self.locks@;
                self.locks.push(
                    EditLock { task_id, locked_by, locked_at: now, original_content },
                );
                proof {
                    assert(self.locks@.drop_last() =~= s0);
                    assert(unique_ids(self.locks@)) by {
                        lemma_locks_map_props(s0);
                        assert(forall|i: int|
                            0 <= i < s0.len() ==> (#[trigger] self.locks@[i]) == s0[i]);
                    }
                }
                Ok(true)
            },
        }
    }

    /// Release the lock of a task; releasing an unlocked task changes
    /// nothing.
    pub fn release_edit_lock(&mut self, task_id: i64) -> (r: Result<(), String>)
        requires
            old(self).wf(),
        ensures
            final(self).wf(),
            r is Ok,
            final(self)@ == release_spec(old(self)@, task_id as int),
    {
        match self.find_index(task_id) {
            None => {
                proof {
                    assert(self@ =~= release_spec(self@, task_id as int));
                }
                Ok(())
            },
            Some(i) => {
                let ghost s0 = self.locks@;
                self.locks.remove(i);
                proof {
                    assert(self.locks@ =~= s0.remove(i as int));
                    lemma_locks_map_remove(s0, i as int);
                }
                Ok(())
            },
        }
    }

    /// Report whether a task is locked and by whom.
    pub fn check_edit_lock(&self, task_id: i64) -> (r: Result<LockStatus, String>)
        requires
            self.wf(),
        ensures
            r matches Ok(st) && st.is_locked == self@.contains_key(task_id as int) && (
            self@.contains_key(task_id as int) ==> (st.locked_by matches Some(lb) && lb@
                == self@[task_id as int].locked_by)) && (!self@.contains_key(task_id as int)
                ==> st.locked_by is None),
    {
        match self.find_index(task_id) {
            Some(i) => Ok(
                LockStatus { is_locked: true, locked_by: Some(self.locks[i].locked_by.clone()) },
            ),
            None => Ok(LockStatus { is_locked: false, locked_by: None }),
        }
    }

    /// The content snapshot stored when the lock was taken, if any.
    pub fn get_original_content(&self, task_id: i64) -> (r: Result<Option<String>, String>)
        requires
            self.wf(),
        ensures
            r matches Ok(o) && o.deep_view() == (if self@.contains_key(task_id as int) {
                self@[task_id as int].original_content
            } else {
                None
            }),
    {
        match self.find_index(task_id) {
            Some(i) => match &self.locks[i].original_content {
                Some(c) => Ok(Some(c.clone())),
                None => Ok(None),
            },
            None => Ok(None),
        }
    }

    /// Delete every lock; reports how many were held.
    pub fn force_release_all_locks(&mut self) -> (r: Result<i64, String>)
        requires
            old(self).wf(),
            old(self)@.dom().len() <= i64::MAX as int,
        ensures
            final(self).wf(),
            final(self)@ == Map::<int, LockV>::empty(),
            r matches Ok(n) && n == old(self)@.dom().len(),
    {
        proof {
            lemma_locks_map_props(self.locks@);
        }
        let n = self.locks.len();
        self.locks = Vec::new();
        Ok(n as i64)
    }

    /// Delete every lock strictly older than the timeout; reports how many
    /// were deleted.
    pub fn cleanup_stale_locks(&mut self, timeout_minutes: i64, now: u64) -> (r: Result<
        i64,
        String,
    >)
        requires
            old(self).wf(),
            old(self)@.dom().len() <= i64::MAX as int,
        ensures
            final(self).wf(),
            final(self)@ == cleanup_spec(old(self)@, timeout_minutes as int, now as int),
            r matches Ok(n) && n == old(self)@.dom().len() - final(self)@.dom().len(),
    {
        proof {
            lemma_locks_map_props(self.locks@);
        }
        let ghost s0 = self.locks@;
        let mut kept: Vec<EditLock> = Vec::new();
        let mut removed: usize = 0;
        let mut i: usize = 0;
        while i < self.locks.len()
            invariant
                unique_ids(s0),
                self.locks@ == s0,
                0 <= i <= s0.len(),
                kept@ == keep_locks(s0.take(i as int), timeout_minutes as int, now as int),
                kept@.len() + removed == i,
            decreases s0.len() - i,
        {
            let l = &self.locks[i];
            let age: i128 = now as i128 - l.locked_at as i128;
            let is_stale = age > timeout_minutes as i128 * 60;
            proof {
                assert(s0.take(i as int + 1).drop_last() =~= s0.take(i as int));
                assert(s0.take(i as int + 1).last() == s0[i as int]);
            }
            if !is_stale {
                let copy = EditLock {
                    task_id: l.task_id,
                    locked_by: l.locked_by.clone(),
                    locked_at: l.locked_at,
                    original_content: match &l.original_content {
                        Some(c) => Some(c.clone()),
                        None => None,
                    },
                };
                proof {
                    assert(copy@ == s0[i as int]@);
                    assert(copy.task_id == s0[i as int].task_id);
                }
                kept.push(copy);
            } else {
                removed += 1;
            }
            i += 1;
        }
        proof {
            assert(s0.take(s0.len() as int) =~= s0);
            lemma_keep_locks(s0, timeout_minutes as int, now as int);
            lemma_locks_map_props(keep_locks(s0, timeout_minutes as int, now as int));
        }
        self.locks = kept;
        Ok(removed as i64)
    }
}

/// The locks of a sequence that are not stale, in order.
pub open spec fn keep_locks(s: Seq<EditLock>, timeout_minutes: int, now: int) -> Seq<EditLock>
    decreases s.len(),
{
    if s.len() == 0 {
        s
    } else {
        let rest = keep_locks(s.drop_last(), timeout_minutes, now);
        if stale_lock(s.last()@, timeout_minutes, now) {
            rest
        } else {
            rest.push(s.last())
        }
    }
}

proof fn lemma_keep_locks(s: Seq<EditLock>, timeout_minutes: int, now: int)
    requires
        unique_ids(s),
    ensures
        unique_ids(keep_locks(s, timeout_minutes, now)),
        locks_map(keep_locks(s, timeout_minutes, now)) == cleanup_spec(
            locks_map(s),
            timeout_minutes,
            now,
        ),
        forall|i: int|
            0 <= i < keep_locks(s, timeout_minutes, now).len() ==> exists|j: int|
                0 <= j < s.len() && (#[trigger] keep_locks(s, timeout_minutes, now)[i]) == s[j],
    decreases s.len(),
{
    lemma_locks_map_props(s);
    if s.len() == 0 {
        assert(locks_map(keep_locks(s, timeout_minutes, now)) =~= cleanup_spec(
            locks_map(s),
            timeout_minutes,
            now,
        ));
    } else {
        let d = s.drop_last();
        assert(unique_ids(d)) by {
            assert(forall|i: int| 0 <= i < d.len() ==> d[i] == s[i]);
        }
        lemma_keep_locks(d, timeout_minutes, now);
        lemma_locks_map_props(d);
        let kd = keep_locks(d, timeout_minutes, now);
        let k = keep_locks(s, timeout_minutes, now);
        assert(forall|i: int| 0 <= i < d.len() ==> d[i] == s[i]);
        if stale_lock(s.last()@, timeout_minutes, now) {
            assert(k == kd);
            assert(locks_map(k) =~= cleanup_spec(locks_map(s), timeout_minutes, now)) by {
                assert(!locks_map(d).contains_key(s.last().task_id as int));
            }
        } else {
            assert(k == kd.push(s.last()));
            assert(unique_ids(k)) by {
                assert(forall|i: int| 0 <= i < kd.len() ==> k[i] == kd[i]);
                assert(k[k.len() - 1] == s.last());
                assert(forall|i: int|
                    0 <= i < kd.len() ==> exists|j: int|
                        0 <= j < d.len() && (#[trigger] kd[i]) == d[j]);
            }
            assert(k.drop_last() =~= kd);
            assert(locks_map(k) == locks_map(kd).insert(s.last().task_id as int, s.last()@));
            assert(locks_map(k) =~= cleanup_spec(locks_map(s), timeout_minutes, now)) by {
                assert(!locks_map(d).contains_key(s.last().task_id as int));
            }
        }
        assert(forall|i: int|
            0 <= i < k.len() ==> exists|j: int| 0 <= j < s.len() && (#[trigger] k[i]) == s[j])
            by {
            assert(forall|i: int|
                0 <= i < kd.len() ==> exists|j: int| 0 <= j < d.len() && (#[trigger] kd[i])
                    == d[j]);
            assert(forall|j: int| 0 <= j < d.len() ==> d[j] == s[j]);
        }
    }
}

proof fn lemma_locks_map_remove(s: Seq<EditLock>, i: int)
    requires
        unique_ids(s),
        0 <= i < s.len(),
    ensures
        unique_ids(s.remove(i)),
        locks_map(s.remove(i)) == locks_map(s).remove(s[i].task_id as int),
    decreases s.len(),
{
    lemma_locks_map_props(s);
    assert(unique_ids(s.remove(i))) by {
        assert(forall|a: int|
            0 <= a < s.remove(i).len() ==> s.remove(i)[a] == (if a < i {
                s[a]
            } else {
                s[a + 1]
            }));
    }
    let d = s.drop_last();
    assert(unique_ids(d)) by {
        assert(forall|a: int| 0 <= a < d.len() ==> d[a] == s[a]);
    }
    if i == s.len() - 1 {
        assert(s.remove(i) =~= d);
        lemma_locks_map_props(d);
        assert(!locks_map(d).contains_key(s[i].task_id as int)) by {
            assert(forall|a: int| 0 <= a < d.len() ==> d[a] == s[a]);
        }
        assert(locks_map(s.remove(i)) =~= locks_map(s).remove(s[i].task_id as int));
    } else {
        lemma_locks_map_remove(d, i);
        assert(s.remove(i).drop_last() =~= d.remove(i));
        assert(s.remove(i).last() == s.last());
        assert(locks_map(s.remove(i)) == locks_map(d.remove(i)).insert(
            s.last().task_id as int,
            s.last()@,
        ));
        assert(s[i].task_id != s.last().task_id);
        assert(locks_map(s.remove(i)) =~= locks_map(s).remove(s[i].task_id as int));
    }
}

// ---------------------------------------------------------------------------
// Laws of the lock table
// ---------------------------------------------------------------------------
/// Acquisition is idempotent-false: when a task is already locked, a
/// second acquisition for it, by any actor, reports `false` and leaves
/// every lock unchanged.
pub proof fn lemma_acquire_already_locked(
    m: Map<int, LockV>,
    task_id: int,
    locked_by: Seq<char>,
    original_content: Option<Seq<char>>,
    now: u64,
)
    requires
        valid_actor(locked_by),
        m.contains_key(task_id),
    ensures
        acquire_spec(m, task_id, locked_by, original_content, now) == (
            m,
            Ok::<bool, Seq<char>>(false),
        ),
{
}

/// Release followed by acquisition always succeeds: after the lock of a
/// task is released, a valid actor's acquisition reports `true` and
/// installs its lock.
pub proof fn lemma_release_then_acquire(
    m: Map<int, LockV>,
    task_id: int,
    locked_by: Seq<char>,
    original_content: Option<Seq<char>>,
    now: u64,
)
    requires
        valid_actor(locked_by),
    ensures
        ({
            let m1 = release_spec(m, task_id);
            acquire_spec(m1, task_id, locked_by, original_content, now) == (
                m1.insert(task_id, LockV { locked_by, locked_at: now, original_content }),
                Ok::<bool, Seq<char>>(true),
            )
        }),
{
}

/// The staleness sweep removes exactly the locks whose age exceeds the
/// timeout and leaves every other lock untouched, for any timeout.
pub proof fn lemma_cleanup_exact(m: Map<int, LockV>, timeout_minutes: int, now: int, k: int)
    ensures
        m.contains_key(k) && stale_lock(m[k], timeout_minutes, now) ==> !cleanup_spec(
            m,
            timeout_minutes,
            now,
        ).contains_key(k),
        m.contains_key(k) && !stale_lock(m[k], timeout_minutes, now) ==> cleanup_spec(
            m,
            timeout_minutes,
            now,
        ).contains_key(k) && cleanup_spec(m, timeout_minutes, now)[k] == m[k],
        !m.contains_key(k) ==> !cleanup_spec(m, timeout_minutes, now).contains_key(k),
{
}

} // verus!
