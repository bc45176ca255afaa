//! Generic keyed timelock: a single-use delayed-action record per
//! `(selector, key)` pair, maturing after a per-selector wait time.
//!
//! A host that derives one storage slot per composite key would hold one
//! lock record per address; here the keyed storage is explicit: a
//! [`Timelock`] store maps each `(selector, key)` pair to its pending
//! [`Lock`]. Absence of an
//! entry plays the role of the cleared (`unlock_time == 0`) record: at most
//! one pending action exists per key, and an entry is always destroyed (by
//! cancellation or consumption) before a new one can be created for its key.

use vstd::prelude::*;

verus! {

/// A pending delayed action: the time it matures and its opaque payload.
#[derive(Clone, Copy, Debug, PartialEq, Eq, Structural)]
pub struct Lock {
    /// The action may be consumed no earlier than this time; set exactly
    /// once at creation and never mutated. `0` means "no pending lock".
    pub unlock_time: u64,
    /// Opaque payload carried by the delayed action.
    pub i_value: u64,
}

/// Per-selector delay applied to future lock creations.
#[derive(Clone, Copy, Debug, PartialEq, Eq, Structural)]
pub struct LockWaitTime {
    pub wait_time: u64,
}

/// Errors surfaced by timelock operations. A failed call leaves the store
/// exactly as it was before the call.
#[derive(Clone, Copy, Debug, PartialEq, Eq, Structural)]
pub enum ErrorCode {
    LockAlreadyExists,
    LockNotYetUnlocked,
    LockNotFound,
}

/// Arm a cleared lock record: fails if the record still holds a pending
/// action, otherwise sets its maturity to `now + wait_time` and stores the
/// payload.
pub fn create_lock_util(lock: &mut Lock, wait_time: u64, i_value: u64, now: u64) -> (r: Result<
    (),
    ErrorCode,
>)
    requires
        now + wait_time <= u64::MAX,
    ensures
        old(lock).unlock_time != 0 ==> r == Err::<(), ErrorCode>(ErrorCode::LockAlreadyExists)
            && *final(lock) == *old(lock),
        old(lock).unlock_time == 0 ==> r == Ok::<(), ErrorCode>(()) && *final(lock) == (Lock {
            unlock_time: (now + wait_time) as u64,
            i_value,
        }),
{
    if lock.unlock_time != 0 {
        return Err(ErrorCode::LockAlreadyExists);
    }
    lock.unlock_time = now + wait_time;
    lock.i_value = i_value;
    Ok(())
}

/// Consume a pending lock record: fails while the record has not matured,
/// otherwise yields its payload. Maturity is a pure function of
/// `now >= unlock_time`.
pub fn unlock_util(lock: &Lock, now: u64) -> (r: Result<u64, ErrorCode>)
    ensures
        now < lock.unlock_time ==> r == Err::<u64, ErrorCode>(ErrorCode::LockNotYetUnlocked),
        now >= lock.unlock_time ==> r == Ok::<u64, ErrorCode>(lock.i_value),
{
    if now < lock.unlock_time {
        return Err(ErrorCode::LockNotYetUnlocked);
    }
    Ok(lock.i_value)
}

/// Set the delay applied to future lock creations of a selector; pending
/// entries keep the maturity they were created with.
pub fn update_lock_wait_time_util(lock_wait_time: &mut LockWaitTime, new_wait_time: u64)
    ensures
        *final(lock_wait_time) == (LockWaitTime { wait_time: new_wait_time }),
{
    lock_wait_time.wait_time = new_wait_time;
}

/// The finite map an association list denotes; a later entry for the same
/// key wins, though the store keeps its keys distinct.
pub open spec fn assoc_map<K, V>(entries: Seq<(K, V)>) -> Map<K, V>
    decreases entries.len(),
{
    if entries.len() == 0 {
        Map::empty()
    } else {
        assoc_map(entries.drop_last()).insert(entries.last().0, entries.last().1)
    }
}

/// No two entries of the association list share a key.
pub open spec fn distinct_keys<K, V>(entries: Seq<(K, V)>) -> bool {
    forall|i: int, j: int| 0 <= i < j < entries.len() ==> entries[i].0 != entries[j].0
}

proof fn lemma_assoc_map_domain<K, V>(entries: Seq<(K, V)>, k: K)
    ensures
        assoc_map(entries).contains_key(k) <==> exists|i: int|
            0 <= i < entries.len() && entries[i].0 == k,
    decreases entries.len(),
{
    if entries.len() > 0 {
        lemma_assoc_map_domain(entries.drop_last(), k);
        if entries.last().0 == k {
            assert(entries[entries.len() - 1].0 == k);
        } else if assoc_map(entries).contains_key(k) {
            let i = choose|i: int| 0 <= i < entries.drop_last().len() && entries.drop_last()[i].0 == k;
            assert(entries[i].0 == k);
        } else if exists|i: int| 0 <= i < entries.len() && entries[i].0 == k {
            let i = choose|i: int| 0 <= i < entries.len() && entries[i].0 == k;
            assert(entries.drop_last()[i].0 == k);
        }
    }
}

proof fn lemma_assoc_map_index<K, V>(entries: Seq<(K, V)>, i: int)
    requires
        distinct_keys(entries),
        0 <= i < entries.len(),
    ensures
        assoc_map(entries).contains_key(entries[i].0),
        assoc_map(entries)[entries[i].0] == entries[i].1,
    decreases entries.len(),
{
    if i < entries.len() - 1 {
        lemma_assoc_map_index(entries.drop_last(), i);
        assert(entries.drop_last()[i] == entries[i]);
    }
}

proof fn lemma_assoc_map_push<K, V>(entries: Seq<(K, V)>, k: K, v: V)
    ensures
        assoc_map(entries.push((k, v))) == assoc_map(entries).insert(k, v),
{
    assert(entries.push((k, v)).drop_last() =~= entries);
}

proof fn lemma_assoc_insert<K, V>(entries: Seq<(K, V)>, k: K, v: V)
    requires
        distinct_keys(entries),
        !assoc_map(entries).contains_key(k),
    ensures
        distinct_keys(entries.push((k, v))),
        assoc_map(entries.push((k, v))) == assoc_map(entries).insert(k, v),
{
    lemma_assoc_map_domain(entries, k);
    lemma_assoc_map_push(entries, k, v);
    let pushed = entries.push((k, v));
    assert forall|a: int, b: int| 0 <= a < b < pushed.len() implies pushed[a].0 != pushed[b].0 by {
        if b == entries.len() {
            assert(pushed[a] == entries[a]);
            if entries[a].0 == k {
                assert(0 <= a < entries.len() && entries[a].0 == k);
                assert(false);
            }
        } else {
            assert(pushed[a] == entries[a]);
            assert(pushed[b] == entries[b]);
        }
    }
}

proof fn lemma_assoc_map_remove<K, V>(entries: Seq<(K, V)>, i: int)
    requires
        distinct_keys(entries),
        0 <= i < entries.len(),
    ensures
        assoc_map(entries.remove(i)) == assoc_map(entries).remove(entries[i].0),
        distinct_keys(entries.remove(i)),
    decreases entries.len(),
{
    let k = entries[i].0;
    lemma_assoc_map_domain(entries.drop_last(), k);
    if i == entries.len() - 1 {
        assert(entries.remove(i) =~= entries.drop_last());
        assert(!assoc_map(entries.drop_last()).contains_key(k));
        assert(assoc_map(entries.drop_last()).insert(k, entries[i].1).remove(k) =~= assoc_map(
            entries.drop_last(),
        ));
    } else {
        let last = entries.last();
        assert(entries.remove(i).last() == last);
        assert(entries.remove(i).drop_last() =~= entries.drop_last().remove(i));
        assert(entries.drop_last()[i] == entries[i]);
        lemma_assoc_map_remove(entries.drop_last(), i);
        assert(last.0 != k);
        assert(assoc_map(entries.drop_last()).remove(k).insert(last.0, last.1) =~= assoc_map(
            entries.drop_last(),
        ).insert(last.0, last.1).remove(k));
        assert(assoc_map(entries.remove(i)) == assoc_map(entries).remove(k));
    }
}

/// Explicit keyed store for the timelock primitive: the pending locks,
/// keyed by `(selector, key)`, and the per-selector wait-time registry.
pub struct Timelock {
    locks: Vec<((u64, u64), Lock)>,
    wait_times: Vec<(u64, LockWaitTime)>,
}

impl Timelock {
    /// The pending delayed actions, as a map from `(selector, key)`.
    pub closed spec fn locks(self) -> Map<(u64, u64), Lock> {
        assoc_map(self.locks@)
    }

    /// The wait-time registry, as a map from selector.
    pub closed spec fn wait_times(self) -> Map<u64, LockWaitTime> {
        assoc_map(self.wait_times@)
    }

    /// The store keeps at most one entry per key.
    pub closed spec fn wf(self) -> bool {
        distinct_keys(self.locks@) && distinct_keys(self.wait_times@)
    }

    /// The delay applied to new locks of `selector`: the registered wait
    /// time, or zero while none has been registered.
    pub open spec fn wait_time_of(self, selector: u64) -> u64 {
        if self.wait_times().contains_key(selector) {
            self.wait_times()[selector].wait_time
        } else {
            0
        }
    }

    /// An empty store: no pending locks, no registered wait times.
    pub fn new() -> (t: Timelock)
        ensures
            t.wf(),
            t.locks() == Map::<(u64, u64), Lock>::empty(),
            t.wait_times() == Map::<u64, LockWaitTime>::empty(),
    {
        Timelock { locks: Vec::new(), wait_times: Vec::new() }
    }

    fn find_lock(&self, selector: u64, key: u64) -> (r: Option<usize>)
        ensures
            match r {
                Some(i) => i < self.locks@.len() && self.locks@[i as int].0 == (selector, key),
                None => !self.locks().contains_key((selector, key)),
            },
    {
        let n = self.locks.len();
        let mut i: usize = 0;
        while i < n
            invariant
                n == self.locks@.len(),
                i <= n,
                forall|j: int| 0 <= j < i ==> self.locks@[j].0 != (selector, key),
            decreases n - i,
        {
            let entry = &self.locks[i];
            if entry.0.0 == selector && entry.0.1 == key {
                return Some(i);
            }
            i = i + 1;
        }
        proof {
            lemma_assoc_map_domain(self.locks@, (selector, key));
        }
        None
    }

    fn find_wait_time(&self, selector: u64) -> (r: Option<usize>)
        ensures
            match r {
                Some(i) => i < self.wait_times@.len() && self.wait_times@[i as int].0 == selector,
                None => !self.wait_times().contains_key(selector),
            },
    {
        let n = self.wait_times.len();
        let mut i: usize = 0;
        while i < n
            invariant
                n == self.wait_times@.len(),
                i <= n,
                forall|j: int| 0 <= j < i ==> self.wait_times@[j].0 != selector,
            decreases n - i,
        {
            if self.wait_times[i].0 == selector {
                return Some(i);
            }
            i = i + 1;
        }
        proof {
            lemma_assoc_map_domain(self.wait_times@, selector);
        }
        None
    }

    /// Register the delay applied to future lock creations of `selector`;
    /// already-pending entries are unaffected.
    pub fn update_lock_wait_time(&mut self, selector: u64, new_wait_time: u64)
        requires
            old(self).wf(),
        ensures
            final(self).wf(),
            final(self).locks() == old(self).locks(),
            final(self).wait_times() == old(self).wait_times().insert(
                selector,
                (LockWaitTime { wait_time: new_wait_time }),
            ),
    {
        let mut entry = LockWaitTime { wait_time: 0 };
        update_lock_wait_time_util(&mut entry, new_wait_time);
        match self.find_wait_time(selector) {
            Some(i) => {
                proof {
                    lemma_assoc_map_remove(self.wait_times@, i as int);
                }
                self.wait_times.remove(i);
                let ghost removed_seq = self.wait_times@;
                proof {
                    lemma_assoc_insert(removed_seq, selector, entry);
                }
                self.wait_times.push((selector, entry));
                proof {
                    assert(old(self).wait_times().remove(selector).insert(selector, entry)
                        =~= old(self).wait_times().insert(selector, entry));
                }
            }
            None => {
                let ghost before_seq = self.wait_times@;
                proof {
                    lemma_assoc_insert(before_seq, selector, entry);
                }
                self.wait_times.push((selector, entry));
            }
        }
    }

    /// Schedule a delayed action: fails if a pending entry already exists
    /// for `(selector, key)`, otherwise stores `i_value` maturing at
    /// `now + wait_time(selector)` and returns that maturity time.
    pub fn create_lock(&mut self, selector: u64, key: u64, i_value: u64, now: u64) -> (r: Result<
        u64,
        ErrorCode,
    >)
        requires
            old(self).wf(),
            now + old(self).wait_time_of(selector) <= u64::MAX,
        ensures
            final(self).wf(),
            final(self).wait_times() == old(self).wait_times(),
            old(self).locks().contains_key((selector, key)) ==> r == Err::<u64, ErrorCode>(
                ErrorCode::LockAlreadyExists,
            ) && final(self).locks() == old(self).locks(),
            !old(self).locks().contains_key((selector, key)) ==> r == Ok::<u64, ErrorCode>(
                (now + old(self).wait_time_of(selector)) as u64,
            ) && final(self).locks() == old(self).locks().insert(
                (selector, key),
                (Lock {
                    unlock_time: (now + old(self).wait_time_of(selector)) as u64,
                    i_value,
                }),
            ),
    {
        if let Some(i) = self.find_lock(selector, key) {
            proof {
                lemma_assoc_map_index(self.locks@, i as int);
            }
            return Err(ErrorCode::LockAlreadyExists);
        }

        let wait_time = match self.find_wait_time(selector) {
            Some(i) => {
                proof {
                    lemma_assoc_map_index(self.wait_times@, i as int);
                }
                self.wait_times[i].1.wait_time
            }
            None => 0,
        };

        let mut lock = Lock { unlock_time: 0, i_value: 0 };
        let created = create_lock_util(&mut lock, wait_time, i_value, now);
        proof {
            lemma_assoc_insert(self.locks@, (selector, key), lock);
        }
        self.locks.push(((selector, key), lock));
        match created {
            Ok(_) => Ok(lock.unlock_time),
            Err(e) => Err(e),
        }
    }

    /// Cancel a pending action unconditionally (no maturity check),
    /// destroying the entry and returning its payload.
    pub fn revert_lock(&mut self, selector: u64, key: u64) -> (r: Result<u64, ErrorCode>)
        requires
            old(self).wf(),
        ensures
            final(self).wf(),
            final(self).wait_times() == old(self).wait_times(),
            !old(self).locks().contains_key((selector, key)) ==> r == Err::<u64, ErrorCode>(
                ErrorCode::LockNotFound,
            ) && final(self).locks() == old(self).locks(),
            old(self).locks().contains_key((selector, key)) ==> r == Ok::<u64, ErrorCode>(
                old(self).locks()[(selector, key)].i_value,
            ) && final(self).locks() == old(self).locks().remove((selector, key)),
    {
        match self.find_lock(selector, key) {
            Some(i) => {
                proof {
                    lemma_assoc_map_index(self.locks@, i as int);
                    lemma_assoc_map_remove(self.locks@, i as int);
                }
                let entry = self.locks.remove(i);
                Ok(entry.1.i_value)
            }
            None => Err(ErrorCode::LockNotFound),
        }
    }

    /// Consume a matured action: fails if no entry is pending for
    /// `(selector, key)` or if it has not matured yet; on success the entry
    /// is destroyed (single use) and its payload returned.
    pub fn unlock(&mut self, selector: u64, key: u64, now: u64) -> (r: Result<u64, ErrorCode>)
        requires
            old(self).wf(),
        ensures
            final(self).wf(),
            final(self).wait_times() == old(self).wait_times(),
            !old(self).locks().contains_key((selector, key)) ==> r == Err::<u64, ErrorCode>(
                ErrorCode::LockNotFound,
            ) && final(self).locks() == old(self).locks(),
            old(self).locks().contains_key((selector, key)) && now < old(self).locks()[
                (selector, key)
            ].unlock_time ==> r == Err::<u64, ErrorCode>(ErrorCode::LockNotYetUnlocked) && final(self).locks() == old(self).locks(),
            old(self).locks().contains_key((selector, key)) && now >= old(self).locks()[
                (selector, key)
            ].unlock_time ==> r == Ok::<u64, ErrorCode>(old(self).locks()[(selector, key)].i_value)
                && final(self).locks() == old(self).locks().remove((selector, key)),
    {
        match self.find_lock(selector, key) {
            Some(i) => {
                proof {
                    lemma_assoc_map_index(self.locks@, i as int);
                }
                let unlocked = unlock_util(&self.locks[i].1, now);
                match unlocked {
                    Ok(i_value) => {
                        proof {
                            lemma_assoc_map_remove(self.locks@, i as int);
                        }
                        self.locks.remove(i);
                        Ok(i_value)
                    }
                    Err(e) => Err(e),
                }
            }
            None => Err(ErrorCode::LockNotFound),
        }
    }

    /// Duplicate a pending action's remaining wait: copy maturity and
    /// payload from `(selector, from_key)` to a new entry at
    /// `(selector, to_key)` without resetting the timer.
    pub fn clone_lock(&mut self, selector: u64, from_key: u64, to_key: u64) -> (r: Result<
        (),
        ErrorCode,
    >)
        requires
            old(self).wf(),
        ensures
            final(self).wf(),
            final(self).wait_times() == old(self).wait_times(),
            !old(self).locks().contains_key((selector, from_key)) ==> r == Err::<(), ErrorCode>(
                ErrorCode::LockNotFound,
            ) && final(self).locks() == old(self).locks(),
            old(self).locks().contains_key((selector, from_key)) && old(self).locks().contains_key(
                (selector, to_key),
            ) ==> r == Err::<(), ErrorCode>(ErrorCode::LockAlreadyExists) && final(self).locks()
                == old(self).locks(),
            old(self).locks().contains_key((selector, from_key))
                && !old(self).locks().contains_key((selector, to_key)) ==> r == Ok::<(), ErrorCode>(
                (),
            ) && final(self).locks() == old(self).locks().insert(
                (selector, to_key),
                old(self).locks()[(selector, from_key)],
            ),
    {
        let from_i = match self.find_lock(selector, from_key) {
            Some(i) => i,
            None => {
                return Err(ErrorCode::LockNotFound);
            }
        };
        proof {
            lemma_assoc_map_index(self.locks@, from_i as int);
        }
        if let Some(i) = self.find_lock(selector, to_key) {
            proof {
                lemma_assoc_map_index(self.locks@, i as int);
            }
            return Err(ErrorCode::LockAlreadyExists);
        }
        let copied = self.locks[from_i].1;
        proof {
            lemma_assoc_insert(self.locks@, (selector, to_key), copied);
        }
        self.locks.push(((selector, to_key), copied));
        Ok(())
    }
}

} // verus!
