//! Request queue: admission control for concurrently processing agent
//! requests and the lifecycle of each queued item.
//!
//! An item is created `pending`, moves to `processing` exactly once, and
//! ends in exactly one terminal state, `completed` or `failed`.  The
//! manager also keeps the running counter that enforces the admission cap
//! and a FIFO of item ids that arrived while the queue was at capacity.

use vstd::prelude::*;
use crate::types::AIQueueItem;

verus! {

/// The lifecycle state of a queue item.
#[derive(Debug, Clone, Copy, PartialEq, Eq, Structural)]
pub enum QueueStatus {
    Pending,
    Processing,
    Completed,
    Failed,
}

impl QueueStatus {
    /// Whether the item has reached a terminal state.
    pub open spec fn is_terminal(self) -> bool {
        self is Completed || self is Failed
    }

    /// The name under which the status is persisted.
    pub fn as_str(&self) -> (r: &'static str)
        ensures
            self is Pending ==> r@ == "pending"@,
            self is Processing ==> r@ == "processing"@,
            self is Completed ==> r@ == "completed"@,
            self is Failed ==> r@ == "failed"@,
    {
        match self {
            QueueStatus::Pending => "pending",
            QueueStatus::Processing => "processing",
            QueueStatus::Completed => "completed",
            QueueStatus::Failed => "failed",
        }
    }
}

/// One queued agent request and its lifecycle record.
#[derive(Debug, Clone)]
pub struct QueueEntry {
    pub id: i64,
    pub status: QueueStatus,
    pub message: String,
    pub response: Option<String>,
    pub created_at: i64,
    pub completed_at: Option<i64>,
    pub agent_name: Option<String>,
    pub processing_since: Option<i64>,
}

/// A queue entry is well formed when its completion timestamp and its
/// response are present exactly on the terminal statuses.
pub open spec fn entry_wf(e: QueueEntry) -> bool {
    &&& e.id >= 1
    &&& (e.status.is_terminal() <==> e.completed_at is Some)
    &&& (e.status.is_terminal() <==> e.response is Some)
    &&& (e.status is Processing <==> e.processing_since is Some)
}

/// How many entries are currently in the processing state.
pub open spec fn count_processing(s: Seq<QueueEntry>) -> int
    decreases s.len(),
{
    if s.len() == 0 {
        0
    } else {
        count_processing(s.drop_last()) + if s.last().status is Processing {
            1int
        } else {
            0int
        }
    }
}

proof fn lemma_count_processing_bounds(s: Seq<QueueEntry>)
    ensures
        0 <= count_processing(s) <= s.len(),
    decreases s.len(),
{
    if s.len() > 0 {
        lemma_count_processing_bounds(s.drop_last());
    }
}

proof fn lemma_count_processing_push(s: Seq<QueueEntry>, e: QueueEntry)
    ensures
        count_processing(s.push(e)) == count_processing(s) + if e.status is Processing {
            1int
        } else {
            0int
        },
{
    assert(s.push(e).drop_last() =~= s);
    assert(s.push(e).last() == e);
}

proof fn lemma_count_processing_update(s: Seq<QueueEntry>, i: int, e: QueueEntry)
    requires
        0 <= i < s.len(),
    ensures
        count_processing(s.update(i, e)) == count_processing(s) - (
        if s[i].status is Processing {
            1int
        } else {
            0int
        }) + (
        if e.status is Processing {
            1int
        } else {
            0int
        }),
    decreases s.len(),
{
    let s2 = s.update(i, e);
    if i == s.len() - 1 {
        assert(s2.drop_last() =~= s.drop_last());
        assert(s2.last() == e);
    } else {
        assert(s2.drop_last() =~= s.drop_last().update(i, e));
        lemma_count_processing_update(s.drop_last(), i, e);
        assert(s2.last() == s.last());
    }
}

proof fn lemma_count_processing_at_least_one(s: Seq<QueueEntry>, i: int)
    requires
        0 <= i < s.len(),
        s[i].status is Processing,
    ensures
        count_processing(s) >= 1,
    decreases s.len(),
{
    if i == s.len() - 1 {
        lemma_count_processing_bounds(s.drop_last());
    } else {
        lemma_count_processing_at_least_one(s.drop_last(), i);
    }
}

/// Whether a processing item's lease, granted when processing started,
/// has run out.
pub open spec fn lease_expired(e: QueueEntry, now: int, lease_secs: int) -> bool {
    e.status is Processing && e.processing_since->0 + lease_secs <= now
}

/// Whether some entry carries the given id.
pub open spec fn has_id(s: Seq<QueueEntry>, id: i64) -> bool {
    exists|j: int| 0 <= j < s.len() && #[trigger] s[j].id == id
}

/// The index of the entry with the given id (unique in a well-formed
/// manager, whose ids increase strictly).
pub open spec fn index_of_id(s: Seq<QueueEntry>, id: i64) -> int {
    choose|j: int| 0 <= j < s.len() && #[trigger] s[j].id == id
}

/// The in-process queue manager: the admission cap, the running counter,
/// the persisted entries and the FIFO of ids that arrived at capacity.
#[derive(Debug)]
pub struct QueueManager {
    pub max_concurrent: i32,
    pub current_running: i32,
    pub entries: Vec<QueueEntry>,
    pub pending_queue: Vec<i64>,
    pub next_id: i64,
}

impl QueueManager {
    /// Well-formedness: the running counter equals the number of entries
    /// in the processing state, ids increase strictly and stay below the
    /// next id to assign, and each entry is itself well formed.
    pub open spec fn wf(self) -> bool {
        &&& self.current_running as int == count_processing(self.entries@)
        &&& self.entries@.len() < 0x7fff_ffff
        &&& self.next_id >= 1
        &&& forall|i: int| 0 <= i < self.entries@.len() ==> entry_wf(#[trigger] self.entries@[i])
        &&& forall|i: int|
            0 <= i < self.entries@.len() ==> (#[trigger] self.entries@[i]).id < self.next_id
        &&& forall|i: int, j: int|
            0 <= i < j < self.entries@.len() ==> (#[trigger] self.entries@[i]).id < (
            #[trigger] self.entries@[j]).id
    }

    /// Whether a request may start processing now.
    pub open spec fn can_process_spec(self) -> bool {
        self.current_running < self.max_concurrent
    }

    /// A fresh manager with the given admission cap and nothing queued.
    pub fn new(max_concurrent: i32) -> (r: Self)
        ensures
            r.wf(),
            r.max_concurrent == max_concurrent,
            r.current_running == 0,
            r.entries@.len() == 0,
            r.pending_queue@.len() == 0,
            r.next_id == 1,
    {
        QueueManager {
            max_concurrent,
            current_running: 0,
            entries: Vec::new(),
            pending_queue: Vec::new(),
            next_id: 1,
        }
    }

    /// Update the admission cap; in-flight work is not paused or revoked.
    pub fn set_max_concurrent(&mut self, max: i32)
        requires
            old(self).wf(),
        ensures
            final(self).wf(),
            final(self).max_concurrent == max,
            final(self).current_running == old(self).current_running,
            final(self).entries@ == old(self).entries@,
            final(self).pending_queue@ == old(self).pending_queue@,
            final(self).next_id == old(self).next_id,
    {
        self.max_concurrent = max;
    }

    /// Whether a request may start processing now: the running counter is
    /// below the admission cap.
    pub fn can_process(&self) -> (r: bool)
        ensures
            r == self.can_process_spec(),
    {
        self.current_running < self.max_concurrent
    }

    /// Persist a new pending item and return its id.  When the queue is at
    /// capacity the id is also appended to the in-memory FIFO.
    pub fn enqueue(&mut self, message: String, agent_name: Option<String>, created_at: i64) -> (id:
        i64)
        requires
            old(self).wf(),
            old(self).next_id < i64::MAX,
            old(self).entries@.len() + 1 < 0x7fff_ffff,
        ensures
            final(self).wf(),
            id == old(self).next_id,
            final(self).next_id == old(self).next_id + 1,
            final(self).entries@ == old(self).entries@.push(
                (QueueEntry {
                    id,
                    status: QueueStatus::Pending,
                    message,
                    response: None,
                    created_at,
                    completed_at: None,
                    agent_name,
                    processing_since: None,
                }),
            ),
            final(self).current_running == old(self).current_running,
            final(self).max_concurrent == old(self).max_concurrent,
            final(self).pending_queue@ == if old(self).can_process_spec() {
                old(self).pending_queue@
            } else {
                old(self).pending_queue@.push(id)
            },
    {
        let id = self.next_id;
        self.next_id = self.next_id + 1;
        let entry = QueueEntry {
            id,
            status: QueueStatus::Pending,
            message,
            response: None,
            created_at,
            completed_at: None,
            agent_name,
            processing_since: None,
        };
        proof {
            lemma_count_processing_push(self.entries@, entry);
        }
        self.entries.push(entry);
        if !(self.current_running < self.max_concurrent) {
            self.pending_queue.push(id);
        }
        id
    }

    fn find_index(&self, queue_id: i64) -> (idx: usize)
        requires
            self.wf(),
            has_id(self.entries@, queue_id),
        ensures
            idx < self.entries@.len(),
            self.entries@[idx as int].id == queue_id,
            idx as int == index_of_id(self.entries@, queue_id),
    {
        let n = self.entries.len();
        let mut j: usize = 0;
        while j < n
            invariant
                self.wf(),
                has_id(self.entries@, queue_id),
                n == self.entries@.len(),
                j <= n,
                forall|k: int| 0 <= k < j ==> (#[trigger] self.entries@[k]).id != queue_id,
            decreases n - j,
        {
            if self.entries[j].id == queue_id {
                proof {
                    lemma_index_of_id_unique(self.entries@, queue_id, j as int);
                }
                return j;
            }
            j = j + 1;
        }
        proof {
            assert(false);
        }
        0
    }

    /// Mark the pending item with the given id as processing, record when
    /// its lease began, and take one admission slot.  Callers first
    /// observe `can_process`.
    pub fn start_processing(&mut self, queue_id: i64, now: i64)
        requires
            old(self).wf(),
            old(self).can_process_spec(),
            has_id(old(self).entries@, queue_id),
            old(self).entries@[index_of_id(old(self).entries@, queue_id)].status is Pending,
        ensures
            final(self).wf(),
            final(self).entries@ == old(self).entries@.update(
                index_of_id(old(self).entries@, queue_id),
                (QueueEntry {
                    status: QueueStatus::Processing,
                    processing_since: Some(now),
                    ..old(self).entries@[index_of_id(old(self).entries@, queue_id)]
                }),
            ),
            final(self).current_running == old(self).current_running + 1,
            final(self).current_running <= final(self).max_concurrent,
            final(self).max_concurrent == old(self).max_concurrent,
            final(self).pending_queue@ == old(self).pending_queue@,
            final(self).next_id == old(self).next_id,
    {
        let idx = self.find_index(queue_id);
        let ghost s = self.entries@;
        let ghost spec_idx = index_of_id(s, queue_id);
        proof {
            lemma_count_processing_bounds(s);
        }
        let entry = &self.entries[idx];
        let updated = QueueEntry {
            id: entry.id,
            status: QueueStatus::Processing,
            message: entry.message.clone(),
            response: None,
            created_at: entry.created_at,
            completed_at: None,
            agent_name: entry.agent_name.clone(),
            processing_since: Some(now),
        };
        proof {
            lemma_count_processing_update(s, idx as int, updated);
            assert(updated == (QueueEntry {
                status: QueueStatus::Processing,
                processing_since: Some(now),
                ..s[spec_idx]
            }));
        }
        self.entries.set(idx, updated);
        self.current_running = self.current_running + 1;
    }

    /// Mark the processing item with the given id as completed, store the
    /// response text and the completion time, and release its admission
    /// slot.  The head of the FIFO of waiting ids, if any, is discarded.
    pub fn complete(&mut self, queue_id: i64, response: &str, completed_at: i64)
        requires
            old(self).wf(),
            has_id(old(self).entries@, queue_id),
            old(self).entries@[index_of_id(old(self).entries@, queue_id)].status is Processing,
        ensures
            final(self).wf(),
            final(self).terminal_transition(*old(self), queue_id, QueueStatus::Completed, response@, completed_at),
    {
        self.finish(queue_id, QueueStatus::Completed, response, completed_at);
    }

    /// Mark the processing item with the given id as failed, store the
    /// error text and the completion time, and release its admission slot.
    /// The head of the FIFO of waiting ids, if any, is discarded.
    pub fn fail(&mut self, queue_id: i64, error: &str, completed_at: i64)
        requires
            old(self).wf(),
            has_id(old(self).entries@, queue_id),
            old(self).entries@[index_of_id(old(self).entries@, queue_id)].status is Processing,
        ensures
            final(self).wf(),
            final(self).terminal_transition(*old(self), queue_id, QueueStatus::Failed, error@, completed_at),
    {
        self.finish(queue_id, QueueStatus::Failed, error, completed_at);
    }

    /// How a manager relates to its previous state after an item reached a
    /// terminal status with the given response text.
    pub open spec fn terminal_transition(
        self,
        pre: Self,
        queue_id: i64,
        status: QueueStatus,
        response: Seq<char>,
        completed_at: i64,
    ) -> bool {
        let idx = index_of_id(pre.entries@, queue_id);
        let e = self.entries@[idx];
        &&& self.entries@.len() == pre.entries@.len()
        &&& forall|j: int|
            0 <= j < pre.entries@.len() && j != idx ==> #[trigger] self.entries@[j]
                == pre.entries@[j]
        &&& e.id == queue_id
        &&& e.status == status
        &&& e.message == pre.entries@[idx].message
        &&& e.created_at == pre.entries@[idx].created_at
        &&& e.agent_name == pre.entries@[idx].agent_name
        &&& e.completed_at == Some(completed_at)
        &&& e.processing_since is None
        &&& e.response matches Some(r) && r@ == response
        &&& self.current_running == pre.current_running - 1
        &&& self.max_concurrent == pre.max_concurrent
        &&& self.next_id == pre.next_id
        &&& self.pending_queue@ == if pre.pending_queue@.len() > 0 {
            pre.pending_queue@.drop_first()
        } else {
            pre.pending_queue@
        }
    }

    fn finish(&mut self, queue_id: i64, status: QueueStatus, response: &str, completed_at: i64)
        requires
            old(self).wf(),
            status.is_terminal(),
            has_id(old(self).entries@, queue_id),
            old(self).entries@[index_of_id(old(self).entries@, queue_id)].status is Processing,
        ensures
            final(self).wf(),
            final(self).terminal_transition(*old(self), queue_id, status, response@, completed_at),
    {
        let idx = self.find_index(queue_id);
        let ghost s = self.entries@;
        proof {
            lemma_count_processing_at_least_one(s, idx as int);
        }
        let entry = &self.entries[idx];
        let updated = QueueEntry {
            id: entry.id,
            status,
            message: entry.message.clone(),
            response: Some(response.to_owned()),
            created_at: entry.created_at,
            completed_at: Some(completed_at),
            agent_name: entry.agent_name.clone(),
            processing_since: None,
        };
        proof {
            lemma_count_processing_update(s, idx as int, updated);
        }
        self.entries.set(idx, updated);
        self.current_running = self.current_running - 1;
        if self.pending_queue.len() > 0 {
            self.pending_queue.remove(0);
        }
    }

    /// Reconciliation sweep: an item abandoned in the processing state —
    /// its owner crashed and will never complete or fail it — would hold
    /// its admission slot forever.  Every processing item whose lease
    /// began `lease_secs` or more before `now` is moved to `failed`, its
    /// slot released, and its id returned, in order; everything else is
    /// untouched.
    pub fn reclaim_expired(&mut self, now: i64, lease_secs: i64) -> (reclaimed: Vec<i64>)
        requires
            old(self).wf(),
        ensures
            final(self).wf(),
            final(self).entries@.len() == old(self).entries@.len(),
            forall|j: int|
                0 <= j < old(self).entries@.len() ==> {
                    let e = #[trigger] old(self).entries@[j];
                    let f = final(self).entries@[j];
                    if lease_expired(e, now as int, lease_secs as int) {
                        &&& f.id == e.id
                        &&& f.status is Failed
                        &&& f.message == e.message
                        &&& f.created_at == e.created_at
                        &&& f.agent_name == e.agent_name
                        &&& f.completed_at == Some(now)
                        &&& f.processing_since is None
                        &&& f.response matches Some(r) && r@ == "Processing expired"@
                    } else {
                        f == e
                    }
                },
            reclaimed@ == old(self).entries@.filter(
                |e: QueueEntry| lease_expired(e, now as int, lease_secs as int),
            ).map_values(|e: QueueEntry| e.id),
            final(self).max_concurrent == old(self).max_concurrent,
            final(self).pending_queue@ == old(self).pending_queue@,
            final(self).next_id == old(self).next_id,
    {
        let ghost pred = |e: QueueEntry| lease_expired(e, now as int, lease_secs as int);
        let n = self.entries.len();
        let mut reclaimed: Vec<i64> = Vec::new();
        let mut j: usize = 0;
        proof {
            assert(old(self).entries@.take(0int).filter(pred) =~= Seq::<QueueEntry>::empty());
            assert(reclaimed@ =~= old(self).entries@.take(0int).filter(pred).map_values(
                |e: QueueEntry| e.id,
            ));
        }
        while j < n
            invariant
                self.wf(),
                n == self.entries@.len(),
                n == old(self).entries@.len(),
                j <= n,
                pred == (|e: QueueEntry| lease_expired(e, now as int, lease_secs as int)),
                self.max_concurrent == old(self).max_concurrent,
                self.pending_queue@ == old(self).pending_queue@,
                self.next_id == old(self).next_id,
                reclaimed@ == old(self).entries@.take(j as int).filter(pred).map_values(
                    |e: QueueEntry| e.id,
                ),
                forall|k: int|
                    0 <= k < j ==> {
                        let e = #[trigger] old(self).entries@[k];
                        let f = self.entries@[k];
                        if lease_expired(e, now as int, lease_secs as int) {
                            &&& f.id == e.id
                            &&& f.status is Failed
                            &&& f.message == e.message
                            &&& f.created_at == e.created_at
                            &&& f.agent_name == e.agent_name
                            &&& f.completed_at == Some(now)
                            &&& f.processing_since is None
                            &&& f.response matches Some(r) && r@ == "Processing expired"@
                        } else {
                            f == e
                        }
                    },
                forall|k: int|
                    j <= k < n ==> #[trigger] self.entries@[k] == old(self).entries@[k],
            decreases n - j,
        {
            proof {
                reveal_with_fuel(Seq::filter, 2);
                assert(old(self).entries@.take(j as int + 1).drop_last() =~= old(
                    self,
                ).entries@.take(j as int));
                assert(old(self).entries@.take(j as int + 1).last() == old(self).entries@[j as int]);
            }
            let status = self.entries[j].status;
            let since = self.entries[j].processing_since;
            let expired: bool = match (status, since) {
                (QueueStatus::Processing, Some(s)) => (now as i128) - (s as i128) >= (
                lease_secs as i128),
                _ => false,
            };
            if expired {
                let entry = &self.entries[j];
                let updated = QueueEntry {
                    id: entry.id,
                    status: QueueStatus::Failed,
                    message: entry.message.clone(),
                    response: Some("Processing expired".to_owned()),
                    created_at: entry.created_at,
                    completed_at: Some(now),
                    agent_name: entry.agent_name.clone(),
                    processing_since: None,
                };
                proof {
                    lemma_count_processing_at_least_one(self.entries@, j as int);
                    lemma_count_processing_update(self.entries@, j as int, updated);
                }
                reclaimed.push(entry.id);
                self.entries.set(j, updated);
                self.current_running = self.current_running - 1;
                proof {
                    assert(reclaimed@ =~= old(self).entries@.take(j as int + 1).filter(
                        pred,
                    ).map_values(|e: QueueEntry| e.id));
                }
            } else {
                proof {
                    assert(reclaimed@ =~= old(self).entries@.take(j as int + 1).filter(
                        pred,
                    ).map_values(|e: QueueEntry| e.id));
                }
            }
            j = j + 1;
        }
        proof {
            assert(old(self).entries@.take(n as int) =~= old(self).entries@);
        }
        reclaimed
    }

    /// Pop the next waiting id, but only when a slot is free.
    pub fn get_next_pending(&mut self) -> (r: Option<i64>)
        requires
            old(self).wf(),
        ensures
            final(self).wf(),
            final(self).entries@ == old(self).entries@,
            final(self).current_running == old(self).current_running,
            final(self).max_concurrent == old(self).max_concurrent,
            final(self).next_id == old(self).next_id,
            !old(self).can_process_spec() ==> r is None && final(self).pending_queue@ == old(
                self,
            ).pending_queue@,
            old(self).can_process_spec() && old(self).pending_queue@.len() == 0 ==> r is None
                && final(self).pending_queue@ == old(self).pending_queue@,
            old(self).can_process_spec() && old(self).pending_queue@.len() > 0 ==> r == Some(
                old(self).pending_queue@[0],
            ) && final(self).pending_queue@ == old(self).pending_queue@.drop_first(),
    {
        if !(self.current_running < self.max_concurrent) {
            return None;
        }
        if self.pending_queue.len() == 0 {
            return None;
        }
        let id = self.pending_queue.remove(0);
        Some(id)
    }

    /// The number of items that were ever enqueued and are still stored.
    pub fn queue_len(&self) -> (r: usize)
        ensures
            r == self.entries@.len(),
    {
        self.entries.len()
    }

    /// Read back the persisted record of one item.
    pub fn get_queue_item(&self, queue_id: i64) -> (r: Option<AIQueueItem>)
        requires
            self.wf(),
        ensures
            r is Some <==> has_id(self.entries@, queue_id),
            r matches Some(item) ==> {
                let e = self.entries@[index_of_id(self.entries@, queue_id)];
                &&& item.id == queue_id
                &&& item.status@ == e.status.as_str_spec()
                &&& item.message == e.message
                &&& item.response == e.response
                &&& item.created_at == e.created_at
                &&& item.completed_at == e.completed_at
                &&& item.agent_name == e.agent_name
            },
    {
        let n = self.entries.len();
        let mut j: usize = 0;
        while j < n
            invariant
                self.wf(),
                n == self.entries@.len(),
                j <= n,
                forall|k: int| 0 <= k < j ==> (#[trigger] self.entries@[k]).id != queue_id,
            decreases n - j,
        {
            if self.entries[j].id == queue_id {
                let e = &self.entries[j];
                proof {
                    lemma_index_of_id_unique(self.entries@, queue_id, j as int);
                }
                return Some(
                    AIQueueItem {
                        id: e.id,
                        status: e.status.as_str().to_owned(),
                        message: e.message.clone(),
                        response: e.response.clone(),
                        created_at: e.created_at,
                        completed_at: e.completed_at,
                        agent_name: e.agent_name.clone(),
                    },
                );
            }
            j = j + 1;
        }
        None
    }

    /// Drop every item that reached a terminal state; pending and
    /// processing items survive, in order.
    pub fn clear_finished_queue_items(&mut self)
        requires
            old(self).wf(),
        ensures
            final(self).wf(),
            final(self).entries@ == old(self).entries@.filter(
                |e: QueueEntry| !e.status.is_terminal(),
            ),
            final(self).current_running == old(self).current_running,
            final(self).max_concurrent == old(self).max_concurrent,
            final(self).pending_queue@ == old(self).pending_queue@,
            final(self).next_id == old(self).next_id,
    {
        let n = self.entries.len();
        let mut kept: Vec<QueueEntry> = Vec::new();
        let mut j: usize = 0;
        proof {
            assert(self.entries@.take(0int).filter(|e: QueueEntry| !e.status.is_terminal())
                =~= Seq::<QueueEntry>::empty());
        }
        while j < n
            invariant
                self.wf(),
                n == self.entries@.len(),
                j <= n,
                kept@ == self.entries@.take(j as int).filter(
                    |e: QueueEntry| !e.status.is_terminal(),
                ),
                kept@.len() <= j,
                count_processing(kept@) == count_processing(self.entries@.take(j as int)),
                forall|k: int| 0 <= k < kept@.len() ==> entry_wf(#[trigger] kept@[k]),
                forall|k: int|
                    0 <= k < kept@.len() ==> (#[trigger] kept@[k]).id < self.next_id,
                forall|k: int|
                    0 <= k < kept@.len() && j < n ==> (#[trigger] kept@[k]).id
                        < self.entries@[j as int].id,
                forall|a: int, b: int|
                    0 <= a < b < kept@.len() ==> (#[trigger] kept@[a]).id < (
                    #[trigger] kept@[b]).id,
            decreases n - j,
        {
            let e = &self.entries[j];
            proof {
                reveal_with_fuel(Seq::filter, 2);
                assert(self.entries@.take(j as int + 1).drop_last() =~= self.entries@.take(
                    j as int,
                ));
                assert(self.entries@.take(j as int + 1).last() == self.entries@[j as int]);
                lemma_count_processing_push(kept@, self.entries@[j as int]);
            }
            let keep = match e.status {
                QueueStatus::Completed => false,
                QueueStatus::Failed => false,
                _ => true,
            };
            if keep {
                kept.push(e.clone_entry());
            }
            j = j + 1;
        }
        proof {
            assert(self.entries@.take(n as int) =~= self.entries@);
        }
        self.entries = kept;
    }
}

/// In a sequence with strictly increasing ids the index of an id is the
/// position where it was found.
proof fn lemma_index_of_id_unique(s: Seq<QueueEntry>, id: i64, j: int)
    requires
        0 <= j < s.len(),
        s[j].id == id,
        forall|a: int, b: int| 0 <= a < b < s.len() ==> (#[trigger] s[a]).id < (#[trigger] s[b]).id,
    ensures
        index_of_id(s, id) == j,
{
    assert(has_id(s, id));
    let k = index_of_id(s, id);
    assert(0 <= k < s.len() && s[k].id == id);
    if k < j {
        assert(s[k].id < s[j].id);
    } else if j < k {
        assert(s[j].id < s[k].id);
    }
}

impl QueueStatus {
    /// The persisted name of a status, at the specification level.
    pub open spec fn as_str_spec(self) -> Seq<char> {
        match self {
            QueueStatus::Pending => "pending"@,
            QueueStatus::Processing => "processing"@,
            QueueStatus::Completed => "completed"@,
            QueueStatus::Failed => "failed"@,
        }
    }
}

impl QueueEntry {
    /// An explicit copy of the record.
    fn clone_entry(&self) -> (r: Self)
        ensures
            r == *self,
    {
        QueueEntry {
            id: self.id,
            status: self.status,
            message: self.message.clone(),
            response: self.response.clone(),
            created_at: self.created_at,
            completed_at: self.completed_at,
            agent_name: self.agent_name.clone(),
            processing_since: self.processing_since,
        }
    }
}

/// One abstract operation against the admission counter.
pub enum AdmissionOp {
    Enqueue,
    Start,
    Finish,
}

/// When an operation is allowed under gated access: `Start` only below the
/// cap (callers observe `can_process` first), `Finish` only with work in
/// flight (`complete` and `fail` demand an item in the processing state,
/// which keeps the counter positive).
pub open spec fn admission_enabled(running: int, max: int, op: AdmissionOp) -> bool {
    match op {
        AdmissionOp::Enqueue => true,
        AdmissionOp::Start => running < max,
        AdmissionOp::Finish => running > 0,
    }
}

/// The running counter after one operation.
pub open spec fn admission_next(running: int, op: AdmissionOp) -> int {
    match op {
        AdmissionOp::Enqueue => running,
        AdmissionOp::Start => running + 1,
        AdmissionOp::Finish => running - 1,
    }
}

/// The running counter after a sequence of operations.
pub open spec fn admission_run(running: int, ops: Seq<AdmissionOp>) -> int
    decreases ops.len(),
{
    if ops.len() == 0 {
        running
    } else {
        admission_run(admission_next(running, ops[0]), ops.drop_first())
    }
}

/// Whether each operation of a sequence is enabled in the state it meets.
pub open spec fn admission_gated(running: int, max: int, ops: Seq<AdmissionOp>) -> bool
    decreases ops.len(),
{
    ops.len() == 0 || (admission_enabled(running, max, ops[0]) && admission_gated(
        admission_next(running, ops[0]),
        max,
        ops.drop_first(),
    ))
}

/// Admission-cap law: for every sequence of enqueue, start, complete and
/// fail operations performed strictly through `can_process`-gated access,
/// the running counter never exceeds the admission cap, and never drops
/// below zero.
pub proof fn lemma_admission_cap(running: int, max: int, ops: Seq<AdmissionOp>)
    requires
        0 <= running <= max,
        admission_gated(running, max, ops),
    ensures
        0 <= admission_run(running, ops) <= max,
    decreases ops.len(),
{
    if ops.len() > 0 {
        lemma_admission_cap(admission_next(running, ops[0]), max, ops.drop_first());
    }
}

/// Terminal-status law: in a well-formed queue no item is both completed
/// and failed, and the completion timestamp is present exactly when the
/// item has reached a terminal status.
pub proof fn lemma_terminal_exclusivity(qm: QueueManager, i: int)
    requires
        qm.wf(),
        0 <= i < qm.entries@.len(),
    ensures
        !(qm.entries@[i].status is Completed && qm.entries@[i].status is Failed),
        qm.entries@[i].completed_at is Some <==> qm.entries@[i].status.is_terminal(),
        qm.entries@[i].response is Some <==> qm.entries@[i].status.is_terminal(),
{
}

} // verus!
