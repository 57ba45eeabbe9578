//! The queue handler's decision core. Exactly one handler owns a queue
//! pair's submission queue tail, completion queue, and pending-command
//! table. The surrounding event loop asks `can_accept_request` before
//! pulling a request from the channel and `should_poll_completions` before
//! reading the completion queue; `handle_request` and `handle_completion`
//! are the two event steps, and the loop performs the actions they decide
//! on (write the returned command to the submission queue, deliver the
//! completion to the returned responder, and advance the submission queue
//! head).

use vstd::prelude::*;
use crate::nvme::Command;
use crate::nvme::Completion;
use crate::pending::PendingCommands;
use crate::pending::SlotEntry;
use crate::pending::next_tag;

verus! {

/// A wrapping event counter.
pub open spec fn bumped(c: u64) -> u64 {
    if c == u64::MAX {
        0u64
    } else {
        (c + 1) as u64
    }
}

/// Counts of what the handler has done, for diagnostics.
#[derive(Debug, Clone, Copy, PartialEq, Eq, Structural)]
pub struct QueueStats {
    pub issued: u64,
    pub completed: u64,
    pub interrupts: u64,
}

/// Whether the handler may pull another request: the submission queue must
/// have room and the pending table must not be at capacity, which gives
/// callers natural backpressure.
pub open spec fn spec_wants_request(sq_full: bool, pending_count: nat) -> bool {
    !sq_full && pending_count < 1024
}

/// Law: a full pending table stops request intake, whatever the submission
/// queue looks like, until a completion frees a slot.
pub proof fn lemma_full_table_blocks_requests(sq_full: bool, pending_count: nat)
    requires
        pending_count >= 1024,
    ensures
        !spec_wants_request(sq_full, pending_count),
{
}

/// The single owner of a queue pair's in-flight state.
pub struct QueueHandler {
    sq_id: u16,
    commands: PendingCommands,
    stats: QueueStats,
}

impl QueueHandler {
    /// The identifier of the submission queue this handler owns.
    pub closed spec fn sq_id_spec(&self) -> u16 {
        self.sq_id
    }

    /// The pending table's live entries.
    pub closed spec fn contents(&self) -> Map<int, SlotEntry> {
        self.commands.contents()
    }

    /// The pending table's sequence tag.
    pub closed spec fn tag(&self) -> u16 {
        self.commands.tag()
    }

    /// The slot the pending table will assign to the next accepted request.
    pub closed spec fn next_slot(&self) -> int {
        self.commands.next_key()
    }

    /// Number of commands in flight.
    pub open spec fn count(&self) -> nat {
        self.contents().dom().len()
    }

    /// The handler's statistics.
    pub closed spec fn stats_spec(&self) -> QueueStats {
        self.stats
    }

    /// The handler is well formed when its pending table is.
    pub closed spec fn wf(&self) -> bool {
        self.commands.wf()
    }

    /// A fresh handler for the submission queue with the given identifier.
    pub fn new(sq_id: u16) -> (r: Self)
        ensures
            r.wf(),
            r.sq_id_spec() == sq_id,
            r.count() == 0,
            r.tag() == 0,
            r.next_slot() == 0,
            r.stats_spec() == (QueueStats { issued: 0, completed: 0, interrupts: 0 }),
    {
        QueueHandler {
            sq_id,
            commands: PendingCommands::new(),
            stats: QueueStats { issued: 0, completed: 0, interrupts: 0 },
        }
    }

    /// Returns the handler's statistics.
    pub fn stats(&self) -> (r: QueueStats)
        ensures
            r == self.stats_spec(),
    {
        self.stats
    }

    /// Whether the loop may pull another request from the channel, given
    /// whether the submission queue is full.
    pub fn can_accept_request(&self, sq_full: bool) -> (r: bool)
        requires
            self.wf(),
        ensures
            r == spec_wants_request(sq_full, self.count()),
    {
        !sq_full && !self.commands.is_full()
    }

    /// Whether the loop should read the completion queue: only while
    /// commands are in flight.
    pub fn should_poll_completions(&self) -> (r: bool)
        requires
            self.wf(),
        ensures
            r == (self.count() > 0),
    {
        !self.commands.is_empty()
    }

    /// Accepts one request: assigns the command a CID through the pending
    /// table and records the caller's responder. The returned command, CID
    /// set, is what the loop must write to the submission queue (which it
    /// checked for room via `can_accept_request`).
    pub fn handle_request(&mut self, command: &mut Command, responder_id: u64)
        requires
            old(self).wf(),
            old(self).count() < 1024,
        ensures
            final(self).wf(),
            final(self).sq_id_spec() == old(self).sq_id_spec(),
            ({
                let cid = final(command).cid;
                let slot = (cid & 0x3FF) as int;
                &&& (cid & 0x3FF) < 1024
                &&& slot == old(self).next_slot()
                &&& !old(self).contents().dom().contains(slot)
                &&& cid >> 10 == old(self).tag() >> 10
                &&& final(self).contents() == old(self).contents().insert(
                    slot,
                    (cid, responder_id),
                )
                &&& final(self).count() == old(self).count() + 1
                &&& final(self).tag() == next_tag(old(self).tag())
                &&& *final(command) == (Command { cid, ..*old(command) })
            }),
            final(self).stats_spec() == (QueueStats {
                issued: bumped(old(self).stats_spec().issued),
                ..old(self).stats_spec()
            }),
    {
        self.commands.insert(command, responder_id);
        self.stats.issued = if self.stats.issued == u64::MAX {
            0
        } else {
            self.stats.issued + 1
        };
    }

    /// Routes one completion: it must belong to this handler's submission
    /// queue and name a live slot whose stored CID matches in full (a
    /// mismatch is a stale or forged completion — a fatal bug, not an
    /// error). Returns the responder the completion is for; the loop
    /// delivers the completion there and advances the submission queue head
    /// to `completion.sqhd`.
    pub fn handle_completion(&mut self, completion: Completion) -> (responder_id: u64)
        requires
            old(self).wf(),
            completion.sqid == old(self).sq_id_spec(),
            old(self).contents().dom().contains((completion.cid & 0x3FF) as int),
            old(self).contents()[(completion.cid & 0x3FF) as int].0 == completion.cid,
        ensures
            final(self).wf(),
            final(self).sq_id_spec() == old(self).sq_id_spec(),
            responder_id == old(self).contents()[(completion.cid & 0x3FF) as int].1,
            (final(self).contents() == old(self).contents().remove(
                (completion.cid & 0x3FF) as int,
            )),
            final(self).count() == old(self).count() - 1,
            final(self).tag() == old(self).tag(),
            final(self).next_slot() == (completion.cid & 0x3FF) as int,
            final(self).stats_spec() == (QueueStats {
                completed: bumped(old(self).stats_spec().completed),
                ..old(self).stats_spec()
            }),
    {
        let responder_id = self.commands.remove(completion.cid);
        self.stats.completed = if self.stats.completed == u64::MAX {
            0
        } else {
            self.stats.completed + 1
        };
        responder_id
    }

    /// Whether a completion belongs to this handler and names a live
    /// command, so that `handle_completion` may route it.
    pub fn completion_is_live(&self, completion: Completion) -> (r: bool)
        requires
            self.wf(),
        ensures
            r == (completion.sqid == self.sq_id_spec() && self.contents().dom().contains(
                (completion.cid & 0x3FF) as int,
            ) && self.contents()[(completion.cid & 0x3FF) as int].0 == completion.cid),
    {
        completion.sqid == self.sq_id && self.commands.contains_cid(completion.cid)
    }

    /// Records one interrupt delivery.
    pub fn note_interrupt(&mut self)
        requires
            old(self).wf(),
        ensures
            final(self).wf(),
            final(self).sq_id_spec() == old(self).sq_id_spec(),
            final(self).contents() == old(self).contents(),
            final(self).tag() == old(self).tag(),
            final(self).stats_spec() == (QueueStats {
                interrupts: bumped(old(self).stats_spec().interrupts),
                ..old(self).stats_spec()
            }),
    {
        self.stats.interrupts = if self.stats.interrupts == u64::MAX {
            0
        } else {
            self.stats.interrupts + 1
        };
    }
}

} // verus!
