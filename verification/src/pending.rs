//! The pending-command table: a slot table of capacity 1024 that assigns each
//! accepted command a 16-bit CID whose low 10 bits name the slot and whose
//! high 6 bits carry a per-insert sequence tag, so that a stale completion
//! aimed at a reused slot is detected as a mismatch.

use vstd::prelude::*;
use crate::nvme::Command;

verus! {

/// Number of bits of a CID that name the slot.
pub const CID_KEY_BITS: u16 = 10;

/// Mask of the slot-naming bits of a CID.
pub const CID_KEY_MASK: u16 = 0x3FF;

/// Capacity of the pending table, and the stride of the sequence tag.
pub const MAX_CIDS: usize = 1024;

/// What one live slot stores: the CID assigned at insert time and the
/// caller's responder identifier.
pub type SlotEntry = (u16, u64);

#[verifier::external_type_specification]
#[verifier::external_body]
#[verifier::reject_recursive_types(T)]
pub struct ExSlab<T>(slab::Slab<T>);

/// What the slot table holds: each live key maps to the pair of the CID
/// assigned at insert time and the caller's responder identifier.
pub uninterp spec fn slab_entries(s: slab::Slab<SlotEntry>) -> Map<int, SlotEntry>;

/// The slot table's storage high-water mark (how many slots it has ever laid
/// out); keys live below it, and it grows by one exactly when a value is
/// stored at it.
pub uninterp spec fn slab_span(s: slab::Slab<SlotEntry>) -> int;

/// The key the slot table will hand out to the next insertion.
pub uninterp spec fn slab_next(s: slab::Slab<SlotEntry>) -> int;

/// Relies on slab::Slab::new: an empty slab with no storage laid out, whose
/// first key is 0.
#[verifier::external_body]
fn slab_new() -> (s: slab::Slab<SlotEntry>)
    ensures
        (slab_entries(s) == Map::<int, SlotEntry>::empty()),
        slab_span(s) == 0,
        slab_next(s) == 0,
        slab_entries(s).dom().finite(),
{
    slab::Slab::new()
}

/// Relies on slab::Slab::len: the number of stored values.
#[verifier::external_body]
fn slab_len(s: &slab::Slab<SlotEntry>) -> (n: usize)
    ensures
        n as int == slab_entries(*s).dom().len(),
{
    s.len()
}

/// Relies on slab::Slab::vacant_key: returns, without changing the slab, the
/// key that the next insertion will use.
#[verifier::external_body]
fn slab_vacant_key(s: &slab::Slab<SlotEntry>) -> (k: usize)
    ensures
        k as int == slab_next(*s),
{
    s.vacant_key()
}

/// Relies on slab::Slab::insert: stores the value at the next vacant key and
/// returns that key. The key was vacant; it lies at or below the storage
/// high-water mark, which grows by one exactly when the key sits at it; and
/// when the next key equals the mark, every laid-out slot is occupied.
#[verifier::external_body]
fn slab_insert(s: &mut slab::Slab<SlotEntry>, value: SlotEntry) -> (k: usize)
    ensures
        k as int == slab_next(*old(s)),
        k as int <= slab_span(*old(s)),
        !slab_entries(*old(s)).dom().contains(k as int),
        slab_entries(*final(s)) == slab_entries(*old(s)).insert(k as int, value),
        slab_entries(*final(s)).dom().finite(),
        slab_span(*final(s)) == if k as int == slab_span(*old(s)) {
            slab_span(*old(s)) + 1
        } else {
            slab_span(*old(s))
        },
        slab_next(*final(s)) <= slab_span(*final(s)),
        slab_next(*final(s)) == slab_span(*final(s)) ==> slab_entries(*final(s)).dom().len()
            == slab_span(*final(s)),
{
    s.insert(value)
}

/// Relies on slab::Slab::try_remove: removes and returns the value at the
/// key if one is stored there, else leaves the slab unchanged. After a
/// removal the freed key becomes the next key, below the unchanged
/// high-water mark.
#[verifier::external_body]
fn slab_try_remove(s: &mut slab::Slab<SlotEntry>, key: usize) -> (r: Option<SlotEntry>)
    ensures
        match r {
            Some(v) => {
                &&& slab_entries(*old(s)).dom().contains(key as int)
                &&& v == slab_entries(*old(s))[key as int]
                &&& slab_entries(*final(s)) == slab_entries(*old(s)).remove(key as int)
                &&& slab_entries(*final(s)).dom().finite()
                &&& slab_span(*final(s)) == slab_span(*old(s))
                &&& slab_next(*final(s)) == key as int
                &&& slab_next(*final(s)) < slab_span(*final(s))
                &&& (slab_next(*final(s)) == slab_span(*final(s))
                    ==> slab_entries(*final(s)).dom().len() == slab_span(*final(s)))
            },
            None => {
                &&& !slab_entries(*old(s)).dom().contains(key as int)
                &&& *final(s) == *old(s)
            },
        },
{
    s.try_remove(key)
}

/// Relies on slab::Slab::get: returns a copy of the value at the key if one
/// is stored there.
#[verifier::external_body]
fn slab_get(s: &slab::Slab<SlotEntry>, key: usize) -> (r: Option<SlotEntry>)
    ensures
        match r {
            Some(v) => slab_entries(*s).dom().contains(key as int) && v == slab_entries(
                *s,
            )[key as int],
            None => !slab_entries(*s).dom().contains(key as int),
        },
{
    s.get(key).copied()
}

/// The slot table plus the wrapping sequence counter for the CID high bits.
pub struct PendingCommands {
    commands: slab::Slab<SlotEntry>,
    next_cid_high_bits: u16,
}

/// The sequence tag that follows `t`: advanced by the slot capacity, wrapping
/// at 16 bits.
pub open spec fn next_tag(t: u16) -> u16 {
    if t >= 0xFC00 {
        0u16
    } else {
        (t + 1024) as u16
    }
}

/// Well-formed entries: every live key is a slot index below the capacity,
/// and the CID stored there names that very slot in its low bits.
pub open spec fn pending_entries_wf(m: Map<int, SlotEntry>) -> bool {
    forall|k: int| #[trigger] m.dom().contains(k) ==> 0 <= k < 1024 && m[k].0 & 0x3FF == k
}

proof fn lemma_cid_bits(k: u16, t: u16)
    by (bit_vector)
    requires
        k < 1024,
        t & 0x3FF == 0,
    ensures
        (k | t) & 0x3FF == k,
        (k | t) >> 10 == t >> 10,
{
}

proof fn lemma_next_tag_low_bits(t: u16)
    by (bit_vector)
    requires
        t & 0x3FF == 0,
        t < 0xFC00,
    ensures
        ((t + 1024) as u16) & 0x3FF == 0,
{
}

/// The slot a CID names is always below the capacity.
pub proof fn lemma_cid_slot_in_range(cid: u16)
    by (bit_vector)
    ensures
        (cid & 0x3FF) < 1024,
{
}

impl PendingCommands {
    /// The live entries, as a map from slot index to the stored
    /// (CID, responder identifier) pair.
    pub closed spec fn contents(&self) -> Map<int, SlotEntry> {
        slab_entries(self.commands)
    }

    /// The sequence counter whose high 6 bits tag the next CID.
    pub closed spec fn tag(&self) -> u16 {
        self.next_cid_high_bits
    }

    /// The slot table's storage high-water mark.
    pub closed spec fn span(&self) -> int {
        slab_span(self.commands)
    }

    /// The key the slot table hands out next.
    pub closed spec fn next_key(&self) -> int {
        slab_next(self.commands)
    }

    /// Number of commands awaiting completion.
    pub open spec fn count(&self) -> nat {
        self.contents().dom().len()
    }

    /// The table's invariant: entries are well formed, the sequence counter
    /// is a pure tag (low bits zero), and the slot storage never outgrows
    /// the capacity, with the next key inside it.
    pub open spec fn wf(&self) -> bool {
        &&& self.contents().dom().finite()
        &&& pending_entries_wf(self.contents())
        &&& self.tag() & 0x3FF == 0
        &&& self.span() <= 1024
        &&& self.next_key() <= self.span()
        &&& (self.next_key() == self.span() ==> self.contents().dom().len() == self.span())
    }

    /// An empty pending table with the sequence counter at zero.
    pub fn new() -> (r: Self)
        ensures
            r.wf(),
            r.count() == 0,
            r.tag() == 0,
            r.next_key() == 0,
            r.contents() == Map::<int, SlotEntry>::empty(),
    {
        let r = PendingCommands { commands: slab_new(), next_cid_high_bits: 0 };
        proof {
            assert(r.contents().dom() =~= Set::<int>::empty());
            assert(Set::<int>::empty().len() == 0);
            assert(0u16 & 0x3FF == 0) by (bit_vector);
        }
        r
    }

    /// Whether the table is at capacity; no further command may be inserted.
    pub fn is_full(&self) -> (r: bool)
        requires
            self.wf(),
        ensures
            r == (self.count() >= 1024),
    {
        slab_len(&self.commands) >= MAX_CIDS
    }

    /// Whether no command is awaiting completion.
    pub fn is_empty(&self) -> (r: bool)
        requires
            self.wf(),
        ensures
            r == (self.count() == 0),
    {
        slab_len(&self.commands) == 0
    }

    /// Inserts a command into the pending list, updating it with a new CID:
    /// the table's next vacant slot is taken (a freed slot is reused at
    /// once), the CID is that slot joined with the current sequence tag,
    /// and the tag advances for the next insertion.
    pub fn insert(&mut self, command: &mut Command, responder_id: u64)
        requires
            old(self).wf(),
            old(self).count() < 1024,
        ensures
            final(self).wf(),
            ({
                let cid = final(command).cid;
                let slot = (cid & 0x3FF) as int;
                &&& (cid & 0x3FF) < 1024
                &&& slot == old(self).next_key()
                &&& !old(self).contents().dom().contains(slot)
                &&& cid >> 10 == old(self).tag() >> 10
                &&& final(self).contents() == old(self).contents().insert(slot, (cid, responder_id))
                &&& final(self).count() == old(self).count() + 1
                &&& final(self).tag() == next_tag(old(self).tag())
                &&& *final(command) == (Command { cid, ..*old(command) })
            }),
    {
        let k = slab_vacant_key(&self.commands);
        proof {
            if self.next_key() == self.span() {
                assert(k < 1024);
            } else {
                assert((k as int) < self.span());
                assert(k < 1024);
            }
        }
        let cid: u16 = (k as u16) | self.next_cid_high_bits;
        proof {
            lemma_cid_bits(k as u16, self.next_cid_high_bits);
        }
        command.cid = cid;
        let k2 = slab_insert(&mut self.commands, (cid, responder_id));
        if self.next_cid_high_bits >= 0xFC00 {
            proof {
                assert(0u16 & 0x3FF == 0) by (bit_vector);
            }
            self.next_cid_high_bits = 0;
        } else {
            proof {
                lemma_next_tag_low_bits(self.next_cid_high_bits);
            }
            self.next_cid_high_bits = self.next_cid_high_bits + 1024;
        }
        proof {
            assert(self.contents().dom() =~= old(self).contents().dom().insert(k as int));
        }
    }

    /// Whether a completion carrying this CID names a live command: its
    /// slot holds an entry whose stored CID matches in full. Anything else
    /// is a stale or forged completion.
    pub fn contains_cid(&self, cid: u16) -> (r: bool)
        requires
            self.wf(),
        ensures
            r == (self.contents().dom().contains((cid & 0x3FF) as int) && self.contents()[(cid
                & 0x3FF) as int].0 == cid),
    {
        let slot = (cid & CID_KEY_MASK) as usize;
        match slab_get(&self.commands, slot) {
            Some((stored_cid, _)) => stored_cid == cid,
            None => false,
        }
    }

    /// Removes the pending command a completion names and returns its
    /// responder identifier. The CID must name a live slot whose stored CID
    /// matches in full — a mismatch means a stale or forged completion, which
    /// the caller must treat as a fatal bug, not an error.
    pub fn remove(&mut self, cid: u16) -> (responder_id: u64)
        requires
            old(self).wf(),
            old(self).contents().dom().contains((cid & 0x3FF) as int),
            old(self).contents()[(cid & 0x3FF) as int].0 == cid,
        ensures
            final(self).wf(),
            responder_id == old(self).contents()[(cid & 0x3FF) as int].1,
            (final(self).contents() == old(self).contents().remove((cid & 0x3FF) as int)),
            final(self).count() == old(self).count() - 1,
            final(self).tag() == old(self).tag(),
            final(self).next_key() == (cid & 0x3FF) as int,
    {
        proof {
            lemma_cid_slot_in_range(cid);
        }
        let slot = (cid & CID_KEY_MASK) as usize;
        let removed = slab_try_remove(&mut self.commands, slot);
        proof {
            assert(self.contents().dom() =~= old(self).contents().dom().remove(slot as int));
        }
        match removed {
            Some((_stored_cid, responder_id)) => responder_id,
            None => vstd::pervasive::unreached(),
        }
    }
}

/// Law: a completion's CID routes to exactly one caller. Under the table
/// invariant, if the slot the CID's low bits name holds an entry whose stored
/// CID matches in full, then no other live slot can match that CID: the slot
/// a caller's completion reaches is the slot that caller's insert filled.
pub proof fn lemma_completion_routing_unique(m: Map<int, SlotEntry>, cid: u16)
    requires
        pending_entries_wf(m),
        m.dom().contains((cid & 0x3FF) as int),
        m[(cid & 0x3FF) as int].0 == cid,
    ensures
        forall|j: int| #[trigger] m.dom().contains(j) && m[j].0 == cid ==> j == (cid & 0x3FF) as int,
{
}

/// Law: a matched issue/complete pair leaves the table exactly as it was, so
/// any run of completed round trips ends with the table empty. Inserting a
/// fresh entry at a vacant slot and removing that same slot restores the
/// original contents and count.
pub proof fn lemma_round_trip_restores(m: Map<int, SlotEntry>, slot: int, v: (u16, u64))
    requires
        !m.dom().contains(slot),
        m.dom().finite(),
    ensures
        m.insert(slot, v).remove(slot) =~= m,
        m.insert(slot, v).remove(slot).dom().len() == m.dom().len(),
{
    assert(m.insert(slot, v).remove(slot) =~= m);
}

/// Law: successive allocations in one slot carry different sequence tags.
/// The tag a CID would get from the advanced counter differs in the high
/// 6 bits from the tag the previous insertion used, so a reused slot's new
/// CID never equals its previous one.
pub proof fn lemma_successive_tags_differ(t: u16)
    requires
        t & 0x3FF == 0,
    ensures
        next_tag(t) != t,
        next_tag(t) >> 10 != t >> 10,
{
    if t >= 0xFC00 {
        assert(t == 0xFC00) by (bit_vector)
            requires
                t & 0x3FF == 0 && t >= 0xFC00,
        ;
        assert(next_tag(t) == 0);
        assert((0xFC00u16 >> 10) != (0u16 >> 10)) by (bit_vector);
    } else {
        let n = (t + 1024) as u16;
        assert(n != t && n >> 10 != t >> 10) by (bit_vector)
            requires
                t & 0x3FF == 0 && t < 0xFC00 && n == (t + 1024) as u16,
        ;
    }
}

} // verus!
