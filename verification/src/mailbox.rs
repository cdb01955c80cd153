//! Single-slot mailbox bridging callback delivery to synchronous reads.
//!
//! The slot holds at most one pending frame.  The delivery callback only
//! writes (overwriting whatever was pending), and the poll wrapper only
//! reads-and-clears.  When several frames are deposited within one poll
//! cycle, only the last survives: earlier ones are observably dropped,
//! never queued.

use vstd::prelude::*;

verus! {

/// The slot after a deposit: the new frame, whatever was pending before.
pub open spec fn slot_after_deposit(slot: Option<Seq<u8>>, frame: Seq<u8>) -> Option<Seq<u8>> {
    Some(frame)
}

/// A single-slot holding area for the most recently delivered frame.
pub struct Mailbox {
    slot: Option<Vec<u8>>,
}

impl View for Mailbox {
    type V = Option<Seq<u8>>;

    closed spec fn view(&self) -> Option<Seq<u8>> {
        match self.slot {
            Some(frame) => Some(frame@),
            None => None,
        }
    }
}

impl Mailbox {
    /// A mailbox starts empty.
    pub fn new() -> (m: Mailbox)
        ensures
            m@ is None,
    {
        Mailbox { slot: None }
    }

    /// Whether a frame is pending.
    pub fn is_empty(&self) -> (r: bool)
        ensures
            r == (self@ is None),
    {
        self.slot.is_none()
    }

    /// Drops whatever is pending.
    pub fn clear(&mut self)
        ensures
            final(self)@ is None,
    {
        self.slot = None;
    }

    /// Deposits a frame, overwriting any pending one.
    pub fn deposit(&mut self, frame: Vec<u8>)
        ensures
            final(self)@ == slot_after_deposit(old(self)@, frame@),
            final(self)@ == Some(frame@),
    {
        self.slot = Some(frame);
    }

    /// Removes and returns the pending frame, leaving the slot empty.
    pub fn take(&mut self) -> (r: Option<Vec<u8>>)
        ensures
            final(self)@ is None,
            match r {
                Some(frame) => old(self)@ == Some(frame@),
                None => old(self)@ is None,
            },
    {
        self.slot.take()
    }
}

/// Single-slot overwrite: depositing `a` and then `b` leaves exactly `b`
/// pending, whatever was pending before; `a` never survives unless it
/// equals `b`.
pub proof fn lemma_single_slot_overwrite(slot: Option<Seq<u8>>, a: Seq<u8>, b: Seq<u8>)
    ensures
        slot_after_deposit(slot_after_deposit(slot, a), b) == Some(b),
        a != b ==> slot_after_deposit(slot_after_deposit(slot, a), b) != Some(a),
{
}

/// The slot after a whole cycle's deliveries, made in delivery order
/// into an initially cleared slot.
pub open spec fn slot_after_deliveries(frames: Seq<Seq<u8>>) -> Option<Seq<u8>>
    decreases frames.len(),
{
    if frames.len() == 0 {
        None
    } else {
        slot_after_deposit(slot_after_deliveries(frames.drop_last()), frames.last())
    }
}

/// Within one cycle, however many frames are delivered and in whatever
/// order, only the last survives in the slot; a cycle without deliveries
/// leaves it empty.
pub proof fn lemma_only_last_delivery_survives(frames: Seq<Seq<u8>>)
    ensures
        frames.len() == 0 ==> slot_after_deliveries(frames) is None,
        frames.len() > 0 ==> slot_after_deliveries(frames) == Some(frames.last()),
{
}

} // verus!
