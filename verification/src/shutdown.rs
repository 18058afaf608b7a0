//! The single-slot shutdown channel.
//!
//! Every launched service, and the interrupt handler, reports the reason it
//! wants the process to stop through one shared single-slot channel. The
//! first reason accepted wins; all later attempts are dropped without any
//! observable effect. The accepted reason is the authoritative cause of
//! termination and determines the process exit status.

use vstd::prelude::*;

verus! {

/// The terminal cause of a process run: either an orderly stop or a failure,
/// each carrying a human-readable message.
pub enum ShutdownReason {
    Success(String),
    Failure(String),
}

/// The mathematical value of a [`ShutdownReason`]: the same two-armed choice
/// with the message as a sequence of characters.
pub enum ShutdownCause {
    Success(Seq<char>),
    Failure(Seq<char>),
}

impl View for ShutdownReason {
    type V = ShutdownCause;

    open spec fn view(&self) -> ShutdownCause {
        match self {
            ShutdownReason::Success(m) => ShutdownCause::Success(m@),
            ShutdownReason::Failure(m) => ShutdownCause::Failure(m@),
        }
    }
}

impl ShutdownCause {
    /// The message carried by either arm.
    pub open spec fn message(self) -> Seq<char> {
        match self {
            ShutdownCause::Success(m) => m,
            ShutdownCause::Failure(m) => m,
        }
    }

    /// The rendering of the cause in log output: the arm's name around the
    /// message.
    pub open spec fn description(self) -> Seq<char> {
        match self {
            ShutdownCause::Success(m) => "Success("@ + m + ")"@,
            ShutdownCause::Failure(m) => "Failure("@ + m + ")"@,
        }
    }
}

impl ShutdownReason {
    /// Reads the message out of either variant.
    pub fn message(&self) -> (m: &String)
        ensures
            m@ == self@.message(),
    {
        match self {
            ShutdownReason::Success(m) => m,
            ShutdownReason::Failure(m) => m,
        }
    }

    /// Whether this reason reports an orderly stop.
    pub fn is_success(&self) -> (b: bool)
        ensures
            b == (self@ is Success),
    {
        match self {
            ShutdownReason::Success(_) => true,
            ShutdownReason::Failure(_) => false,
        }
    }

    /// Renders the reason for log output, the arm's name around the message.
    pub fn describe(&self) -> (d: String)
        ensures
            d@ == self@.description(),
    {
        match self {
            ShutdownReason::Success(m) => {
                String::from_str("Success(").concat(m.as_str()).concat(")")
            },
            ShutdownReason::Failure(m) => {
                String::from_str("Failure(").concat(m.as_str()).concat(")")
            },
        }
    }
}

/// What one send attempt does to the slot: an empty slot accepts the cause,
/// a full slot drops it.
pub open spec fn slot_after_send(
    slot: Option<ShutdownCause>,
    c: ShutdownCause,
) -> Option<ShutdownCause> {
    match slot {
        None => Some(c),
        Some(first) => Some(first),
    }
}

/// The slot contents after a whole sequence of send attempts, in arrival
/// order, starting from `slot`.
pub open spec fn slot_after_sends(
    slot: Option<ShutdownCause>,
    cs: Seq<ShutdownCause>,
) -> Option<ShutdownCause>
    decreases cs.len(),
{
    if cs.len() == 0 {
        slot
    } else {
        slot_after_sends(slot_after_send(slot, cs[0]), cs.drop_first())
    }
}

/// The single-slot, first-reason-wins channel.
///
/// The supervisor holds the consuming end; every producer that may terminate
/// the process (a launched service, the interrupt handler) sends through
/// `try_send`. The slot accepts exactly one reason per process run.
pub struct ShutdownChannel {
    slot: Option<ShutdownReason>,
}

impl ShutdownChannel {
    /// The cause accepted so far, if any.
    pub closed spec fn view(&self) -> Option<ShutdownCause> {
        match self.slot {
            Some(r) => Some(r@),
            None => None,
        }
    }

    /// Creates an empty channel: no reason has been accepted yet.
    pub fn new() -> (c: Self)
        ensures
            c@ is None,
    {
        ShutdownChannel { slot: None }
    }

    /// Whether a reason has already been accepted.
    pub fn has_reason(&self) -> (b: bool)
        ensures
            b == (self@ is Some),
    {
        self.slot.is_some()
    }

    /// Attempts to report a terminating reason. The first reason ever sent
    /// is accepted and kept; every later reason is dropped with the state
    /// unchanged, so no second reason can override the first.
    pub fn try_send(&mut self, r: ShutdownReason) -> (accepted: bool)
        ensures
            final(self)@ == slot_after_send(old(self)@, r@),
            accepted == (old(self)@ is None),
    {
        match self.slot {
            None => {
                self.slot = Some(r);
                true
            },
            Some(_) => false,
        }
    }

    /// Hands out the accepted reason, leaving the channel consumed.
    pub fn take(&mut self) -> (r: Option<ShutdownReason>)
        ensures
            final(self)@ is None,
            r is Some <==> old(self)@ is Some,
            r matches Some(reason) ==> old(self)@ == Some(reason@),
    {
        self.slot.take()
    }

    /// Reports every reason of `reasons`, in order. Only the first can be
    /// accepted when the channel starts empty.
    pub fn try_send_all(&mut self, reasons: Vec<ShutdownReason>) -> (accepted_count: usize)
        ensures
            final(self)@ == slot_after_sends(old(self)@, reasons@.map_values(|r: ShutdownReason| r@)),
            accepted_count <= 1,
            accepted_count == 0 <==> (old(self)@ is Some || reasons@.len() == 0),
    {
        let mut remaining = reasons;
        let mut accepted: usize = 0;
        let ghost all = remaining@.map_values(|r: ShutdownReason| r@);
        let ghost start = self@;
        while remaining.len() > 0
            invariant
                slot_after_sends(start, all) == slot_after_sends(
                    self@,
                    remaining@.map_values(|r: ShutdownReason| r@),
                ),
                remaining@.len() <= all.len(),
                accepted <= 1,
                start is Some ==> self@ == start && accepted == 0,
                start is None && remaining@.len() == all.len() ==> self@ is None && accepted == 0,
                start is None && remaining@.len() < all.len() ==> self@ is Some && accepted == 1,
            decreases remaining.len(),
        {
            let ghost before = remaining@.map_values(|r: ShutdownReason| r@);
            let r = remaining.remove(0);
            let was_accepted = self.try_send(r);
            if was_accepted {
                accepted = accepted + 1;
            }
            proof {
                assert(remaining@.map_values(|r: ShutdownReason| r@) =~= before.drop_first());
            }
        }
        accepted
    }
}

/// The first reason sent into an empty channel is the one the channel keeps,
/// whatever is sent after it and in whatever order the rest arrives.
pub proof fn lemma_first_reason_wins(cs: Seq<ShutdownCause>)
    requires
        cs.len() > 0,
    ensures
        slot_after_sends(None, cs) == Some(cs[0]),
{
    lemma_full_slot_never_changes(Some(cs[0]), cs.drop_first());
}

/// Once a reason occupies the slot, any further sequence of send attempts
/// leaves the slot, and therefore the eventual exit status, unchanged.
pub proof fn lemma_full_slot_never_changes(slot: Option<ShutdownCause>, cs: Seq<ShutdownCause>)
    requires
        slot is Some,
    ensures
        slot_after_sends(slot, cs) == slot,
    decreases cs.len(),
{
    if cs.len() > 0 {
        lemma_full_slot_never_changes(slot_after_send(slot, cs[0]), cs.drop_first());
    }
}

} // verus!
