use vstd::prelude::*;
use crate::error::ConductorApiError;

verus! {

/// The body of a reply frame: a result, or the host's structured error.
pub enum ReplyBody {
    Success(Vec<u8>),
    Error(Vec<u8>),
}

/// A frame read from the connection. The framing layer tells replies, which
/// carry the id of their request, from push frames.
pub enum InboundFrame {
    Reply { request_id: u64, body: ReplyBody },
    Push(Vec<u8>),
}

/// The outcome handed to a pending caller.
pub struct Delivery<T> {
    pub slot: T,
    pub result: Result<Vec<u8>, ConductorApiError>,
}

/// What the dispatch loop does with a frame.
pub enum FrameAction<T> {
    /// Complete this caller's slot.
    Deliver(Delivery<T>),
    /// A reply that no request waits for: log it and drop it.
    Anomaly { request_id: u64 },
    /// A push frame, for the signal router.
    Signal(Vec<u8>),
}

/// The slot of the first pending entry with id `id`.
pub open spec fn slot_of<T>(pending: Seq<(u64, T)>, id: u64) -> Option<T>
    decreases pending.len(),
{
    if pending.len() == 0 {
        None
    } else if pending[0].0 == id {
        Some(pending[0].1)
    } else {
        slot_of(pending.drop_first(), id)
    }
}

/// The pending entries once the first entry with id `id` is taken out.
pub open spec fn without_request<T>(pending: Seq<(u64, T)>, id: u64) -> Seq<(u64, T)>
    decreases pending.len(),
{
    if pending.len() == 0 {
        pending
    } else if pending[0].0 == id {
        pending.drop_first()
    } else {
        seq![pending[0]] + without_request(pending.drop_first(), id)
    }
}

/// The outcome that a reply body gives its caller.
pub open spec fn reply_result(body: ReplyBody) -> Result<Vec<u8>, ConductorApiError> {
    match body {
        ReplyBody::Success(b) => Ok(b),
        ReplyBody::Error(e) => Err(ConductorApiError::ExternalApiWireError(e)),
    }
}

pub(crate) proof fn lemma_take_first<T>(pending: Seq<(u64, T)>, id: u64, i: int)
    requires
        0 <= i < pending.len(),
        pending[i].0 == id,
        forall|k: int| 0 <= k < i ==> pending[k].0 != id,
    ensures
        slot_of(pending, id) == Some(pending[i].1),
        without_request(pending, id) == pending.remove(i),
    decreases i,
{
    if i > 0 {
        let rest = pending.drop_first();
        assert forall|k: int| 0 <= k < i - 1 implies rest[k].0 != id by {
            assert(rest[k] == pending[k + 1]);
        }
        lemma_take_first(rest, id, i - 1);
        assert(seq![pending[0]] + rest.remove(i - 1) =~= pending.remove(i));
    } else {
        assert(pending.drop_first() =~= pending.remove(0));
    }
}

pub(crate) proof fn lemma_absent<T>(pending: Seq<(u64, T)>, id: u64)
    requires
        forall|k: int| 0 <= k < pending.len() ==> pending[k].0 != id,
    ensures
        slot_of(pending, id) is None,
        without_request(pending, id) == pending,
    decreases pending.len(),
{
    if pending.len() > 0 {
        let rest = pending.drop_first();
        assert forall|k: int| 0 <= k < rest.len() implies rest[k].0 != id by {
            assert(rest[k] == pending[k + 1]);
        }
        lemma_absent(rest, id);
        assert(seq![pending[0]] + rest =~= pending);
    }
}

/// A reply goes to the caller that waits for its id and to no other: once
/// the reply to `answered` has been taken, the caller waiting for any other
/// id `waiting` still finds its own slot. So replies that arrive in any order
/// each reach their own caller.
pub proof fn lemma_reply_reaches_its_caller<T>(pending: Seq<(u64, T)>, answered: u64, waiting: u64)
    requires
        answered != waiting,
    ensures
        slot_of(without_request(pending, answered), waiting) == slot_of(pending, waiting),
    decreases pending.len(),
{
    if pending.len() > 0 {
        let rest = pending.drop_first();
        lemma_reply_reaches_its_caller(rest, answered, waiting);
        if pending[0].0 != answered {
            let w = seq![pending[0]] + without_request(rest, answered);
            assert(w[0] == pending[0]);
            assert(w.drop_first() =~= without_request(rest, answered));
        }
    }
}

/// Matches replies to the requests that wait for them on one connection.
/// Each pending request holds a slot that its reply completes.
pub struct RequestCorrelator<T> {
    pub pending: Vec<(u64, T)>,
    pub next_id: u64,
    pub open: bool,
}

impl<T> RequestCorrelator<T> {
    /// Every pending id is below the next id to hand out, and ids rise in
    /// the order of the requests: no id is pending twice.
    pub open spec fn well_formed(&self) -> bool {
        &&& forall|k: int| 0 <= k < self.pending@.len() ==> (#[trigger] self.pending@[k]).0 < self.next_id
        &&& forall|i: int, j: int|
            0 <= i < j < self.pending@.len() ==> (#[trigger] self.pending@[i]).0 < (
            #[trigger] self.pending@[j]).0
    }

    /// A correlator for a connection that has just opened.
    pub fn new() -> (r: RequestCorrelator<T>)
        ensures
            r.pending@.len() == 0,
            r.open,
            r.well_formed(),
    {
        RequestCorrelator { pending: Vec::new(), next_id: 0, open: true }
    }

    /// Registers a request with its slot and returns the request's id, to be
    /// sent with it. On a closed connection it fails at once and nothing is
    /// to be sent.
    pub fn register(&mut self, slot: T) -> (r: Result<u64, ConductorApiError>)
        requires
            old(self).well_formed(),
        ensures
            final(self).well_formed(),
            final(self).open == old(self).open,
            !old(self).open ==> r == Err::<u64, ConductorApiError>(ConductorApiError::TransportClosed)
                && final(self).pending@ == old(self).pending@,
            old(self).open && old(self).next_id == u64::MAX ==> r is Err && final(self).pending@
                == old(self).pending@,
            old(self).open && old(self).next_id < u64::MAX ==> r == Ok::<u64, ConductorApiError>(
                old(self).next_id,
            ) && slot_of(old(self).pending@, old(self).next_id) is None && final(self).pending@
                == old(self).pending@.push((old(self).next_id, slot)),
    {
        if !self.open {
            return Err(ConductorApiError::TransportClosed);
        }
        if self.next_id == u64::MAX {
            return Err(ConductorApiError::WebsocketError("request ids exhausted".to_owned()));
        }
        let id = self.next_id;
        proof {
            lemma_absent(self.pending@, id);
        }
        self.pending.push((id, slot));
        self.next_id = id + 1;
        Ok(id)
    }

    /// Takes out the slot waiting for `request_id`, if any.
    pub fn take(&mut self, request_id: u64) -> (r: Option<T>)
        requires
            old(self).well_formed(),
        ensures
            final(self).well_formed(),
            final(self).open == old(self).open,
            r == slot_of(old(self).pending@, request_id),
            final(self).pending@ == without_request(old(self).pending@, request_id),
    {
        let mut i: usize = 0;
        while i < self.pending.len()
            invariant
                self.pending@ == old(self).pending@,
                self.next_id == old(self).next_id,
                self.open == old(self).open,
                self.well_formed(),
                i <= self.pending@.len(),
                forall|k: int| 0 <= k < i ==> self.pending@[k].0 != request_id,
            decreases self.pending@.len() - i,
        {
            if self.pending[i].0 == request_id {
                proof {
                    lemma_take_first(self.pending@, request_id, i as int);
                }
                let ghost before = self.pending@;
                let (_, slot) = self.pending.remove(i);
                assert forall|a: int, b: int| 0 <= a < b < self.pending@.len() implies (
                #[trigger] self.pending@[a]).0 < (#[trigger] self.pending@[b]).0 by {
                    let a0 = if a < i { a } else { a + 1 };
                    let b0 = if b < i { b } else { b + 1 };
                    assert(self.pending@[a] == before[a0] && self.pending@[b] == before[b0]);
                }
                assert forall|k: int| 0 <= k < self.pending@.len() implies (
                #[trigger] self.pending@[k]).0 < self.next_id by {
                    let k0 = if k < i { k } else { k + 1 };
                    assert(self.pending@[k] == before[k0]);
                }
                return Some(slot);
            }
            i = i + 1;
        }
        proof {
            lemma_absent(self.pending@, request_id);
        }
        None
    }

    /// Handles one inbound frame. A reply completes the slot of its request
    /// and removes it, with the host's error payload where the host rejected
    /// the request; a reply that no request waits for is an anomaly and
    /// changes nothing; a push frame goes to the signal router.
    pub fn on_frame(&mut self, frame: InboundFrame) -> (r: FrameAction<T>)
        requires
            old(self).well_formed(),
        ensures
            final(self).well_formed(),
            final(self).open == old(self).open,
            match frame {
                InboundFrame::Reply { request_id, body } => match slot_of(
                    old(self).pending@,
                    request_id,
                ) {
                    Some(slot) => r == FrameAction::Deliver(
                        Delivery { slot, result: reply_result(body) },
                    ) && final(self).pending@ == without_request(old(self).pending@, request_id),
                    None => r == FrameAction::<T>::Anomaly { request_id } && final(self).pending@
                        == old(self).pending@,
                },
                InboundFrame::Push(bytes) => r == FrameAction::<T>::Signal(bytes)
                    && final(self).pending@ == old(self).pending@,
            },
    {
        match frame {
            InboundFrame::Reply { request_id, body } => {
                let ghost before = self.pending@;
                match self.take(request_id) {
                    Some(slot) => {
                        let result = match body {
                            ReplyBody::Success(b) => Ok(b),
                            ReplyBody::Error(e) => Err(ConductorApiError::ExternalApiWireError(e)),
                        };
                        FrameAction::Deliver(Delivery { slot, result })
                    },
                    None => {
                        proof {
                            lemma_no_slot_keeps(before, request_id);
                        }
                        FrameAction::Anomaly { request_id }
                    },
                }
            },
            InboundFrame::Push(bytes) => FrameAction::Signal(bytes),
        }
    }

    /// Closes the connection: every pending request is completed with
    /// `TransportClosed`, in the order they were sent, and none is left.
    pub fn close(&mut self) -> (r: Vec<Delivery<T>>)
        requires
            old(self).well_formed(),
        ensures
            final(self).well_formed(),
            !final(self).open,
            final(self).pending@.len() == 0,
            r@.len() == old(self).pending@.len(),
            forall|k: int|
                0 <= k < r@.len() ==> (#[trigger] r@[k]).slot == old(self).pending@[k].1
                    && r@[k].result == Err::<Vec<u8>, ConductorApiError>(
                    ConductorApiError::TransportClosed,
                ),
    {
        self.open = false;
        let ghost all = self.pending@;
        let mut out: Vec<Delivery<T>> = Vec::new();
        while self.pending.len() > 0
            invariant
                !self.open,
                out@.len() <= all.len(),
                self.pending@ == all.subrange(out@.len() as int, all.len() as int),
                forall|k: int|
                    0 <= k < out@.len() ==> (#[trigger] out@[k]).slot == all[k].1
                        && out@[k].result == Err::<Vec<u8>, ConductorApiError>(
                        ConductorApiError::TransportClosed,
                    ),
            decreases self.pending@.len(),
        {
            let (_, slot) = self.pending.remove(0);
            out.push(Delivery { slot, result: Err(ConductorApiError::TransportClosed) });
            assert(self.pending@ =~= all.subrange(out@.len() as int, all.len() as int));
        }
        out
    }
}

proof fn lemma_no_slot_keeps<T>(pending: Seq<(u64, T)>, id: u64)
    requires
        slot_of(pending, id) is None,
    ensures
        without_request(pending, id) == pending,
    decreases pending.len(),
{
    if pending.len() > 0 {
        lemma_no_slot_keeps(pending.drop_first(), id);
        assert(seq![pending[0]] + pending.drop_first() =~= pending);
    }
}

} // verus!
