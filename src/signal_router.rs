use vstd::prelude::*;
use crate::correlator::{slot_of, without_request};
use crate::types::{topology_has_cell, AppInfo, CellId};

verus! {

/// A push event from the host, once decoded.
pub enum Signal {
    /// A signal that a zome of a cell emitted.
    App { cell_id: CellId, zome_name: String, signal: Vec<u8> },
    /// A signal of the host itself.
    System(Vec<u8>),
}

/// The ids of the subscriptions, in registration order.
pub open spec fn subscription_ids<H>(subs: Seq<(u64, H)>) -> Seq<u64> {
    subs.map_values(|e: (u64, H)| e.0)
}

/// Whether `signal` concerns a cell of the topology `app_info`.
pub open spec fn concerns_app(signal: Signal, app_info: AppInfo) -> bool {
    match signal {
        Signal::App { cell_id, .. } => topology_has_cell(app_info.cell_info@, cell_id@),
        Signal::System(_) => false,
    }
}

/// The handlers that receive push events, each under the id that
/// `subscribe` returned, in registration order.
pub struct SignalRouter<H> {
    pub subscriptions: Vec<(u64, H)>,
    pub next_id: u64,
}

impl<H> SignalRouter<H> {
    /// Ids rise in registration order and stay below the next id.
    pub open spec fn well_formed(&self) -> bool {
        &&& forall|k: int|
            0 <= k < self.subscriptions@.len() ==> (#[trigger] self.subscriptions@[k]).0
                < self.next_id
        &&& forall|i: int, j: int|
            0 <= i < j < self.subscriptions@.len() ==> (#[trigger] self.subscriptions@[i]).0 < (
            #[trigger] self.subscriptions@[j]).0
    }

    pub fn new() -> (r: SignalRouter<H>)
        ensures
            r.subscriptions@.len() == 0,
            r.well_formed(),
    {
        SignalRouter { subscriptions: Vec::new(), next_id: 0 }
    }

    /// Registers a handler after all present ones and returns its id;
    /// `None` once every id has been handed out.
    pub fn subscribe(&mut self, handler: H) -> (r: Option<u64>)
        requires
            old(self).well_formed(),
        ensures
            final(self).well_formed(),
            old(self).next_id < u64::MAX ==> r == Some(old(self).next_id) && slot_of(
                old(self).subscriptions@,
                old(self).next_id,
            ) is None && final(self).subscriptions@ == old(self).subscriptions@.push(
                (old(self).next_id, handler),
            ),
            old(self).next_id == u64::MAX ==> r is None && final(self).subscriptions@ == old(
                self,
            ).subscriptions@,
    {
        if self.next_id == u64::MAX {
            return None;
        }
        let id = self.next_id;
        proof {
            assert forall|k: int| 0 <= k < self.subscriptions@.len() implies self.subscriptions@[k].0
                != id by {
                assert(self.subscriptions@[k].0 < self.next_id);
            }
            crate::correlator::lemma_absent(self.subscriptions@, id);
        }
        self.subscriptions.push((id, handler));
        self.next_id = id + 1;
        Some(id)
    }

    /// Removes the handler registered under `id`; whether there was one.
    pub fn unsubscribe(&mut self, id: u64) -> (r: bool)
        requires
            old(self).well_formed(),
        ensures
            final(self).well_formed(),
            r == (slot_of(old(self).subscriptions@, id) is Some),
            final(self).subscriptions@ == without_request(old(self).subscriptions@, id),
    {
        let mut i: usize = 0;
        while i < self.subscriptions.len()
            invariant
                self.subscriptions@ == old(self).subscriptions@,
                self.next_id == old(self).next_id,
                self.well_formed(),
                i <= self.subscriptions@.len(),
                forall|k: int| 0 <= k < i ==> self.subscriptions@[k].0 != id,
            decreases self.subscriptions@.len() - i,
        {
            if self.subscriptions[i].0 == id {
                proof {
                    crate::correlator::lemma_take_first(self.subscriptions@, id, i as int);
                }
                let ghost before = self.subscriptions@;
                let _ = self.subscriptions.remove(i);
                assert forall|a: int, b: int| 0 <= a < b < self.subscriptions@.len() implies (
                #[trigger] self.subscriptions@[a]).0 < (#[trigger] self.subscriptions@[b]).0 by {
                    let a0 = if a < i { a } else { a + 1 };
                    let b0 = if b < i { b } else { b + 1 };
                    assert(self.subscriptions@[a] == before[a0] && self.subscriptions@[b]
                        == before[b0]);
                }
                assert forall|k: int| 0 <= k < self.subscriptions@.len() implies (
                #[trigger] self.subscriptions@[k]).0 < self.next_id by {
                    let k0 = if k < i { k } else { k + 1 };
                    assert(self.subscriptions@[k] == before[k0]);
                }
                return true;
            }
            i = i + 1;
        }
        proof {
            crate::correlator::lemma_absent(self.subscriptions@, id);
        }
        false
    }

    /// The handler registered under `id`.
    pub fn handler(&self, id: u64) -> (r: Option<&H>)
        ensures
            match slot_of(self.subscriptions@, id) {
                Some(h) => r == Some(&h),
                None => r is None,
            },
    {
        let mut i: usize = 0;
        while i < self.subscriptions.len()
            invariant
                i <= self.subscriptions@.len(),
                forall|k: int| 0 <= k < i ==> self.subscriptions@[k].0 != id,
            decreases self.subscriptions@.len() - i,
        {
            if self.subscriptions[i].0 == id {
                proof {
                    crate::correlator::lemma_take_first(self.subscriptions@, id, i as int);
                }
                return Some(&self.subscriptions[i].1);
            }
            i = i + 1;
        }
        proof {
            crate::correlator::lemma_absent(self.subscriptions@, id);
        }
        None
    }

    /// The handlers to invoke for a push event, in registration order: all
    /// of them, each once, where the event concerns a cell of the topology;
    /// none otherwise.
    pub fn dispatch(&self, signal: &Signal, app_info: &AppInfo) -> (r: Vec<u64>)
        ensures
            r@ == if concerns_app(*signal, *app_info) {
                subscription_ids(self.subscriptions@)
            } else {
                Seq::<u64>::empty()
            },
    {
        let mut ids: Vec<u64> = Vec::new();
        let belongs = match signal {
            Signal::App { cell_id, .. } => app_info.has_cell(cell_id),
            Signal::System(_) => false,
        };
        if !belongs {
            return ids;
        }
        let mut i: usize = 0;
        while i < self.subscriptions.len()
            invariant
                i <= self.subscriptions@.len(),
                ids@ == subscription_ids(self.subscriptions@).subrange(0, i as int),
            decreases self.subscriptions@.len() - i,
        {
            ids.push(self.subscriptions[i].0);
            i = i + 1;
            assert(ids@ =~= subscription_ids(self.subscriptions@).subrange(0, i as int));
        }
        assert(ids@ =~= subscription_ids(self.subscriptions@));
        ids
    }
}

/// The ids of a router's subscriptions rise strictly in registration order,
/// so the ids that `dispatch` yields name each registered handler once.
pub proof fn lemma_subscription_ids_distinct<H>(router: SignalRouter<H>)
    requires
        router.well_formed(),
    ensures
        subscription_ids(router.subscriptions@).len() == router.subscriptions@.len(),
        forall|i: int, j: int|
            0 <= i < j < router.subscriptions@.len() ==> subscription_ids(router.subscriptions@)[i]
                < subscription_ids(router.subscriptions@)[j],
{
    assert forall|i: int, j: int| 0 <= i < j < router.subscriptions@.len() implies subscription_ids(
        router.subscriptions@,
    )[i] < subscription_ids(router.subscriptions@)[j] by {
        assert(router.subscriptions@[i].0 < router.subscriptions@[j].0);
    }
}

} // verus!
