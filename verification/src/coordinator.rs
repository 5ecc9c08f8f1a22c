//! The coordinator: the single serialization point that owns the worker
//! registry and computes the fan-out of each broadcast.
//!
//! The coordinator itself never performs delivery. `broadcast` returns the
//! ordered sequence of delivery submissions for the registry as it stands at
//! call time; the surrounding runtime hands each submission to its worker's
//! own queue, fire-and-forget, on an execution context of that worker's own.
//! Exclusive access (`&mut self` for `register`, one call at a time) is what
//! keeps registry mutation and fan-out from interleaving.

use vstd::prelude::*;

use crate::event::Payload;
use crate::event::RefreshEvent;
use crate::event::RefreshEventView;

verus! {

/// An opaque, addressable reference to one connected worker: an identifier
/// sufficient for the surrounding runtime to reach the worker's own delivery
/// queue. The coordinator holds it non-owning and never looks inside.
#[derive(Clone, Copy, PartialEq, Eq, Structural, Debug)]
pub struct WorkerHandle {
    pub id: u64,
}

/// One delivery submission: this event, in an independent copy, to this
/// worker. A broadcast produces one of these per registered worker.
pub struct Delivery {
    pub to: WorkerHandle,
    pub event: RefreshEvent,
}

/// The mathematical value of a `Delivery`.
pub struct DeliveryView {
    pub to: WorkerHandle,
    pub event: RefreshEventView,
}

impl View for Delivery {
    type V = DeliveryView;

    open spec fn view(&self) -> DeliveryView {
        DeliveryView { to: self.to, event: self.event@ }
    }
}

/// What `register` does to the registry: the handle is appended, and nothing
/// else changes. Insertion order is preserved.
pub open spec fn spec_register(workers: Seq<WorkerHandle>, handle: WorkerHandle) -> Seq<
    WorkerHandle,
> {
    workers.push(handle)
}

/// What `broadcast` submits: one delivery per registered worker, in registry
/// order, each carrying the event.
pub open spec fn spec_broadcast(workers: Seq<WorkerHandle>, event: RefreshEventView) -> Seq<
    DeliveryView,
> {
    workers.map_values(|w: WorkerHandle| DeliveryView { to: w, event })
}

/// The workers a sequence of submissions is addressed to, in submission order.
pub open spec fn targets(log: Seq<DeliveryView>) -> Seq<WorkerHandle> {
    log.map_values(|d: DeliveryView| d.to)
}

/// The coordinator's core state: the live registry of worker handles, in
/// registration order. Only `register` mutates it; a broadcast iterates a
/// snapshot of it and leaves membership untouched.
pub struct Coordinator {
    workers: Vec<WorkerHandle>,
}

impl View for Coordinator {
    type V = Seq<WorkerHandle>;

    closed spec fn view(&self) -> Seq<WorkerHandle> {
        self.workers@
    }
}

impl Coordinator {
    /// A fresh coordinator with an empty registry.
    pub fn new() -> (c: Coordinator)
        ensures
            c@ == Seq::<WorkerHandle>::empty(),
    {
        Coordinator { workers: Vec::new() }
    }

    /// Register a connected worker: append its handle to the registry and
    /// acknowledge with the same handle. Registration is unconditional; it
    /// cannot fail, and a handle registered twice gets two independent
    /// entries, both of which receive every later broadcast.
    pub fn register(&mut self, handle: WorkerHandle) -> (ack: WorkerHandle)
        ensures
            final(self)@ == spec_register(old(self)@, handle),
            ack == handle,
    {
        self.workers.push(handle);
        handle
    }

    /// The number of registered worker handles.
    pub fn worker_count(&self) -> (n: usize)
        ensures
            n == self@.len(),
    {
        self.workers.len()
    }

    /// A point-in-time, internally consistent copy of the registry, in
    /// registration order: the view a single fan-out pass iterates.
    pub fn snapshot(&self) -> (v: Vec<WorkerHandle>)
        ensures
            v@ == self@,
    {
        let mut out: Vec<WorkerHandle> = Vec::new();
        let mut i: usize = 0;
        while i < self.workers.len()
            invariant
                i <= self.workers.len(),
                out@ == self.workers@.take(i as int),
            decreases self.workers.len() - i,
        {
            out.push(self.workers[i]);
            i = i + 1;
        }
        assert(out@ =~= self.workers@);
        out
    }

    /// Fan one event out to the current registry: exactly one delivery
    /// submission per registered handle, in registry order, each carrying an
    /// independent copy of the event's payload. Membership is untouched, and
    /// the call returns once every submission is constructed; whether any
    /// delivery later succeeds is the transport's concern, never reported
    /// here.
    pub fn broadcast(&self, event: &RefreshEvent) -> (ds: Vec<Delivery>)
        ensures
            ds@.len() == self@.len(),
            forall|i: int|
                0 <= i < ds@.len() ==> ds@[i]@ == (DeliveryView { to: self@[i], event: event@ }),
            ds@.map_values(|d: Delivery| d@) == spec_broadcast(self@, event@),
    {
        let mut ds: Vec<Delivery> = Vec::new();
        let mut i: usize = 0;
        while i < self.workers.len()
            invariant
                i <= self.workers.len(),
                ds@.len() == i,
                forall|k: int|
                    0 <= k < i ==> ds@[k]@ == (DeliveryView {
                        to: self.workers@[k],
                        event: event@,
                    }),
            decreases self.workers.len() - i,
        {
            let copy = event.clone();
            ds.push(Delivery { to: self.workers[i], event: copy });
            i = i + 1;
        }
        assert(ds@.map_values(|d: Delivery| d@) =~= spec_broadcast(self@, event@));
        ds
    }

    /// Broadcast a table-source catalog refresh: wrap the payload in the
    /// table-source event and fan it out to every registered worker.
    pub fn refresh_table_sources(&self, table_sources: Payload) -> (ds: Vec<Delivery>)
        ensures
            ds@.map_values(|d: Delivery| d@) == spec_broadcast(
                self@,
                RefreshEventView::TableSourcesRefresh { table_sources: table_sources@ },
            ),
    {
        let event = RefreshEvent::TableSourcesRefresh { table_sources };
        self.broadcast(&event)
    }

    /// Broadcast a function-source catalog refresh: wrap the payload in the
    /// function-source event and fan it out to every registered worker.
    pub fn refresh_function_sources(&self, function_sources: Payload) -> (ds: Vec<Delivery>)
        ensures
            ds@.map_values(|d: Delivery| d@) == spec_broadcast(
                self@,
                RefreshEventView::FunctionSourcesRefresh { function_sources: function_sources@ },
            ),
    {
        let event = RefreshEvent::FunctionSourcesRefresh { function_sources };
        self.broadcast(&event)
    }
}

impl Default for Coordinator {
    /// The default coordinator starts with an empty registry.
    fn default() -> (c: Coordinator)
        ensures
            c@ == Seq::<WorkerHandle>::empty(),
    {
        Coordinator::new()
    }
}

} // verus!
