//! The coordination discipline's guarantees, stated and proved over the
//! registry and broadcast models: what a sequence of registrations leaves in
//! the registry, what one broadcast delivers, and how deliveries of two
//! sequential broadcasts are ordered at each destination.

use vstd::prelude::*;

use crate::coordinator::DeliveryView;
use crate::coordinator::WorkerHandle;
use crate::coordinator::spec_broadcast;
use crate::coordinator::spec_register;
use crate::coordinator::targets;
use crate::event::RefreshEventView;

verus! {

/// The registry left by registering each handle of `handles` in turn,
/// starting from the empty registry.
pub open spec fn registry_after(handles: Seq<WorkerHandle>) -> Seq<WorkerHandle>
    decreases handles.len(),
{
    if handles.len() == 0 {
        Seq::<WorkerHandle>::empty()
    } else {
        spec_register(registry_after(handles.drop_last()), handles.last())
    }
}

/// How many of the submissions in `log` are addressed to `h`.
pub open spec fn count_to(log: Seq<DeliveryView>, h: WorkerHandle) -> nat
    decreases log.len(),
{
    if log.len() == 0 {
        0
    } else {
        count_to(log.drop_last(), h) + (if log.last().to == h {
            1nat
        } else {
            0nat
        })
    }
}

/// Registration monotonicity: registering `h1, ..., hn` in turn, with nothing
/// removed in between, leaves a registry holding exactly `h1, ..., hn` in that
/// order, and a broadcast then addresses exactly those handles, in that order.
pub proof fn lemma_registration_monotonic(handles: Seq<WorkerHandle>, event: RefreshEventView)
    ensures
        registry_after(handles) == handles,
        targets(spec_broadcast(registry_after(handles), event)) == handles,
    decreases handles.len(),
{
    if handles.len() == 0 {
        assert(registry_after(handles) =~= handles);
    } else {
        lemma_registration_monotonic(handles.drop_last(), event);
        assert(registry_after(handles) =~= handles);
    }
    assert(targets(spec_broadcast(handles, event)) =~= handles);
}

/// No registry interference: a handle not yet registered receives nothing
/// from a broadcast over the current registry, and exactly one delivery from
/// a broadcast over the registry right after its registration — never two
/// from the same broadcast, and never one from a registry it is absent from.
pub proof fn lemma_no_registry_interference(
    workers: Seq<WorkerHandle>,
    h: WorkerHandle,
    event: RefreshEventView,
)
    requires
        !workers.contains(h),
    ensures
        count_to(spec_broadcast(workers, event), h) == 0,
        count_to(spec_broadcast(spec_register(workers, h), event), h) == 1,
{
    lemma_count_to_absent(workers, h, event);
    let before = spec_broadcast(workers, event);
    let after = spec_broadcast(spec_register(workers, h), event);
    assert(after.drop_last() =~= before);
    assert(after.last().to == h);
}

/// A broadcast submits nothing to a handle that is not in the registry.
proof fn lemma_count_to_absent(
    workers: Seq<WorkerHandle>,
    h: WorkerHandle,
    event: RefreshEventView,
)
    requires
        !workers.contains(h),
    ensures
        count_to(spec_broadcast(workers, event), h) == 0,
    decreases workers.len(),
{
    let log = spec_broadcast(workers, event);
    if workers.len() > 0 {
        assert(!workers.drop_last().contains(h)) by {
            assert(forall|i: int|
                0 <= i < workers.drop_last().len() ==> workers.drop_last()[i] == workers[i]);
        }
        lemma_count_to_absent(workers.drop_last(), h, event);
        assert(log.drop_last() =~= spec_broadcast(workers.drop_last(), event));
        assert(log.last().to == workers.last());
        assert(workers.last() != h);
    }
}

/// Per-destination ordering: over two broadcasts issued in sequence, first
/// `e1` to registry `r1`, then `e2` to registry `r2`, every submission of the
/// first broadcast stands in the combined submission log before every
/// submission of the second; in particular, a worker registered through both
/// has `e1` submitted to it before `e2`.
pub proof fn lemma_per_destination_ordering(
    r1: Seq<WorkerHandle>,
    r2: Seq<WorkerHandle>,
    e1: RefreshEventView,
    e2: RefreshEventView,
    h: WorkerHandle,
)
    requires
        r1.contains(h),
        r2.contains(h),
    ensures
        ({
            let log = spec_broadcast(r1, e1) + spec_broadcast(r2, e2);
            &&& log.len() == r1.len() + r2.len()
            &&& forall|i: int|
                0 <= i < r1.len() ==> log[i] == (DeliveryView { to: r1[i], event: e1 })
            &&& forall|j: int|
                r1.len() <= j < log.len() ==> log[j] == (DeliveryView {
                    to: r2[j - r1.len()],
                    event: e2,
                })
            &&& exists|i: int, j: int|
                0 <= i < j < log.len() && log[i] == (DeliveryView { to: h, event: e1 }) && log[j]
                    == (DeliveryView { to: h, event: e2 })
        }),
{
    let log = spec_broadcast(r1, e1) + spec_broadcast(r2, e2);
    let i = choose|i: int| 0 <= i < r1.len() && r1[i] == h;
    let k = choose|k: int| 0 <= k < r2.len() && r2[k] == h;
    let j = r1.len() as int + k;
    assert(log[i] == (DeliveryView { to: h, event: e1 }));
    assert(log[j] == (DeliveryView { to: h, event: e2 }));
    assert(0 <= i < j < log.len());
}

} // verus!
