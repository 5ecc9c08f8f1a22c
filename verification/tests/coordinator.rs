use coordinator::Coordinator;
use coordinator::Delivery;
use coordinator::Payload;
use coordinator::RefreshEvent;
use coordinator::WorkerHandle;

fn handle(id: u64) -> WorkerHandle {
    WorkerHandle { id }
}

fn table_event(bytes: &[u8]) -> RefreshEvent {
    RefreshEvent::TableSourcesRefresh { table_sources: Payload::from_bytes(bytes.to_vec()) }
}

fn function_event(bytes: &[u8]) -> RefreshEvent {
    RefreshEvent::FunctionSourcesRefresh { function_sources: Payload::from_bytes(bytes.to_vec()) }
}

/// One worker's inbox, as the test's stand-in for the transport: each entry
/// records whether the delivered event was a table-source refresh, and its
/// payload bytes.
type Inbox = Vec<(bool, Vec<u8>)>;

/// Deliver each submission into the inbox of its destination, in submission
/// order. Inboxes are keyed by position in `ids`.
fn deliver_all(ids: &[u64], inboxes: &mut [Inbox], deliveries: Vec<Delivery>) {
    for d in deliveries {
        let is_table = d.event.is_table_sources();
        let bytes = d.event.into_payload().into_bytes();
        let pos = ids.iter().position(|&id| id == d.to.id).expect("unknown destination");
        inboxes[pos].push((is_table, bytes));
    }
}

#[test]
fn register_acknowledges_with_same_handle() {
    let mut c = Coordinator::new();
    let h = handle(7);
    let ack = c.register(h);
    assert_eq!(ack, h);
    assert_eq!(c.worker_count(), 1);
}

#[test]
fn new_coordinator_has_empty_registry() {
    let c = Coordinator::new();
    assert_eq!(c.worker_count(), 0);
    assert_eq!(c.snapshot(), vec![]);
}

#[test]
fn default_coordinator_has_empty_registry() {
    let c = Coordinator::default();
    assert_eq!(c.worker_count(), 0);
}

#[test]
fn registration_monotonicity() {
    let mut c = Coordinator::new();
    let hs = [handle(1), handle(2), handle(3)];
    for h in hs {
        c.register(h);
    }
    assert_eq!(c.snapshot(), vec![handle(1), handle(2), handle(3)]);

    let ds = c.broadcast(&table_event(b"cat"));
    let to: Vec<u64> = ds.iter().map(|d| d.to.id).collect();
    assert_eq!(to, vec![1, 2, 3]);
}

#[test]
fn fanout_is_complete_and_copies_are_independent() {
    let mut c = Coordinator::new();
    c.register(handle(10));
    c.register(handle(20));
    c.register(handle(30));

    let mut ds = c.broadcast(&table_event(b"v1"));
    assert_eq!(ds.len(), 3);
    for (d, id) in ds.iter().zip([10u64, 20, 30]) {
        assert_eq!(d.to.id, id);
        assert!(d.event.is_table_sources());
        assert_eq!(d.event.payload().bytes(), &b"v1".to_vec());
    }

    // Mutating one delivered copy must not affect another.
    if let RefreshEvent::TableSourcesRefresh { table_sources } = &mut ds[0].event {
        table_sources.bytes.push(b'!');
    }
    assert_eq!(ds[0].event.payload().bytes(), &b"v1!".to_vec());
    assert_eq!(ds[1].event.payload().bytes(), &b"v1".to_vec());
    assert_eq!(ds[2].event.payload().bytes(), &b"v1".to_vec());
}

#[test]
fn broadcast_to_empty_registry_submits_nothing() {
    let c = Coordinator::new();
    let ds = c.broadcast(&function_event(b"f"));
    assert!(ds.is_empty());
}

#[test]
fn broadcast_leaves_membership_untouched() {
    let mut c = Coordinator::new();
    c.register(handle(1));
    c.register(handle(2));
    let before = c.snapshot();
    c.broadcast(&table_event(b"x"));
    assert_eq!(c.snapshot(), before);
}

#[test]
fn no_registry_interference() {
    let mut c = Coordinator::new();
    c.register(handle(1));
    c.register(handle(2));
    let newcomer = handle(3);

    // A broadcast fanned out before the registration never reaches the
    // newcomer, and never delivers to a partially registered handle.
    let before = c.broadcast(&table_event(b"a"));
    assert_eq!(before.iter().filter(|d| d.to == newcomer).count(), 0);

    // A broadcast fanned out after the registration reaches it exactly once.
    c.register(newcomer);
    let after = c.broadcast(&table_event(b"a"));
    assert_eq!(after.iter().filter(|d| d.to == newcomer).count(), 1);
}

#[test]
fn per_destination_ordering() {
    let mut c = Coordinator::new();
    c.register(handle(1));
    c.register(handle(2));

    // Two sequential broadcasts: the combined submission log keeps, for each
    // destination, the first event's submission before the second's.
    let mut log = c.broadcast(&table_event(b"e1"));
    log.extend(c.broadcast(&function_event(b"e2")));

    for id in [1u64, 2] {
        let first = log
            .iter()
            .position(|d| d.to.id == id && d.event.is_table_sources())
            .expect("first event missing");
        let second = log
            .iter()
            .position(|d| d.to.id == id && !d.event.is_table_sources())
            .expect("second event missing");
        assert!(first < second);
    }
}

#[test]
fn delivery_failure_is_isolated() {
    let mut c = Coordinator::new();
    c.register(handle(1));
    c.register(handle(2));
    c.register(handle(3));

    // The transport stand-in drops every delivery to worker 2; the broadcast
    // call itself has already returned with all three submissions, and the
    // failure leaves delivery to the other workers untouched.
    let ds = c.broadcast(&table_event(b"v"));
    assert_eq!(ds.len(), 3);

    let mut delivered: Vec<u64> = Vec::new();
    for d in ds {
        if d.to.id == 2 {
            continue;
        }
        delivered.push(d.to.id);
    }
    assert_eq!(delivered, vec![1, 3]);
}

#[test]
fn double_registration_yields_two_entries() {
    let mut c = Coordinator::new();
    let h = handle(5);
    c.register(h);
    c.register(h);
    assert_eq!(c.snapshot(), vec![h, h]);

    // Both entries receive every broadcast.
    let ds = c.broadcast(&table_event(b"p"));
    assert_eq!(ds.len(), 2);
    assert!(ds.iter().all(|d| d.to == h));
}

#[test]
fn refresh_rounds_scenario() {
    let mut c = Coordinator::new();
    let ids = [1u64, 2, 3, 4];
    let mut inboxes: Vec<Inbox> = vec![Vec::new(), Vec::new(), Vec::new(), Vec::new()];

    for id in [1u64, 2, 3] {
        c.register(handle(id));
    }
    let ds = c.refresh_table_sources(Payload::from_bytes(b"v1".to_vec()));
    deliver_all(&ids, &mut inboxes, ds);

    // Each of W1, W2, W3 received exactly one message equal to the payload.
    for pos in 0..3 {
        assert_eq!(inboxes[pos], vec![(true, b"v1".to_vec())]);
    }
    assert!(inboxes[3].is_empty());

    c.register(handle(4));
    let ds = c.refresh_function_sources(Payload::from_bytes(b"f1".to_vec()));
    deliver_all(&ids, &mut inboxes, ds);

    // All of W1..W4 received the second event; W1..W3 got no second copy of
    // the first one.
    for pos in 0..3 {
        assert_eq!(inboxes[pos], vec![(true, b"v1".to_vec()), (false, b"f1".to_vec())]);
    }
    assert_eq!(inboxes[3], vec![(false, b"f1".to_vec())]);
}

#[test]
fn payload_round_trip() {
    let p = Payload::from_bytes(vec![9, 8, 7]);
    let q = p.clone();
    assert_eq!(p.bytes(), &vec![9, 8, 7]);
    assert_eq!(q.into_bytes(), vec![9, 8, 7]);
}

#[test]
fn event_accessors() {
    let t = table_event(b"t");
    assert!(t.is_table_sources());
    assert_eq!(t.payload().bytes(), &b"t".to_vec());
    let f = function_event(b"f");
    assert!(!f.is_table_sources());
    assert_eq!(f.into_payload().into_bytes(), b"f".to_vec());

    let copy = t.clone();
    assert!(copy.is_table_sources());
    assert_eq!(copy.payload().bytes(), &b"t".to_vec());
}

#[test]
fn snapshot_is_a_point_in_time_copy() {
    let mut c = Coordinator::new();
    c.register(handle(1));
    let snap = c.snapshot();
    c.register(handle(2));
    assert_eq!(snap, vec![handle(1)]);
    assert_eq!(c.snapshot(), vec![handle(1), handle(2)]);
}
