use level_meter::reducer::MeterState;
use level_meter::shared::SharedSample;

#[test]
fn new_slot_holds_initial_value() {
    let slot = SharedSample::new(42);
    assert_eq!(slot.load(), 42);
}

#[test]
fn last_write_wins() {
    let slot = SharedSample::new(0);
    slot.store(10);
    slot.store(20);
    slot.store(30);
    assert_eq!(slot.load(), 30);
    // Reading again without a store re-reads the same value.
    assert_eq!(slot.load(), 30);
}

#[test]
fn thousand_interleaved_stores_and_loads() {
    // Rapid write/read interleavings: every load observes a value that was
    // actually stored (here, the latest one: same-thread program order).
    let slot = SharedSample::new(0);
    for i in 0..1_000u32 {
        slot.store(i);
        let got = slot.load();
        assert_eq!(got, i);
    }
}

#[test]
fn slot_feeds_the_reducer_between_stores() {
    // The consumer re-reads a stale value when no store happened: the
    // position keeps smoothing toward whatever was last set.
    let slot = SharedSample::new(0);
    let mut s = MeterState::create(500_000, 5_000);
    slot.store(1_000_000);
    s.update(slot.load());
    s.update(slot.load());
    assert_eq!(s.position, 750_000);
}
