use audioctrl::debounce::{Debouncers, DebouncersExt};
use audioctrl::time::Instant;

#[test]
fn add_millis_counts_microsecond_ticks() {
    let t = Instant::from_ticks(5);
    assert_eq!(t.add_millis(30_000).ticks(), 30_000_005);
}

#[test]
fn add_millis_wraps_around_the_tick_range() {
    let t = Instant::from_ticks(u32::MAX - 499);
    assert_eq!(t.add_millis(1).ticks(), 500);
}

#[test]
fn ordering_is_wrap_aware() {
    let early = Instant::from_ticks(u32::MAX - 10);
    let late = Instant::from_ticks(10);
    assert!(early.is_before(late));
    assert!(!late.is_before(early));
    assert!(!late.is_before(late));
    assert!(Instant::from_ticks(1).is_before(Instant::from_ticks(2)));
}

#[test]
fn first_edge_fires_at_once() {
    let table = Debouncers::new();
    assert!(table.is_ok(1, Instant::from_ticks(0)));
}

#[test]
fn bouncing_edges_extend_the_cooldown() {
    // cooldown C = 100 ms; edges at t0, t0 + 0.3C and t0 + 0.6C
    let t0 = Instant::from_ticks(1_000_000);
    let mut table = Debouncers::new();

    assert!(table.is_ok(7, t0));
    table.update(7, 100, t0);

    let second = t0.add_millis(30);
    assert!(!table.is_ok(7, second));
    table.update(7, 100, second);

    let third = t0.add_millis(60);
    assert!(!table.is_ok(7, third));
    table.update(7, 100, third);

    // the deadline is now t0 + 0.6C + C = t0 + 160 ms
    assert!(!table.is_ok(7, t0.add_millis(160)));
    assert!(table.is_ok(7, Instant::from_ticks(t0.add_millis(160).ticks() + 1)));
    // without the extension the input would have been free after t0 + C
    assert!(!table.is_ok(7, t0.add_millis(101)));
}

#[test]
fn inputs_are_debounced_independently() {
    let t0 = Instant::from_ticks(0);
    let mut table = Debouncers::new();
    table.update(1, 250, t0);
    assert!(!table.is_ok(1, t0.add_millis(10)));
    assert!(table.is_ok(2, t0.add_millis(10)));
}

#[test]
fn full_table_ignores_new_inputs() {
    let t0 = Instant::from_ticks(0);
    let mut table = Debouncers::new();
    for id in 0..8 {
        table.update(id, 250, t0);
    }
    table.update(100, 250, t0);
    assert!(table.is_ok(100, t0.add_millis(10)));
    // known inputs are still tracked
    table.update(3, 250, t0.add_millis(10));
    assert!(!table.is_ok(3, t0.add_millis(200)));
}
