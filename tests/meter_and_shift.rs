use audioctrl::debounce::{Debouncers, DebouncersExt};
use audioctrl::level::{Level, Levels};
use audioctrl::meter::{meter_frame, MeterChannel, MeterInput, CAPTURE_WINDOW};
use audioctrl::shift::{key_event, ShiftRegister, ShiftState, ShiftStep};
use audioctrl::time::Instant;

const LOUD: u32 = 9500;
const SILENT: u32 = 0;

#[test]
fn loud_sample_shows_level_and_peak_at_once() {
    let t0 = Instant::from_ticks(0);
    let mut ch = MeterChannel::new(t0);
    ch.update(LOUD, 1500, 50, t0);
    assert_eq!(ch.peak, 0b1_0000_0000);
    assert_eq!(ch.level, 0b1_1111_1111);
    assert_eq!(ch.peak_decay, t0.add_millis(1500));
    assert_eq!(ch.level_decay, t0.add_millis(50));
}

#[test]
fn peak_is_held_until_its_hold_elapses() {
    let t0 = Instant::from_ticks(123);
    let mut ch = MeterChannel::new(t0);
    ch.update(LOUD, 1500, 50, t0);

    ch.update(SILENT, 1500, 50, t0.add_millis(1000));
    assert_eq!(ch.peak, 0b1_0000_0000);
    // the level's shorter hold has already passed
    assert_eq!(ch.level, 0);

    ch.update(SILENT, 1500, 50, t0.add_millis(1500));
    assert_eq!(ch.peak, 0b1_0000_0000);

    ch.update(SILENT, 1500, 50, t0.add_millis(1501));
    assert_eq!(ch.peak, 0);
}

#[test]
fn quieter_sample_waits_for_the_hold() {
    let t0 = Instant::from_ticks(0);
    let mut ch = MeterChannel::new(t0);
    ch.update(LOUD, 300, 300, t0);
    ch.update(6500, 300, 300, t0.add_millis(100));
    assert_eq!(ch.level, 0b1_1111_1111);
    assert_eq!(ch.peak_decay, t0.add_millis(300));
    ch.update(6500, 300, 300, t0.add_millis(301));
    assert_eq!(ch.level, 0b0_0001_1111);
    assert_eq!(ch.peak, 0b0_0001_0000);
    assert_eq!(ch.level_decay, t0.add_millis(601));
}

#[test]
fn equal_reading_restarts_the_hold() {
    let t0 = Instant::from_ticks(0);
    let mut ch = MeterChannel::new(t0);
    ch.update(8600, 300, 300, t0);
    ch.update(8600, 300, 300, t0.add_millis(200));
    assert_eq!(ch.peak_decay, t0.add_millis(500));
}

#[test]
fn decay_sweep_clears_expired_readings() {
    let t0 = Instant::from_ticks(0);
    let mut ch = MeterChannel::new(t0);
    ch.update(LOUD, 1000, 100, t0);
    ch.decay(t0.add_millis(500));
    assert_eq!(ch.level, 0);
    assert_eq!(ch.peak, 0b1_0000_0000);
    ch.decay(t0.add_millis(1001));
    assert_eq!(ch.peak, 0);
}

#[test]
fn display_mask_combines_level_and_peak() {
    let t0 = Instant::from_ticks(0);
    let mut ch = MeterChannel::new(t0);
    ch.update(LOUD, 1000, 10, t0);
    ch.update(6500, 1000, 10, t0.add_millis(20));
    assert_eq!(ch.display_mask(true, true), 0b1_0001_1111);
    assert_eq!(ch.display_mask(true, false), 0b0_0001_1111);
    assert_eq!(ch.display_mask(false, true), 0b1_0000_0000);
    assert_eq!(ch.display_mask(false, false), 0);
}

#[test]
fn meter_input_reports_full_windows() {
    let mut input = MeterInput::new();
    for i in 0..CAPTURE_WINDOW {
        assert_eq!(input.sample(i < 380, false), None);
    }
    let report = input.sample(true, true);
    assert_eq!(report, Some(Levels(Level::Clip, Level::Inactive)));
    for _ in 1..CAPTURE_WINDOW {
        assert_eq!(input.sample(true, true), None);
    }
    assert_eq!(input.sample(false, false), Some(Levels(Level::Clip, Level::Clip)));
}

fn drain(reg: &mut ShiftRegister) -> Vec<ShiftStep> {
    let mut out = Vec::new();
    while let Some(step) = reg.clock() {
        out.push(step);
    }
    out
}

#[test]
fn write_queues_two_n_plus_three_steps() {
    let mut reg = ShiftRegister::new(8);
    reg.write(4, 0b0000_0101);
    let steps = drain(&mut reg);
    assert_eq!(steps.len(), 2 * 8 + 3);
    assert_eq!(
        steps[0],
        ShiftStep { state: ShiftState::Reset(4), data: false, latch: false, clock: false }
    );
    for bit in 0..8 {
        let high = (0b0000_0101usize >> bit) & 1 == 1;
        assert_eq!(
            steps[1 + 2 * bit],
            ShiftStep { state: ShiftState::BitOn(4, bit), data: high, latch: false, clock: false }
        );
        assert_eq!(
            steps[2 + 2 * bit],
            ShiftStep { state: ShiftState::BitOff(4, bit), data: high, latch: false, clock: true }
        );
    }
    assert_eq!(
        steps[17],
        ShiftStep { state: ShiftState::LatchOn(4, 8), data: false, latch: true, clock: false }
    );
    assert_eq!(
        steps[18],
        ShiftStep { state: ShiftState::LatchOff(4, 8), data: false, latch: false, clock: false }
    );
    assert!(reg.is_empty());
    assert_eq!(reg.clock(), None);
}

#[test]
fn wide_chain_step_count() {
    let mut reg = ShiftRegister::new(24);
    reg.write(0, 0xFF_FFFF);
    assert_eq!(drain(&mut reg).len(), 51);
}

#[test]
fn write_that_does_not_fit_is_dropped() {
    let mut reg = ShiftRegister::new(24);
    // 39 writes of 51 steps fill 1989 of the 2000 places
    for _ in 0..39 {
        reg.write(1, 0);
    }
    reg.write(2, 0);
    let steps = drain(&mut reg);
    assert_eq!(steps.len(), 39 * 51);
    assert!(steps.iter().all(|s| s.state != ShiftState::Reset(2)));
}

#[test]
fn scan_drives_one_bit_per_write() {
    let mut reg = ShiftRegister::new(8);
    reg.scan();
    let steps = drain(&mut reg);
    assert_eq!(steps.len(), 8 * 19);
    for p in 0..8 {
        let write = &steps[p * 19..(p + 1) * 19];
        assert_eq!(write[0].state, ShiftState::Reset(p));
        for bit in 0..8 {
            assert_eq!(write[1 + 2 * bit].data, bit == 7 - p);
        }
        assert_eq!(write[18].state, ShiftState::LatchOff(p, 8));
    }
    // the first write drives bit 7 alone
    assert!(steps[15].data);
    assert!(!steps[1].data);
}

#[test]
fn pressed_key_is_reported_once_per_cooldown() {
    let t0 = Instant::from_ticks(0);
    let mut table = Debouncers::new();
    let end = ShiftStep { state: ShiftState::LatchOff(5, 8), data: false, latch: false, clock: false };
    let middle = ShiftStep { state: ShiftState::BitOn(5, 2), data: true, latch: false, clock: false };

    assert_eq!(key_event(middle, true, &mut table, 70, t0), None);
    assert_eq!(key_event(end, false, &mut table, 70, t0), None);
    assert_eq!(key_event(end, true, &mut table, 70, t0), Some(5));
    assert_eq!(key_event(end, true, &mut table, 70, t0.add_millis(50)), None);
    assert!(!table.is_ok(5, t0.add_millis(100)));
    assert_eq!(key_event(end, true, &mut table, 70, t0.add_millis(121)), Some(5));
}

#[test]
fn meter_frame_reverses_each_channel() {
    // the loudest segment of each nine-bit mask lands three bits into its field
    assert_eq!(meter_frame(0, 0b1_0000_0000), 0b0000_0000_1000);
    assert_eq!(meter_frame(0b1_0000_0000, 0), 0b0000_0000_1000 << 12);
    assert_eq!(meter_frame(0b1, 0b1), (1 << 11) | (1 << 23));
    assert_eq!(meter_frame(0b1_1111_1111, 0b1_1111_1111), 0xFF8_FF8);
    assert_eq!(meter_frame(0, 0), 0);
}

#[test]
fn louder_sample_never_shows_less() {
    let t0 = Instant::from_ticks(0);
    let mut base = MeterChannel::new(t0);
    base.update(8600, 300, 300, t0);
    let now = t0.add_millis(100);
    let mut previous = (0u32, 0u32);
    for sample in (0..=10_000u32).step_by(250) {
        let mut ch = base;
        ch.update(sample, 300, 300, now);
        assert!(ch.level >= previous.0 && ch.peak >= previous.1);
        previous = (ch.level, ch.peak);
    }
}
