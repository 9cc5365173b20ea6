use audioctrl::display::{MeterDisplay, ShowLevels, ShowPeaks};
use audioctrl::time::Instant;

#[test]
fn display_switches_hide_bars_and_dots() {
    let t0 = Instant::from_ticks(0);
    let mut d = MeterDisplay::new(t0);
    assert_eq!(d.peaks, ShowPeaks::On);
    assert_eq!(d.levels, ShowLevels::On);
    d.update(9500, 6500, 2400, 20, t0);
    d.update(0, 0, 2400, 20, t0.add_millis(30));
    // the bars have decayed, the dots are held
    assert_eq!(d.shown(), (0b1_0000_0000, 0b0_0001_0000));
    d.toggle_peaks();
    assert_eq!(d.peaks, ShowPeaks::Off);
    assert_eq!(d.shown(), (0, 0));
    d.toggle_peaks();
    d.toggle_levels();
    assert_eq!(d.levels, ShowLevels::Off);
    d.update(8600, 8600, 2400, 20, t0.add_millis(40));
    assert_eq!(d.shown(), (0b1_0000_0000, 0b0_1000_0000));
    d.toggle_levels();
    assert_eq!(d.shown(), (0b1_1111_1111, 0b0_1111_1111));
    assert_eq!(d.frame(), 0xFF8_FF0);
}

#[test]
fn display_decay_sweep() {
    let t0 = Instant::from_ticks(0);
    let mut d = MeterDisplay::new(t0);
    d.update(9500, 9500, 100, 50, t0);
    d.decay(t0.add_millis(60));
    assert_eq!(d.shown(), (0b1_0000_0000, 0b1_0000_0000));
    d.decay(t0.add_millis(101));
    assert_eq!(d.shown(), (0, 0));
    assert_eq!(d.frame(), 0);
}
