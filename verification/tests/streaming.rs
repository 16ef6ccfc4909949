use indica::streaming::warmup::{Stage, Warmup};
use indica::streaming::window::SlidingWindow;

#[test]
fn sma_window_streaming() {
    // The window of a 3-period SMA fed 1, 2, 3, 4, 5.
    let mut w = SlidingWindow::new(3);
    let mut averages = Vec::new();
    for x in [1.0, 2.0, 3.0, 4.0, 5.0] {
        w.push(x);
        averages.push(if w.is_full() {
            Some(w.values().iter().sum::<f64>() / 3.0)
        } else {
            None
        });
    }
    assert_eq!(averages, vec![None, None, Some(2.0), Some(3.0), Some(4.0)]);
}

#[test]
fn window_keeps_last_values() {
    let mut w = SlidingWindow::new(2);
    assert_eq!(w.len(), 0);
    w.push(10);
    assert!(!w.is_full());
    w.push(20);
    w.push(30);
    assert!(w.is_full());
    assert_eq!(w.len(), 2);
    assert_eq!(*w.get(0), 20);
    assert_eq!(*w.get(1), 30);
    w.clear();
    assert_eq!(w.len(), 0);
    assert_eq!(w.capacity(), 2);
}

#[test]
fn window_of_zero_keeps_nothing() {
    let mut w = SlidingWindow::new(0);
    w.push(1);
    assert_eq!(w.len(), 0);
    assert!(w.is_full());
}

#[test]
fn ema_warmup_schedule() {
    // An EMA over 3 accumulates two closes, seeds on the third, smooths afterwards.
    let mut w = Warmup::new(3);
    assert_eq!(w.advance(), Stage::Accumulate);
    assert_eq!(w.advance(), Stage::Accumulate);
    assert_eq!(w.advance(), Stage::Seed);
    assert!(w.is_ready());
    assert_eq!(w.advance(), Stage::Smooth);
}

#[test]
fn ema_series_length() {
    // Six values with period 3 give four EMA values.
    let mut w = Warmup::new(3);
    let mut reported = 0;
    for _ in 0..6 {
        let s = w.advance();
        if s == Stage::Seed || s == Stage::Smooth {
            reported += 1;
        }
    }
    assert_eq!(reported, 4);
}

#[test]
fn rsi_streaming_schedule() {
    // An RSI over 14 records the first close, accumulates 13 changes, seeds on the
    // 14th change (the 15th close).
    let mut w = Warmup::after_reference(14);
    assert_eq!(w.advance(), Stage::Prime);
    for _ in 0..13 {
        assert_eq!(w.advance(), Stage::Accumulate);
        assert!(!w.is_ready());
    }
    assert_eq!(w.advance(), Stage::Seed);
    assert_eq!(w.updates(), 15);
    assert_eq!(w.advance(), Stage::Smooth);
    w.reset();
    assert_eq!(w.updates(), 0);
    assert!(!w.is_ready());
    assert_eq!(w.advance(), Stage::Prime);
    assert_eq!(w.period(), 14);
}

#[test]
fn zero_period_schedules() {
    let mut w = Warmup::new(0);
    assert_eq!(w.advance(), Stage::Smooth);
    let mut p = Warmup::after_reference(0);
    assert_eq!(p.advance(), Stage::Prime);
    assert_eq!(p.advance(), Stage::Smooth);
}
