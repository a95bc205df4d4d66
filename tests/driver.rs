use hailstone::driver::{bar_length, pass_length};
use hailstone::{Action, Driver};

fn emitted_until_stop(d: &mut Driver) -> Vec<i16> {
    let mut out = Vec::new();
    loop {
        match d.next() {
            Action::Emit(v) => out.push(v),
            Action::Repeat => panic!("no repeat outside loop mode"),
            Action::Stop => break,
        }
    }
    out
}

#[test]
fn forward_run_prints_classic_trajectory() {
    let mut d = Driver::new(3, 7, false);
    let values = emitted_until_stop(&mut d);
    assert_eq!(values, vec![10, 5, 16, 8, 4, 2, 1]);
    let mut lines = vec![format!("counter: {}", 7)];
    for v in &values {
        lines.push(format!("{:02}", v));
    }
    assert_eq!(lines, vec!["counter: 7", "10", "05", "16", "08", "04", "02", "01"]);
    assert_eq!(d.next(), Action::Stop);
}

#[test]
fn backward_run_uses_unhail() {
    let mut d = Driver::new(1, -3, false);
    assert_eq!(emitted_until_stop(&mut d), vec![2, 0, 0]);
    assert_eq!(d.value(), 0);
}

#[test]
fn zero_counter_takes_no_step() {
    let mut d = Driver::new(5, 0, false);
    assert_eq!(d.next(), Action::Stop);
    assert_eq!(d.value(), 5);
}

#[test]
fn loop_mode_repeats_passes() {
    let mut d = Driver::new(1, 2, true);
    assert_eq!(d.next(), Action::Emit(4));
    assert_eq!(d.next(), Action::Emit(2));
    assert_eq!(d.next(), Action::Repeat);
    assert_eq!(d.next(), Action::Emit(1));
    assert_eq!(d.next(), Action::Emit(4));
    assert_eq!(d.next(), Action::Repeat);
}

#[test]
fn pass_length_is_magnitude() {
    assert_eq!(pass_length(7), 7);
    assert_eq!(pass_length(-7), 7);
    assert_eq!(pass_length(0), 0);
    assert_eq!(pass_length(i16::MIN), 32768);
}

#[test]
fn bar_length_is_magnitude() {
    assert_eq!(bar_length(16), 16);
    assert_eq!(bar_length(-4), 4);
    assert_eq!(bar_length(0), 0);
}
