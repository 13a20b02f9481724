use clock_firmware::speedchanger::SpeedChanger;
use std::cell::Cell;

fn fired(changer: &mut SpeedChanger<3>, calls: usize) -> Vec<bool> {
    let mut pattern = Vec::new();
    for _ in 0..calls {
        let hit = Cell::new(false);
        changer.execute(|| hit.set(true));
        pattern.push(hit.get());
    }
    pattern
}

#[test]
fn fires_once_in_reset_plus_one_calls() {
    let mut changer: SpeedChanger<3> = Default::default();
    assert_eq!(
        fired(&mut changer, 9),
        vec![false, false, true, false, false, false, true, false, false]
    );
}

#[test]
fn next_div_counts_down_and_starts_over() {
    let mut changer: SpeedChanger<3> = Default::default();
    let seen: Vec<u32> = (0..9).map(|_| changer.next_div()).collect();
    assert_eq!(seen, vec![2, 1, 0, 3, 2, 1, 0, 3, 2]);
}

#[test]
fn decrement_makes_it_faster_and_counts_as_a_call() {
    let mut changer: SpeedChanger<3> = Default::default();
    changer.decrement_max_div();
    let seen: Vec<u32> = (0..7).map(|_| changer.next_div()).collect();
    assert_eq!(seen, vec![1, 0, 2, 1, 0, 2, 1]);
    changer.decrement_max_div();
    changer.decrement_max_div();
    // The maximum is zero now: every call fires.
    let seen: Vec<u32> = (0..4).map(|_| changer.next_div()).collect();
    assert_eq!(seen, vec![0, 0, 0, 0]);
    changer.decrement_max_div();
    assert_eq!(changer.next_div(), 0);
}

#[test]
fn reset_restores_the_slowest_pace() {
    let mut changer: SpeedChanger<3> = Default::default();
    changer.decrement_max_div();
    changer.decrement_max_div();
    changer.next_div();
    changer.reset();
    assert_eq!(
        fired(&mut changer, 4),
        vec![false, false, true, false]
    );
}

#[test]
fn zero_divider_fires_every_time() {
    let mut changer: SpeedChanger<0> = Default::default();
    let count = Cell::new(0);
    for _ in 0..5 {
        changer.execute(|| count.set(count.get() + 1));
    }
    assert_eq!(count.get(), 5);
    changer.decrement_max_div();
    changer.reset();
    assert_eq!(changer.next_div(), 0);
}
