use alarmctl::button::{button_sample, ButtonPhase};

fn run(levels: &[bool]) -> (ButtonPhase, u32) {
    let mut phase = ButtonPhase::AwaitPress;
    let mut toggles: u32 = 0;
    for &level in levels {
        let (next, toggled) = button_sample(phase, level);
        phase = next;
        if toggled {
            toggles += 1;
        }
    }
    (phase, toggles)
}

#[test]
fn one_cycle_one_toggle() {
    let (phase, toggles) = run(&[true, false, true]);
    assert_eq!(toggles, 1);
    assert_eq!(phase, ButtonPhase::AwaitPress);
}

#[test]
fn bounces_before_press_are_absorbed() {
    let (phase, toggles) = run(&[true, true, true, true, false, true]);
    assert_eq!(toggles, 1);
    assert_eq!(phase, ButtonPhase::AwaitPress);
}

#[test]
fn bounces_while_held_are_absorbed() {
    let (phase, toggles) = run(&[true, false, false, false, false, true]);
    assert_eq!(toggles, 1);
    assert_eq!(phase, ButtonPhase::AwaitPress);
}

#[test]
fn held_low_never_toggles() {
    let (phase, toggles) = run(&[false, false, false, false]);
    assert_eq!(toggles, 0);
    assert_eq!(phase, ButtonPhase::AwaitRelease);
}

#[test]
fn held_high_never_toggles() {
    let (phase, toggles) = run(&[true, true, true]);
    assert_eq!(toggles, 0);
    assert_eq!(phase, ButtonPhase::AwaitPress);
}

#[test]
fn two_cycles_two_toggles() {
    let (phase, toggles) = run(&[false, true, false, false, true]);
    assert_eq!(toggles, 2);
    assert_eq!(phase, ButtonPhase::AwaitPress);
}
