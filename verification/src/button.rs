//! The mode-toggle button as a sampled two-phase wait: first wait for
//! the line to go low (the press), then for it to go high (the
//! release), and only then toggle.  Bounces while the line is still
//! high before the press, or while it is low before the release, are
//! absorbed: one full press-release cycle gives exactly one toggle.

use vstd::prelude::*;

verus! {

/// Where the button wait stands: waiting for the line to go low, or
/// (press seen) waiting for it to go high again.
#[derive(Clone, Copy, PartialEq, Eq, Structural, Debug)]
pub enum ButtonPhase {
    AwaitPress,
    AwaitRelease,
}

/// The next phase after sampling the line once.
pub open spec fn spec_button_next(p: ButtonPhase, level_high: bool) -> ButtonPhase {
    match p {
        ButtonPhase::AwaitPress => if level_high {
            ButtonPhase::AwaitPress
        } else {
            ButtonPhase::AwaitRelease
        },
        ButtonPhase::AwaitRelease => if level_high {
            ButtonPhase::AwaitPress
        } else {
            ButtonPhase::AwaitRelease
        },
    }
}

/// Whether this sample completes a press-release cycle: only a high
/// level seen while waiting for the release toggles the mode.
pub open spec fn spec_button_toggles(p: ButtonPhase, level_high: bool) -> bool {
    p is AwaitRelease && level_high
}

/// Runs the button wait over a sequence of sampled levels, returning
/// the final phase and how many toggles were emitted.
pub open spec fn spec_button_run(p: ButtonPhase, levels: Seq<bool>) -> (ButtonPhase, nat)
    decreases levels.len(),
{
    if levels.len() == 0 {
        (p, 0)
    } else {
        let t: nat = if spec_button_toggles(p, levels[0]) {
            1
        } else {
            0
        };
        let rest = spec_button_run(spec_button_next(p, levels[0]), levels.drop_first());
        (rest.0, t + rest.1)
    }
}

/// Feeds one sampled level to the button wait; returns the next phase
/// and whether the mode toggles on this sample.
pub fn button_sample(p: ButtonPhase, level_high: bool) -> (r: (ButtonPhase, bool))
    ensures
        r.0 == spec_button_next(p, level_high),
        r.1 == spec_button_toggles(p, level_high),
{
    match p {
        ButtonPhase::AwaitPress => if level_high {
            (ButtonPhase::AwaitPress, false)
        } else {
            (ButtonPhase::AwaitRelease, false)
        },
        ButtonPhase::AwaitRelease => if level_high {
            (ButtonPhase::AwaitPress, true)
        } else {
            (ButtonPhase::AwaitRelease, false)
        },
    }
}

/// From the release wait, any number of low samples followed by one
/// high sample emits exactly one toggle and returns to the press wait.
proof fn lemma_button_release(levels: Seq<bool>)
    requires
        levels.len() >= 1,
        forall|i: int| 0 <= i < levels.len() - 1 ==> !levels[i],
        levels[levels.len() - 1],
    ensures
        spec_button_run(ButtonPhase::AwaitRelease, levels) == (ButtonPhase::AwaitPress, 1nat),
    decreases levels.len(),
{
    if levels.len() == 1 {
        assert(levels[0]);
        assert(levels.drop_first().len() == 0);
        assert(spec_button_run(ButtonPhase::AwaitPress, levels.drop_first()) == (
            ButtonPhase::AwaitPress,
            0nat,
        ));
    } else {
        assert(!levels[0]);
        let rest = levels.drop_first();
        assert(rest[rest.len() - 1] == levels[levels.len() - 1]);
        assert(forall|i: int| 0 <= i < rest.len() - 1 ==> !rest[i]);
        lemma_button_release(rest);
    }
}

/// A full button cycle toggles the mode exactly once, however many
/// bounce samples come strictly before the press is seen (high levels
/// before index `k`) or strictly after the release wait begins (low
/// levels from `k` up to the final high): the run emits one toggle and
/// ends back at the press wait.
pub proof fn lemma_button_cycle(levels: Seq<bool>, k: int)
    requires
        0 <= k < levels.len() - 1,
        forall|i: int| 0 <= i < k ==> levels[i],
        forall|i: int| k <= i < levels.len() - 1 ==> !levels[i],
        levels[levels.len() - 1],
    ensures
        spec_button_run(ButtonPhase::AwaitPress, levels) == (ButtonPhase::AwaitPress, 1nat),
    decreases k,
{
    if k == 0 {
        assert(!levels[0]);
        let rest = levels.drop_first();
        assert(rest.len() >= 1);
        assert(rest[rest.len() - 1] == levels[levels.len() - 1]);
        assert(forall|i: int| 0 <= i < rest.len() - 1 ==> !rest[i]);
        lemma_button_release(rest);
    } else {
        assert(levels[0]);
        let rest = levels.drop_first();
        assert(rest[rest.len() - 1] == levels[levels.len() - 1]);
        assert(forall|i: int| 0 <= i < k - 1 ==> rest[i]);
        assert(forall|i: int| k - 1 <= i < rest.len() - 1 ==> !rest[i]);
        lemma_button_cycle(rest, k - 1);
    }
}

} // verus!
