//! The local-input decoder: quadrature rotary-encoder steps and button
//! press-release cycles become bounded updates of the PWM parameters.

use vstd::prelude::*;

verus! {

/// Which way a detected encoder step moves the selected parameter.
#[derive(Clone, Copy, PartialEq, Eq, Structural, Debug)]
pub enum Direction {
    Increase,
    Decrease,
}

/// The two encoder lines; a step is detected when one of them rises.
#[derive(Clone, Copy, PartialEq, Eq, Structural, Debug)]
pub enum EncoderLine {
    A,
    B,
}

/// One decoded encoder step.  The magnitude is 0xFF for a clean step
/// (the partner line already high when the winning edge fired) and 0
/// otherwise; zero-magnitude events are legal no-ops.
#[derive(Clone, Copy, PartialEq, Eq, Structural, Debug)]
pub struct EncoderEvent {
    pub magnitude: u8,
    pub direction: Direction,
}

/// The PWM parameters the decoder owns: `top` is the period, `compare`
/// the duty threshold (the volume).  The two fields saturate
/// independently at 0 and 0xFFFF; no relation between them is enforced.
#[derive(Clone, Copy, PartialEq, Eq, Structural, Debug)]
pub struct PwmParameters {
    pub top: u16,
    pub compare: u16,
}

/// The decoder's whole state: the mode (`control_volume` true means the
/// encoder adjusts `compare`, false means it adjusts `top`) and the
/// current parameters.
#[derive(Clone, Copy, PartialEq, Eq, Structural, Debug)]
pub struct DecoderState {
    pub control_volume: bool,
    pub params: PwmParameters,
}

/// One event the decoder reacts to: a complete button press-release
/// cycle, or a rising edge on one encoder line with the partner line's
/// sampled level.
#[derive(Clone, Copy, PartialEq, Eq, Structural, Debug)]
pub enum InputEvent {
    ButtonCycle,
    EncoderEdge { winner: EncoderLine, partner_high: bool },
}

/// The decision table of the two-edge quadrature decode: a rising edge
/// on A with B high is a full step left (decrease); on B with A high a
/// full step right (increase); any other edge is recorded with zero
/// magnitude and has no observable effect.
pub open spec fn spec_decode(winner: EncoderLine, partner_high: bool) -> EncoderEvent {
    match winner {
        EncoderLine::A => if partner_high {
            EncoderEvent { magnitude: 0xff, direction: Direction::Decrease }
        } else {
            EncoderEvent { magnitude: 0, direction: Direction::Increase }
        },
        EncoderLine::B => if partner_high {
            EncoderEvent { magnitude: 0xff, direction: Direction::Increase }
        } else {
            EncoderEvent { magnitude: 0, direction: Direction::Decrease }
        },
    }
}

/// Addition clipped at 0xFFFF.
pub open spec fn sat_add(x: u16, d: u16) -> u16 {
    if x + d > 0xffff {
        0xffff
    } else {
        (x + d) as u16
    }
}

/// Subtraction clipped at 0.
pub open spec fn sat_sub(x: u16, d: u16) -> u16 {
    if x < d {
        0
    } else {
        (x - d) as u16
    }
}

/// What one encoder event does to the parameters: its magnitude is
/// added to or subtracted from whichever field the mode selects, with
/// saturation; the other field is untouched.
pub open spec fn spec_apply(p: PwmParameters, control_volume: bool, e: EncoderEvent) -> PwmParameters {
    let m = e.magnitude as u16;
    if control_volume {
        match e.direction {
            Direction::Increase => PwmParameters { top: p.top, compare: sat_add(p.compare, m) },
            Direction::Decrease => PwmParameters { top: p.top, compare: sat_sub(p.compare, m) },
        }
    } else {
        match e.direction {
            Direction::Increase => PwmParameters { top: sat_add(p.top, m), compare: p.compare },
            Direction::Decrease => PwmParameters { top: sat_sub(p.top, m), compare: p.compare },
        }
    }
}

/// The decoder's transition function: a button cycle flips the mode and
/// leaves the parameters alone; an encoder edge leaves the mode alone
/// and applies the decoded event to the parameters.
pub open spec fn spec_step(s: DecoderState, ev: InputEvent) -> DecoderState {
    match ev {
        InputEvent::ButtonCycle => DecoderState {
            control_volume: !s.control_volume,
            params: s.params,
        },
        InputEvent::EncoderEdge { winner, partner_high } => DecoderState {
            control_volume: s.control_volume,
            params: spec_apply(s.params, s.control_volume, spec_decode(winner, partner_high)),
        },
    }
}

/// Runs the decoder over a whole sequence of input events.
pub open spec fn spec_run(s: DecoderState, evs: Seq<InputEvent>) -> DecoderState
    decreases evs.len(),
{
    if evs.len() == 0 {
        s
    } else {
        spec_run(spec_step(s, evs[0]), evs.drop_first())
    }
}

/// How many complete button cycles a sequence of events holds.
pub open spec fn button_cycles(evs: Seq<InputEvent>) -> nat
    decreases evs.len(),
{
    if evs.len() == 0 {
        0
    } else {
        (if evs[0] is ButtonCycle {
            1nat
        } else {
            0nat
        }) + button_cycles(evs.drop_first())
    }
}

/// The decoded events of a sequence of rising edges, each paired with
/// the partner line's sampled level.
pub open spec fn decode_all(edges: Seq<(EncoderLine, bool)>) -> Seq<EncoderEvent> {
    edges.map(|i: int, e: (EncoderLine, bool)| spec_decode(e.0, e.1))
}

/// Any sequence of rising edges decodes pointwise by the decision
/// table: A with partner high is a full decrease, B with partner high a
/// full increase, and an edge whose partner is low is a zero-magnitude
/// no-op in the direction the winning line stands for.
pub proof fn lemma_decode_sequence(edges: Seq<(EncoderLine, bool)>)
    ensures
        decode_all(edges).len() == edges.len(),
        forall|i: int|
            0 <= i < edges.len() ==> decode_all(edges)[i] == spec_decode(edges[i].0, edges[i].1),
        spec_decode(EncoderLine::A, true) == (EncoderEvent {
            magnitude: 0xff,
            direction: Direction::Decrease,
        }),
        spec_decode(EncoderLine::A, false) == (EncoderEvent {
            magnitude: 0,
            direction: Direction::Increase,
        }),
        spec_decode(EncoderLine::B, true) == (EncoderEvent {
            magnitude: 0xff,
            direction: Direction::Increase,
        }),
        spec_decode(EncoderLine::B, false) == (EncoderEvent {
            magnitude: 0,
            direction: Direction::Decrease,
        }),
{
}

/// A button cycle toggles the mode exactly once and touches nothing
/// else; an encoder edge never touches the mode.
pub proof fn lemma_step_mode(s: DecoderState, ev: InputEvent)
    ensures
        ev is ButtonCycle ==> spec_step(s, ev).control_volume == !s.control_volume && spec_step(
            s,
            ev,
        ).params == s.params,
        ev is EncoderEdge ==> spec_step(s, ev).control_volume == s.control_volume,
{
}

/// Over any event sequence the mode ends flipped exactly when the
/// number of complete button cycles in it is odd, whatever the encoder
/// does in between.
pub proof fn lemma_mode_parity(s: DecoderState, evs: Seq<InputEvent>)
    ensures
        spec_run(s, evs).control_volume == (s.control_volume != (button_cycles(evs) % 2 == 1)),
    decreases evs.len(),
{
    if evs.len() > 0 {
        lemma_mode_parity(spec_step(s, evs[0]), evs.drop_first());
    }
}

/// An increase of magnitude `m` followed by a decrease of magnitude `m`
/// returns the selected parameter to its original value, unless the
/// increase saturated at 0xFFFF; then the pair lands at `0xFFFF - m`
/// (still no wrap), and the intermediate value is the bound itself.
/// The unselected parameter is never touched.
pub proof fn lemma_round_trip_up(p: PwmParameters, control_volume: bool, m: u8)
    ensures
        ({
            let up = EncoderEvent { magnitude: m, direction: Direction::Increase };
            let down = EncoderEvent { magnitude: m, direction: Direction::Decrease };
            let q = spec_apply(spec_apply(p, control_volume, up), control_volume, down);
            let x = if control_volume {
                p.compare
            } else {
                p.top
            };
            let y = if control_volume {
                q.compare
            } else {
                q.top
            };
            &&& (x + m <= 0xffff ==> y == x)
            &&& (x + m > 0xffff ==> sat_add(x, m as u16) == 0xffff && y == 0xffff - m)
            &&& (if control_volume {
                q.top == p.top
            } else {
                q.compare == p.compare
            })
        }),
{
}

/// A decrease of magnitude `m` followed by an increase of magnitude `m`
/// returns the selected parameter to its original value, unless the
/// decrease saturated at 0; then the pair lands at `m` (still no wrap),
/// and the intermediate value is the bound itself.
pub proof fn lemma_round_trip_down(p: PwmParameters, control_volume: bool, m: u8)
    ensures
        ({
            let up = EncoderEvent { magnitude: m, direction: Direction::Increase };
            let down = EncoderEvent { magnitude: m, direction: Direction::Decrease };
            let q = spec_apply(spec_apply(p, control_volume, down), control_volume, up);
            let x = if control_volume {
                p.compare
            } else {
                p.top
            };
            let y = if control_volume {
                q.compare
            } else {
                q.top
            };
            &&& (x >= m ==> y == x)
            &&& (x < m ==> sat_sub(x, m as u16) == 0 && y == m)
            &&& (if control_volume {
                q.top == p.top
            } else {
                q.compare == p.compare
            })
        }),
{
}

impl DecoderState {
    /// The state the decoder starts in: volume-adjust mode, full period,
    /// a low duty threshold.
    pub fn initial() -> (s: DecoderState)
        ensures
            s.control_volume,
            s.params.top == 0xffff,
            s.params.compare == 0x00ef,
    {
        DecoderState { control_volume: true, params: PwmParameters { top: 0xffff, compare: 0x00ef } }
    }
}

/// Decodes one rising edge exactly as the decision table says.
pub fn decode_edge(winner: EncoderLine, partner_high: bool) -> (e: EncoderEvent)
    ensures
        e == spec_decode(winner, partner_high),
{
    match winner {
        EncoderLine::A => if partner_high {
            EncoderEvent { magnitude: 0xff, direction: Direction::Decrease }
        } else {
            EncoderEvent { magnitude: 0, direction: Direction::Increase }
        },
        EncoderLine::B => if partner_high {
            EncoderEvent { magnitude: 0xff, direction: Direction::Increase }
        } else {
            EncoderEvent { magnitude: 0, direction: Direction::Decrease }
        },
    }
}

/// Addition clipped at 0xFFFF, never wrapping.
pub fn saturating_add_u16(x: u16, d: u16) -> (r: u16)
    ensures
        r == sat_add(x, d),
{
    if x <= 0xffff - d {
        x + d
    } else {
        0xffff
    }
}

/// Subtraction clipped at 0, never wrapping.
pub fn saturating_sub_u16(x: u16, d: u16) -> (r: u16)
    ensures
        r == sat_sub(x, d),
{
    if x < d {
        0
    } else {
        x - d
    }
}

/// Applies one encoder event to the parameters under the given mode.
pub fn apply_event(params: &mut PwmParameters, control_volume: bool, e: EncoderEvent)
    ensures
        *final(params) == spec_apply(*old(params), control_volume, e),
{
    let m = e.magnitude as u16;
    if control_volume {
        match e.direction {
            Direction::Increase => {
                params.compare = saturating_add_u16(params.compare, m);
            },
            Direction::Decrease => {
                params.compare = saturating_sub_u16(params.compare, m);
            },
        }
    } else {
        match e.direction {
            Direction::Increase => {
                params.top = saturating_add_u16(params.top, m);
            },
            Direction::Decrease => {
                params.top = saturating_sub_u16(params.top, m);
            },
        }
    }
}

/// Advances the decoder by one event and returns the parameters to
/// commit to the PWM output, which is done after every event.
pub fn decoder_step(s: &mut DecoderState, ev: InputEvent) -> (commit: PwmParameters)
    ensures
        *final(s) == spec_step(*old(s), ev),
        commit == final(s).params,
{
    match ev {
        InputEvent::ButtonCycle => {
            s.control_volume = !s.control_volume;
        },
        InputEvent::EncoderEdge { winner, partner_high } => {
            let e = decode_edge(winner, partner_high);
            apply_event(&mut s.params, s.control_volume, e);
        },
    }
    s.params
}

} // verus!
