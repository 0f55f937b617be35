use alarmctl::decoder::{
    decode_edge, decoder_step, saturating_add_u16, saturating_sub_u16, DecoderState, Direction,
    EncoderEvent, EncoderLine, InputEvent, PwmParameters,
};

#[test]
fn decode_table_a_rises_b_high() {
    assert_eq!(
        decode_edge(EncoderLine::A, true),
        EncoderEvent { magnitude: 0xff, direction: Direction::Decrease }
    );
}

#[test]
fn decode_table_a_rises_b_low() {
    assert_eq!(
        decode_edge(EncoderLine::A, false),
        EncoderEvent { magnitude: 0, direction: Direction::Increase }
    );
}

#[test]
fn decode_table_b_rises_a_high() {
    assert_eq!(
        decode_edge(EncoderLine::B, true),
        EncoderEvent { magnitude: 0xff, direction: Direction::Increase }
    );
}

#[test]
fn decode_table_b_rises_a_low() {
    assert_eq!(
        decode_edge(EncoderLine::B, false),
        EncoderEvent { magnitude: 0, direction: Direction::Decrease }
    );
}

#[test]
fn initial_state() {
    let s = DecoderState::initial();
    assert!(s.control_volume);
    assert_eq!(s.params, PwmParameters { top: 0xffff, compare: 0x00ef });
}

#[test]
fn edge_sequence_matches_table() {
    let mut s = DecoderState::initial();
    // A clean right step raises the volume by a full step.
    let c = decoder_step(
        &mut s,
        InputEvent::EncoderEdge { winner: EncoderLine::B, partner_high: true },
    );
    assert_eq!(c, PwmParameters { top: 0xffff, compare: 0x01ee });
    // A clean left step takes it back.
    decoder_step(
        &mut s,
        InputEvent::EncoderEdge { winner: EncoderLine::A, partner_high: true },
    );
    assert_eq!(s.params, PwmParameters { top: 0xffff, compare: 0x00ef });
    // Edges whose partner line is low are zero-magnitude no-ops.
    decoder_step(
        &mut s,
        InputEvent::EncoderEdge { winner: EncoderLine::A, partner_high: false },
    );
    decoder_step(
        &mut s,
        InputEvent::EncoderEdge { winner: EncoderLine::B, partner_high: false },
    );
    assert_eq!(s.params, PwmParameters { top: 0xffff, compare: 0x00ef });
    assert!(s.control_volume);
}

#[test]
fn button_cycle_toggles_mode_once() {
    let mut s = DecoderState::initial();
    let before = s.params;
    decoder_step(&mut s, InputEvent::ButtonCycle);
    assert!(!s.control_volume);
    assert_eq!(s.params, before);
    decoder_step(&mut s, InputEvent::ButtonCycle);
    assert!(s.control_volume);
    assert_eq!(s.params, before);
}

#[test]
fn mode_selects_parameter() {
    let mut s = DecoderState::initial();
    decoder_step(&mut s, InputEvent::ButtonCycle);
    // In range mode the encoder adjusts `top`, not `compare`.
    decoder_step(
        &mut s,
        InputEvent::EncoderEdge { winner: EncoderLine::A, partner_high: true },
    );
    assert_eq!(s.params, PwmParameters { top: 0xff00, compare: 0x00ef });
}

#[test]
fn round_trip_without_saturation() {
    let mut p = PwmParameters { top: 0xffff, compare: 0x00ef };
    let up = EncoderEvent { magnitude: 0xff, direction: Direction::Increase };
    let down = EncoderEvent { magnitude: 0xff, direction: Direction::Decrease };
    alarmctl::decoder::apply_event(&mut p, true, up);
    assert_eq!(p.compare, 0x01ee);
    alarmctl::decoder::apply_event(&mut p, true, down);
    assert_eq!(p, PwmParameters { top: 0xffff, compare: 0x00ef });
}

#[test]
fn saturates_at_upper_bound_never_wraps() {
    assert_eq!(saturating_add_u16(0xff80, 0xff), 0xffff);
    assert_eq!(saturating_add_u16(0xffff, 0xff), 0xffff);
    assert_eq!(saturating_add_u16(0xff00, 0xff), 0xffff);
    let mut p = PwmParameters { top: 0xffff, compare: 0xff80 };
    let up = EncoderEvent { magnitude: 0xff, direction: Direction::Increase };
    let down = EncoderEvent { magnitude: 0xff, direction: Direction::Decrease };
    alarmctl::decoder::apply_event(&mut p, true, up);
    assert_eq!(p.compare, 0xffff);
    alarmctl::decoder::apply_event(&mut p, true, down);
    assert_eq!(p.compare, 0xff00);
}

#[test]
fn saturates_at_lower_bound_never_wraps() {
    assert_eq!(saturating_sub_u16(0x0010, 0xff), 0);
    assert_eq!(saturating_sub_u16(0, 0xff), 0);
    let mut p = PwmParameters { top: 0x0010, compare: 0x00ef };
    let up = EncoderEvent { magnitude: 0xff, direction: Direction::Increase };
    let down = EncoderEvent { magnitude: 0xff, direction: Direction::Decrease };
    alarmctl::decoder::apply_event(&mut p, false, down);
    assert_eq!(p.top, 0);
    alarmctl::decoder::apply_event(&mut p, false, up);
    assert_eq!(p.top, 0x00ff);
    assert_eq!(p.compare, 0x00ef);
}
