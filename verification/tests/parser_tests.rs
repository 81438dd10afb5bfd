use termcore::parser::{
    Action, Charset, CharsetSlot, Parser, ParserState, StringKind,
};

fn feed_str(p: &mut Parser, s: &str) -> Vec<Action> {
    p.feed_all(s.as_bytes())
}

#[test]
fn ground_printable_prints() {
    let mut p = Parser::new();
    for b in 0x20u8..0x7f {
        let acts = p.feed_all(&[b]);
        assert_eq!(acts, vec![Action::Print(b as char)]);
        assert!(matches!(p.state, ParserState::Ground));
    }
}

#[test]
fn ground_control_executes() {
    let mut p = Parser::new();
    let acts = p.feed_all(&[0x07, 0x08, 0x09, 0x0a, 0x0d]);
    assert_eq!(
        acts,
        vec![
            Action::Execute(0x07),
            Action::Execute(0x08),
            Action::Execute(0x09),
            Action::Execute(0x0a),
            Action::Execute(0x0d),
        ]
    );
    assert!(matches!(p.state, ParserState::Ground));
}

#[test]
fn csi_two_params() {
    let mut p = Parser::new();
    let acts = feed_str(&mut p, "\x1b[3;1H");
    assert_eq!(
        acts,
        vec![Action::CsiDispatch { params: vec![3, 1], private: false, final_byte: b'H' }]
    );
    assert!(matches!(p.state, ParserState::Ground));
}

#[test]
fn csi_one_unit_at_a_time() {
    let mut p = Parser::new();
    let mut acts = Vec::new();
    for b in "\x1b[3;1H".bytes() {
        if let Some(a) = p.feed(b) {
            acts.push(a);
        }
    }
    assert_eq!(
        acts,
        vec![Action::CsiDispatch { params: vec![3, 1], private: false, final_byte: b'H' }]
    );
    assert!(matches!(p.state, ParserState::Ground));
}

#[test]
fn csi_private_mode() {
    let mut p = Parser::new();
    let acts = feed_str(&mut p, "\x1b[?25h");
    assert_eq!(
        acts,
        vec![Action::CsiDispatch { params: vec![25], private: true, final_byte: b'h' }]
    );
}

#[test]
fn csi_param_saturates() {
    let mut p = Parser::new();
    let acts = feed_str(&mut p, "\x1b[99999m");
    assert_eq!(
        acts,
        vec![Action::CsiDispatch { params: vec![65535], private: false, final_byte: b'm' }]
    );
}

#[test]
fn csi_empty_param_defaults_to_zero() {
    let mut p = Parser::new();
    let acts = feed_str(&mut p, "\x1b[;5m");
    assert_eq!(
        acts,
        vec![Action::CsiDispatch { params: vec![0, 5], private: false, final_byte: b'm' }]
    );
}

#[test]
fn osc_bel_terminated() {
    let mut p = Parser::new();
    let acts = feed_str(&mut p, "\x1b]0;title-text\x07");
    assert_eq!(
        acts,
        vec![Action::StringDispatch { kind: StringKind::Osc, bytes: b"0;title-text".to_vec() }]
    );
    assert!(matches!(p.state, ParserState::Ground));
}

#[test]
fn osc_st_terminated_matches_bel() {
    let mut bel = Parser::new();
    let via_bel = feed_str(&mut bel, "\x1b]0;title-text\x07");
    let mut st = Parser::new();
    let via_st = feed_str(&mut st, "\x1b]0;title-text\x1b\\");
    assert_eq!(via_bel, via_st);
    assert!(matches!(st.state, ParserState::Ground));
}

#[test]
fn dcs_needs_string_terminator() {
    let mut p = Parser::new();
    // BEL does not terminate a DCS payload; it is buffered.
    let acts = feed_str(&mut p, "\x1bPdata\x07more\x1b\\");
    assert_eq!(
        acts,
        vec![Action::StringDispatch { kind: StringKind::Dcs, bytes: b"data\x07more".to_vec() }]
    );
}

#[test]
fn stray_esc_in_string_is_buffered() {
    let mut p = Parser::new();
    let acts = feed_str(&mut p, "\x1b]a\x1bb\x07");
    assert_eq!(
        acts,
        vec![Action::StringDispatch { kind: StringKind::Osc, bytes: b"a\x1bb".to_vec() }]
    );
}

#[test]
fn esc_dispatch() {
    let mut p = Parser::new();
    let acts = feed_str(&mut p, "\x1bM");
    assert_eq!(acts, vec![Action::EscDispatch(b'M')]);
    assert!(matches!(p.state, ParserState::Ground));
}

#[test]
fn designate_charsets() {
    let mut p = Parser::new();
    let acts = feed_str(&mut p, "\x1b(0\x1b)B");
    assert_eq!(
        acts,
        vec![
            Action::DesignateCharset { slot: CharsetSlot::G0, charset: Charset::DecSpecial },
            Action::DesignateCharset { slot: CharsetSlot::G1, charset: Charset::Ascii },
        ]
    );
    assert!(matches!(p.state, ParserState::Ground));
}

#[test]
fn unknown_charset_designator_is_ignored() {
    let mut p = Parser::new();
    let acts = feed_str(&mut p, "\x1b(Z");
    assert_eq!(acts, Vec::new());
    assert!(matches!(p.state, ParserState::Ground));
}

#[test]
fn replay_from_fresh_parser_matches() {
    let seqs = ["\x1b[3;1H", "\x1b]2;abc\x07", "\x1bPxy\x1b\\", "hello\x1b[?7l"];
    for s in seqs {
        let mut first = Parser::new();
        let a1 = feed_str(&mut first, s);
        let mut second = Parser::new();
        let a2 = feed_str(&mut second, s);
        assert_eq!(a1, a2);
    }
}

#[test]
fn split_feeding_matches_whole() {
    let s = b"ab\x1b[12;34H\x1b]0;t\x07\x1b(B\x07";
    let mut whole = Parser::new();
    let expected = whole.feed_all(s);
    for k in 0..=s.len() {
        let mut p = Parser::new();
        let mut acts = p.feed_all(&s[..k]);
        acts.extend(p.feed_all(&s[k..]));
        assert_eq!(acts, expected);
    }
}

#[test]
fn csi_intermediate_bytes_ignored() {
    let mut p = Parser::new();
    let acts = feed_str(&mut p, "\x1b[1 q");
    assert_eq!(
        acts,
        vec![Action::CsiDispatch { params: vec![1], private: false, final_byte: b'q' }]
    );
}

#[test]
fn map_dec_special_graphics() {
    assert_eq!(termcore::parser::map_dec_special('j'), '┘');
    assert_eq!(termcore::parser::map_dec_special('q'), '─');
    assert_eq!(termcore::parser::map_dec_special('x'), '│');
    assert_eq!(termcore::parser::map_dec_special('~'), '·');
    assert_eq!(termcore::parser::map_dec_special('a'), 'a');
    assert_eq!(termcore::parser::map_dec_special('A'), 'A');
}

#[test]
fn csi_param_lookup() {
    let mut p = Parser::new();
    p.feed_all(b"\x1b[3;0");
    match &p.state {
        ParserState::Csi(c) => {
            // Only the first parameter is complete; the second is still in
            // progress.
            assert_eq!(c.param(0, 7), 3);
            assert_eq!(c.param(1, 7), 7);
        }
        _ => panic!("expected CSI state"),
    }
    let acts = p.feed_all(b"m");
    match &acts[0] {
        Action::CsiDispatch { params, .. } => assert_eq!(params, &vec![3, 0]),
        _ => panic!("expected CSI dispatch"),
    }
}
