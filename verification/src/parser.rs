//! Escape-sequence parser: a finite-state machine that consumes one input
//! byte at a time and emits discrete terminal actions (print, execute a
//! control byte, dispatch an escape, CSI or string-type command, designate
//! a charset). It never wedges: every input byte has a defined transition,
//! and malformed input always resolves to a recovery transition.

use vstd::prelude::*;

verus! {

/// The two charset slots a terminal can designate independently.
#[derive(Clone, Copy, PartialEq, Eq, Structural, Debug)]
pub enum CharsetSlot {
    G0,
    G1,
}

/// The charsets a slot can be designated with.
#[derive(Clone, Copy, PartialEq, Eq, Structural, Debug)]
pub enum Charset {
    Ascii,
    DecSpecial,
}

/// The string-type command families, each with its own terminator rule.
#[derive(Clone, Copy, PartialEq, Eq, Structural, Debug)]
pub enum StringKind {
    Osc,
    Dcs,
    Sos,
    Pm,
    Apc,
}

/// Transient accumulator for a CSI command, alive only while the parser is
/// in the `Csi` state.
#[derive(PartialEq, Eq, Debug)]
pub struct CsiParser {
    /// Completed numeric parameters, in left-to-right argument order.
    pub params: Vec<u16>,
    /// The in-progress parameter, absent if none started since the last
    /// separator.
    pub current: Option<u16>,
    /// Whether a private-mode marker `?` opened the sequence.
    pub private: bool,
}

/// Transient accumulator for a string-type command, alive only while the
/// parser is in the `Str` state.
#[derive(PartialEq, Eq, Debug)]
pub struct StringParser {
    /// Which string-type command is being collected.
    pub kind: StringKind,
    /// The raw payload bytes accumulated so far.
    pub buf: Vec<u8>,
    /// Whether the most recently consumed byte was ESC, used to recognize
    /// the two-byte string terminator.
    pub esc: bool,
}

/// The parser's current mode; exactly one is live at a time.
#[derive(PartialEq, Eq, Debug)]
pub enum ParserState {
    /// Default mode: printable input is printed, control bytes executed.
    Ground,
    /// An ESC byte was just seen; the next byte selects the next mode.
    Escape,
    /// Mid-sequence designating a charset for the named slot.
    EscCharset(CharsetSlot),
    /// Accumulating a control sequence.
    Csi(CsiParser),
    /// Accumulating a string-type command payload.
    Str(StringParser),
}

/// One terminal action handed to the consuming screen component.
#[derive(PartialEq, Eq, Debug)]
pub enum Action {
    /// Render one glyph.
    Print(char),
    /// Perform the side effect of a single control byte.
    Execute(u8),
    /// Perform a two-character escape command named by its final byte.
    EscDispatch(u8),
    /// Perform a CSI command.
    CsiDispatch { params: Vec<u16>, private: bool, final_byte: u8 },
    /// Hand off a complete string-type payload.
    StringDispatch { kind: StringKind, bytes: Vec<u8> },
    /// Record that a slot now maps to the named charset.
    DesignateCharset { slot: CharsetSlot, charset: Charset },
}

/// Mathematical model of a CSI accumulator.
#[verifier::ext_equal]
pub struct CsiV {
    pub params: Seq<u16>,
    pub current: Option<u16>,
    pub private: bool,
}

/// Mathematical model of a string-command accumulator.
#[verifier::ext_equal]
pub struct StrV {
    pub kind: StringKind,
    pub bytes: Seq<u8>,
    pub esc: bool,
}

/// Mathematical model of the parser's state.
#[verifier::ext_equal]
pub enum StateV {
    Ground,
    Escape,
    EscCharset(CharsetSlot),
    Csi(CsiV),
    Str(StrV),
}

/// Mathematical model of one terminal action.
#[verifier::ext_equal]
pub enum ActionV {
    Print(char),
    Execute(u8),
    EscDispatch(u8),
    CsiDispatch { params: Seq<u16>, private: bool, final_byte: u8 },
    StringDispatch { kind: StringKind, bytes: Seq<u8> },
    DesignateCharset { slot: CharsetSlot, charset: Charset },
}

impl View for CsiParser {
    type V = CsiV;

    open spec fn view(&self) -> CsiV {
        CsiV { params: self.params@, current: self.current, private: self.private }
    }
}

impl View for StringParser {
    type V = StrV;

    open spec fn view(&self) -> StrV {
        StrV { kind: self.kind, bytes: self.buf@, esc: self.esc }
    }
}

impl View for ParserState {
    type V = StateV;

    open spec fn view(&self) -> StateV {
        match self {
            ParserState::Ground => StateV::Ground,
            ParserState::Escape => StateV::Escape,
            ParserState::EscCharset(slot) => StateV::EscCharset(*slot),
            ParserState::Csi(c) => StateV::Csi(c@),
            ParserState::Str(sp) => StateV::Str(sp@),
        }
    }
}

impl View for Action {
    type V = ActionV;

    open spec fn view(&self) -> ActionV {
        match self {
            Action::Print(ch) => ActionV::Print(*ch),
            Action::Execute(b) => ActionV::Execute(*b),
            Action::EscDispatch(b) => ActionV::EscDispatch(*b),
            Action::CsiDispatch { params, private, final_byte } => ActionV::CsiDispatch {
                params: params@,
                private: *private,
                final_byte: *final_byte,
            },
            Action::StringDispatch { kind, bytes } => ActionV::StringDispatch {
                kind: *kind,
                bytes: bytes@,
            },
            Action::DesignateCharset { slot, charset } => ActionV::DesignateCharset {
                slot: *slot,
                charset: *charset,
            },
        }
    }
}

/// Whether a byte is a control byte executed immediately in `Ground`.
pub open spec fn is_control(b: u8) -> bool {
    b < 0x20 && b != 0x1b
}

/// Whether a byte is printable in `Ground`: anything that is neither a
/// control byte nor ESC.
pub open spec fn is_printable(b: u8) -> bool {
    b >= 0x20
}

/// The in-progress parameter, or zero if none was started.
pub open spec fn cur_or_zero(c: Option<u16>) -> u16 {
    match c {
        Some(v) => v,
        None => 0,
    }
}

/// One decimal-digit step of parameter accumulation, saturating at the
/// 16-bit maximum.
pub open spec fn sat_accum(cur: u16, b: u8) -> u16 {
    let v = cur * 10 + (b - 0x30);
    if v > 0xffff {
        0xffff
    } else {
        v as u16
    }
}

/// The empty CSI accumulator created on entering `Csi`.
pub open spec fn empty_csi() -> CsiV {
    CsiV { params: Seq::empty(), current: None, private: false }
}

/// The empty string accumulator created on entering `Str`.
pub open spec fn empty_str(kind: StringKind) -> StrV {
    StrV { kind, bytes: Seq::empty(), esc: false }
}

/// The state the parser moves to on consuming byte `b` in state `s`: the
/// full transition table of the machine.
pub open spec fn next_state(s: StateV, b: u8) -> StateV {
    match s {
        StateV::Ground => if b == 0x1b {
            StateV::Escape
        } else {
            StateV::Ground
        },
        StateV::Escape => if b == 0x5b {
            StateV::Csi(empty_csi())
        } else if b == 0x5d {
            StateV::Str(empty_str(StringKind::Osc))
        } else if b == 0x50 {
            StateV::Str(empty_str(StringKind::Dcs))
        } else if b == 0x58 {
            StateV::Str(empty_str(StringKind::Sos))
        } else if b == 0x5e {
            StateV::Str(empty_str(StringKind::Pm))
        } else if b == 0x5f {
            StateV::Str(empty_str(StringKind::Apc))
        } else if b == 0x28 {
            StateV::EscCharset(CharsetSlot::G0)
        } else if b == 0x29 {
            StateV::EscCharset(CharsetSlot::G1)
        } else {
            StateV::Ground
        },
        StateV::EscCharset(_) => StateV::Ground,
        StateV::Csi(c) => if 0x30 <= b && b <= 0x39 {
            StateV::Csi(
                CsiV {
                    params: c.params,
                    current: Some(sat_accum(cur_or_zero(c.current), b)),
                    private: c.private,
                },
            )
        } else if b == 0x3b {
            StateV::Csi(
                CsiV { params: c.params.push(cur_or_zero(c.current)), current: None, private: c.private },
            )
        } else if b == 0x3f {
            if c.params.len() == 0 && c.current is None {
                StateV::Csi(CsiV { params: c.params, current: c.current, private: true })
            } else {
                StateV::Csi(c)
            }
        } else if 0x40 <= b && b <= 0x7e {
            StateV::Ground
        } else {
            StateV::Csi(c)
        },
        StateV::Str(sp) => if b == 0x1b {
            StateV::Str(StrV { kind: sp.kind, bytes: sp.bytes, esc: true })
        } else if sp.esc && b == 0x5c {
            StateV::Ground
        } else if b == 0x07 && sp.kind == StringKind::Osc {
            StateV::Ground
        } else if sp.esc {
            StateV::Str(StrV { kind: sp.kind, bytes: sp.bytes.push(0x1b).push(b), esc: false })
        } else {
            StateV::Str(StrV { kind: sp.kind, bytes: sp.bytes.push(b), esc: false })
        },
    }
}

/// The action the parser emits on consuming byte `b` in state `s`: every
/// transition emits zero or one action.
pub open spec fn emitted(s: StateV, b: u8) -> Option<ActionV> {
    match s {
        StateV::Ground => if b == 0x1b {
            None
        } else if is_control(b) {
            Some(ActionV::Execute(b))
        } else {
            Some(ActionV::Print(b as char))
        },
        StateV::Escape => if b == 0x5b || b == 0x5d || b == 0x50 || b == 0x58 || b == 0x5e || b
            == 0x5f || b == 0x28 || b == 0x29 {
            None
        } else {
            Some(ActionV::EscDispatch(b))
        },
        StateV::EscCharset(slot) => if b == 0x42 {
            Some(ActionV::DesignateCharset { slot, charset: Charset::Ascii })
        } else if b == 0x30 {
            Some(ActionV::DesignateCharset { slot, charset: Charset::DecSpecial })
        } else {
            None
        },
        StateV::Csi(c) => if 0x40 <= b && b <= 0x7e {
            Some(
                ActionV::CsiDispatch {
                    params: c.params.push(cur_or_zero(c.current)),
                    private: c.private,
                    final_byte: b,
                },
            )
        } else {
            None
        },
        StateV::Str(sp) => if b == 0x1b {
            None
        } else if sp.esc && b == 0x5c {
            Some(ActionV::StringDispatch { kind: sp.kind, bytes: sp.bytes })
        } else if b == 0x07 && sp.kind == StringKind::Osc {
            Some(ActionV::StringDispatch { kind: sp.kind, bytes: sp.bytes })
        } else {
            None
        },
    }
}

/// The view of an optional emitted action.
pub open spec fn opt_action_view(r: Option<Action>) -> Option<ActionV> {
    match r {
        Some(a) => Some(a@),
        None => None,
    }
}

impl CsiParser {
    /// A fresh accumulator: no parameters, no in-progress value, public.
    pub fn new() -> (c: CsiParser)
        ensures
            c@ == empty_csi(),
    {
        CsiParser { params: Vec::new(), current: None, private: false }
    }

    /// Close the in-progress parameter: push it (or zero if none was
    /// started) onto the parameter list.
    pub fn push_current(&mut self)
        ensures
            final(self).params@ == old(self).params@.push(cur_or_zero(old(self).current)),
            final(self).current is None,
            final(self).private == old(self).private,
    {
        let value: u16 = match self.current {
            Some(v) => v,
            None => 0,
        };
        self.current = None;
        self.params.push(value);
    }

    /// The parameter at `idx`, or `default` if fewer parameters were given;
    /// a present-but-zero parameter is returned as zero, never replaced.
    pub fn param(&self, idx: usize, default: u16) -> (r: u16)
        ensures
            r == if idx < self.params@.len() {
                self.params@[idx as int]
            } else {
                default
            },
    {
        if idx < self.params.len() {
            self.params[idx]
        } else {
            default
        }
    }
}

impl StringParser {
    /// A fresh accumulator for the given string-command kind.
    pub fn new(kind: StringKind) -> (sp: StringParser)
        ensures
            sp@ == empty_str(kind),
    {
        StringParser { kind, buf: Vec::new(), esc: false }
    }
}

/// The escape parser: feed it one byte at a time; it hands back zero or
/// one action per byte and never gets stuck.
pub struct Parser {
    pub state: ParserState,
}

impl View for Parser {
    type V = StateV;

    open spec fn view(&self) -> StateV {
        self.state@
    }
}

impl Parser {
    /// A fresh parser in the `Ground` state.
    pub fn new() -> (p: Parser)
        ensures
            p@ == StateV::Ground,
    {
        Parser { state: ParserState::Ground }
    }

    /// Whether the parser is in the `Ground` state.
    pub fn is_ground(&self) -> (r: bool)
        ensures
            r == (self@ == StateV::Ground),
    {
        match self.state {
            ParserState::Ground => true,
            _ => false,
        }
    }

    /// Consume one input byte: move to the successor state of the
    /// transition table and emit its action, if it has one.
    pub fn feed(&mut self, b: u8) -> (r: Option<Action>)
        ensures
            final(self)@ == next_state(old(self)@, b),
            opt_action_view(r) == emitted(old(self)@, b),
    {
        let mut st = ParserState::Ground;
        core::mem::swap(&mut st, &mut self.state);
        match st {
            ParserState::Ground => {
                if b == 0x1b {
                    self.state = ParserState::Escape;
                    None
                } else if b < 0x20 {
                    Some(Action::Execute(b))
                } else {
                    Some(Action::Print(b as char))
                }
            },
            ParserState::Escape => {
                if b == 0x5b {
                    self.state = ParserState::Csi(CsiParser::new());
                    None
                } else if b == 0x5d {
                    self.state = ParserState::Str(StringParser::new(StringKind::Osc));
                    None
                } else if b == 0x50 {
                    self.state = ParserState::Str(StringParser::new(StringKind::Dcs));
                    None
                } else if b == 0x58 {
                    self.state = ParserState::Str(StringParser::new(StringKind::Sos));
                    None
                } else if b == 0x5e {
                    self.state = ParserState::Str(StringParser::new(StringKind::Pm));
                    None
                } else if b == 0x5f {
                    self.state = ParserState::Str(StringParser::new(StringKind::Apc));
                    None
                } else if b == 0x28 {
                    self.state = ParserState::EscCharset(CharsetSlot::G0);
                    None
                } else if b == 0x29 {
                    self.state = ParserState::EscCharset(CharsetSlot::G1);
                    None
                } else {
                    Some(Action::EscDispatch(b))
                }
            },
            ParserState::EscCharset(slot) => {
                if b == 0x42 {
                    Some(Action::DesignateCharset { slot, charset: Charset::Ascii })
                } else if b == 0x30 {
                    Some(Action::DesignateCharset { slot, charset: Charset::DecSpecial })
                } else {
                    None
                }
            },
            ParserState::Csi(mut c) => {
                if 0x30 <= b && b <= 0x39 {
                    let cur: u16 = match c.current {
                        Some(v) => v,
                        None => 0,
                    };
                    let wide: u32 = cur as u32 * 10 + (b - 0x30) as u32;
                    let nv: u16 = if wide > 0xffff {
                        0xffff
                    } else {
                        wide as u16
                    };
                    c.current = Some(nv);
                    self.state = ParserState::Csi(c);
                    None
                } else if b == 0x3b {
                    c.push_current();
                    self.state = ParserState::Csi(c);
                    None
                } else if b == 0x3f {
                    if c.params.len() == 0 && c.current.is_none() {
                        c.private = true;
                    }
                    self.state = ParserState::Csi(c);
                    None
                } else if 0x40 <= b && b <= 0x7e {
                    c.push_current();
                    Some(
                        Action::CsiDispatch {
                            params: c.params,
                            private: c.private,
                            final_byte: b,
                        },
                    )
                } else {
                    self.state = ParserState::Csi(c);
                    None
                }
            },
            ParserState::Str(mut sp) => {
                if b == 0x1b {
                    sp.esc = true;
                    self.state = ParserState::Str(sp);
                    None
                } else if sp.esc && b == 0x5c {
                    Some(Action::StringDispatch { kind: sp.kind, bytes: sp.buf })
                } else if b == 0x07 && sp.kind == StringKind::Osc {
                    Some(Action::StringDispatch { kind: sp.kind, bytes: sp.buf })
                } else {
                    if sp.esc {
                        sp.buf.push(0x1b);
                        sp.esc = false;
                    }
                    sp.buf.push(b);
                    self.state = ParserState::Str(sp);
                    None
                }
            },
        }
    }
}

/// The zero-or-one emitted action as a sequence.
pub open spec fn opt_to_seq(a: Option<ActionV>) -> Seq<ActionV> {
    match a {
        Some(x) => seq![x],
        None => Seq::empty(),
    }
}

/// Running the machine over a whole input: the final state and the actions
/// emitted, in order.
pub open spec fn run(s: StateV, input: Seq<u8>) -> (StateV, Seq<ActionV>)
    decreases input.len(),
{
    if input.len() == 0 {
        (s, Seq::empty())
    } else {
        let rest = run(next_state(s, input[0]), input.subrange(1, input.len() as int));
        (rest.0, opt_to_seq(emitted(s, input[0])) + rest.1)
    }
}

/// The views of the actions in a vector, in order.
pub open spec fn acts_view(acts: Vec<Action>) -> Seq<ActionV> {
    acts@.map_values(|a: Action| a@)
}

impl Parser {
    /// Feed a whole byte slice in order, collecting the emitted actions.
    pub fn feed_all(&mut self, bytes: &[u8]) -> (acts: Vec<Action>)
        ensures
            final(self)@ == run(old(self)@, bytes@).0,
            acts_view(acts) == run(old(self)@, bytes@).1,
    {
        let mut acts: Vec<Action> = Vec::new();
        let mut i: usize = 0;
        assert(bytes@.subrange(0, bytes@.len() as int) =~= bytes@);
        assert(acts_view(acts) + run(self@, bytes@).1 =~= run(self@, bytes@).1);
        while i < bytes.len()
            invariant
                i <= bytes@.len(),
                run(old(self)@, bytes@).0 == run(
                    self@,
                    bytes@.subrange(i as int, bytes@.len() as int),
                ).0,
                run(old(self)@, bytes@).1 == acts_view(acts) + run(
                    self@,
                    bytes@.subrange(i as int, bytes@.len() as int),
                ).1,
            decreases bytes@.len() - i,
        {
            let ghost pre = self@;
            let ghost suffix = bytes@.subrange(i as int, bytes@.len() as int);
            let r = self.feed(bytes[i]);
            proof {
                assert(suffix[0] == bytes@[i as int]);
                assert(suffix.subrange(1, suffix.len() as int) =~= bytes@.subrange(
                    i + 1,
                    bytes@.len() as int,
                ));
            }
            match r {
                Some(a) => {
                    let ghost before = acts@;
                    acts.push(a);
                    proof {
                        assert(acts_view(acts) =~= before.map_values(|x: Action| x@) + seq![a@]);
                        assert(acts_view(acts) + run(
                            self@,
                            bytes@.subrange(i + 1, bytes@.len() as int),
                        ).1 =~= before.map_values(|x: Action| x@) + (opt_to_seq(
                            emitted(pre, bytes@[i as int]),
                        ) + run(self@, bytes@.subrange(i + 1, bytes@.len() as int)).1));
                    }
                },
                None => {
                    proof {
                        assert(opt_to_seq(emitted(pre, bytes@[i as int])) =~= Seq::<
                            ActionV,
                        >::empty());
                        assert(acts_view(acts) + run(
                            self@,
                            bytes@.subrange(i + 1, bytes@.len() as int),
                        ).1 =~= acts_view(acts) + (opt_to_seq(emitted(pre, bytes@[i as int]))
                            + run(self@, bytes@.subrange(i + 1, bytes@.len() as int)).1));
                    }
                },
            }
            i = i + 1;
        }
        proof {
            assert(bytes@.subrange(i as int, bytes@.len() as int) =~= Seq::<u8>::empty());
            assert(acts_view(acts) + Seq::<ActionV>::empty() =~= acts_view(acts));
        }
        acts
    }
}

/// In `Ground`, every printable byte prints exactly itself and leaves the
/// parser in `Ground`.
pub proof fn lemma_ground_printable(b: u8)
    requires
        is_printable(b),
    ensures
        next_state(StateV::Ground, b) == StateV::Ground,
        emitted(StateV::Ground, b) == Some(ActionV::Print(b as char)),
{
}

/// Feeding a stream in two batches gives the same final state and the same
/// actions, in order, as feeding it at once: the parser is resumable across
/// arbitrarily split input.
pub proof fn lemma_run_append(s: StateV, s1: Seq<u8>, s2: Seq<u8>)
    ensures
        run(s, s1 + s2).0 == run(run(s, s1).0, s2).0,
        run(s, s1 + s2).1 == run(s, s1).1 + run(run(s, s1).0, s2).1,
    decreases s1.len(),
{
    if s1.len() == 0 {
        assert(s1 + s2 =~= s2);
        assert(run(s, s1).1 + run(run(s, s1).0, s2).1 =~= run(s, s2).1);
    } else {
        let both = s1 + s2;
        assert(both[0] == s1[0]);
        assert(both.subrange(1, both.len() as int) =~= s1.subrange(1, s1.len() as int) + s2);
        lemma_run_append(next_state(s, s1[0]), s1.subrange(1, s1.len() as int), s2);
        assert(run(s, s1 + s2).1 =~= run(s, s1).1 + run(run(s, s1).0, s2).1);
    }
}

/// Splitting a stream at any point and feeding the two halves in turn gives
/// the same final state and the same actions as feeding it whole.
pub proof fn lemma_run_split(s: StateV, input: Seq<u8>, k: int)
    requires
        0 <= k <= input.len(),
    ensures
        run(s, input).0 == run(run(s, input.subrange(0, k)).0, input.subrange(k, input.len() as int)).0,
        run(s, input).1 == run(s, input.subrange(0, k)).1 + run(
            run(s, input.subrange(0, k)).0,
            input.subrange(k, input.len() as int),
        ).1,
{
    assert(input =~= input.subrange(0, k) + input.subrange(k, input.len() as int));
    lemma_run_append(s, input.subrange(0, k), input.subrange(k, input.len() as int));
}

/// From any state whatsoever, the two-byte string terminator ESC `\`
/// brings the parser back to `Ground`: the machine can never wedge in an
/// unrecoverable state, whatever malformed input preceded.
pub proof fn lemma_recovery(s: StateV)
    ensures
        run(s, seq![0x1bu8, 0x5cu8]).0 == StateV::Ground,
{
    let input = seq![0x1bu8, 0x5cu8];
    let s1 = next_state(s, 0x1b);
    assert(input.subrange(1, 2) =~= seq![0x5cu8]);
    assert(seq![0x5cu8].subrange(1, 1) =~= Seq::<u8>::empty());
    assert(run(next_state(s1, 0x5c), Seq::<u8>::empty()).0 == next_state(s1, 0x5c));
    assert(run(s1, seq![0x5cu8]).0 == next_state(s1, 0x5c));
    assert(next_state(s1, 0x5c) == StateV::Ground);
}

/// Replaying a complete, well-formed stream — one that returns the parser
/// to `Ground` — emits the same actions again: no hidden state survives a
/// completed sequence.
pub proof fn lemma_replay(input: Seq<u8>)
    requires
        run(StateV::Ground, input).0 == StateV::Ground,
    ensures
        run(StateV::Ground, input + input).1 == run(StateV::Ground, input).1 + run(
            StateV::Ground,
            input,
        ).1,
{
    lemma_run_append(StateV::Ground, input, input);
}

/// The DEC Special Graphics mapping: bytes in the `j`..`~` range map to
/// box-drawing and symbol glyphs; every other character is unchanged.
pub open spec fn spec_map_dec_special(ch: char) -> char {
    if ch == 'j' {
        '\u{2518}'
    } else if ch == 'k' {
        '\u{2510}'
    } else if ch == 'l' {
        '\u{250c}'
    } else if ch == 'm' {
        '\u{2514}'
    } else if ch == 'n' {
        '\u{253c}'
    } else if ch == 'q' {
        '\u{2500}'
    } else if ch == 't' {
        '\u{251c}'
    } else if ch == 'u' {
        '\u{2524}'
    } else if ch == 'v' {
        '\u{2534}'
    } else if ch == 'w' {
        '\u{252c}'
    } else if ch == 'x' {
        '\u{2502}'
    } else if ch == 'y' {
        '\u{2264}'
    } else if ch == 'z' {
        '\u{2265}'
    } else if ch == '{' {
        '\u{3c0}'
    } else if ch == '|' {
        '\u{2260}'
    } else if ch == '}' {
        '\u{a3}'
    } else if ch == '~' {
        '\u{b7}'
    } else {
        ch
    }
}

/// Map one character through the DEC Special Graphics charset; characters
/// outside the mapped range are returned unchanged.
pub fn map_dec_special(ch: char) -> (r: char)
    ensures
        r == spec_map_dec_special(ch),
{
    match ch {
        'j' => '┘',
        'k' => '┐',
        'l' => '┌',
        'm' => '└',
        'n' => '┼',
        'q' => '─',
        't' => '├',
        'u' => '┤',
        'v' => '┴',
        'w' => '┬',
        'x' => '│',
        'y' => '≤',
        'z' => '≥',
        '{' => 'π',
        '|' => '≠',
        '}' => '£',
        '~' => '·',
        _ => ch,
    }
}

} // verus!
