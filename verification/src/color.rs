//! Color resolution: maps 4-bit ANSI indices, 8-bit xterm indices and textual
//! color specifications to concrete 24-bit RGB values.

use vstd::prelude::*;
use vstd::string::StringSliceAdditionalSpecFns;

verus! {

/// A concrete 24-bit color, one byte per channel.
#[derive(Clone, Copy, PartialEq, Eq, Structural, Debug)]
pub struct Rgb {
    pub r: u8,
    pub g: u8,
    pub b: u8,
}

/// The ways a terminal color can be specified before resolution.
#[derive(Clone, Copy, PartialEq, Eq, Structural, Debug)]
pub enum ColorKind {
    /// The terminal's configured default foreground or background.
    Default,
    /// A 4-bit index into the classical 16-color palette.
    Ansi(u8),
    /// An 8-bit index into the xterm 256-color palette.
    Xterm(u8),
    /// A direct 24-bit color.
    Rgb(Rgb),
}

/// The classical 16-color palette; indices 16 and above fall back to white.
pub open spec fn spec_ansi_16(index: u8) -> Rgb {
    if index == 0 {
        Rgb { r: 0, g: 0, b: 0 }
    } else if index == 1 {
        Rgb { r: 128, g: 0, b: 0 }
    } else if index == 2 {
        Rgb { r: 0, g: 128, b: 0 }
    } else if index == 3 {
        Rgb { r: 128, g: 128, b: 0 }
    } else if index == 4 {
        Rgb { r: 0, g: 0, b: 128 }
    } else if index == 5 {
        Rgb { r: 128, g: 0, b: 128 }
    } else if index == 6 {
        Rgb { r: 0, g: 128, b: 128 }
    } else if index == 7 {
        Rgb { r: 192, g: 192, b: 192 }
    } else if index == 8 {
        Rgb { r: 128, g: 128, b: 128 }
    } else if index == 9 {
        Rgb { r: 255, g: 0, b: 0 }
    } else if index == 10 {
        Rgb { r: 0, g: 255, b: 0 }
    } else if index == 11 {
        Rgb { r: 255, g: 255, b: 0 }
    } else if index == 12 {
        Rgb { r: 0, g: 0, b: 255 }
    } else if index == 13 {
        Rgb { r: 255, g: 0, b: 255 }
    } else if index == 14 {
        Rgb { r: 0, g: 255, b: 255 }
    } else {
        Rgb { r: 255, g: 255, b: 255 }
    }
}

/// Resolve a 4-bit ANSI color index; total over all byte values.
pub fn ansi_16_color(index: u8) -> (c: Rgb)
    ensures
        c == spec_ansi_16(index),
{
    match index {
        0 => Rgb { r: 0, g: 0, b: 0 },
        1 => Rgb { r: 128, g: 0, b: 0 },
        2 => Rgb { r: 0, g: 128, b: 0 },
        3 => Rgb { r: 128, g: 128, b: 0 },
        4 => Rgb { r: 0, g: 0, b: 128 },
        5 => Rgb { r: 128, g: 0, b: 128 },
        6 => Rgb { r: 0, g: 128, b: 128 },
        7 => Rgb { r: 192, g: 192, b: 192 },
        8 => Rgb { r: 128, g: 128, b: 128 },
        9 => Rgb { r: 255, g: 0, b: 0 },
        10 => Rgb { r: 0, g: 255, b: 0 },
        11 => Rgb { r: 255, g: 255, b: 0 },
        12 => Rgb { r: 0, g: 0, b: 255 },
        13 => Rgb { r: 255, g: 0, b: 255 },
        14 => Rgb { r: 0, g: 255, b: 255 },
        _ => Rgb { r: 255, g: 255, b: 255 },
    }
}

/// The six brightness levels of the xterm 6x6x6 color cube.
pub open spec fn spec_cube_level(v: int) -> u8 {
    if v == 0 {
        0
    } else if v == 1 {
        95
    } else if v == 2 {
        135
    } else if v == 3 {
        175
    } else if v == 4 {
        215
    } else {
        255
    }
}

/// The xterm 256-color palette: 16 classical colors, a 6x6x6 color cube,
/// and a 24-step grayscale ramp.
pub open spec fn spec_xterm_256(index: u8) -> Rgb {
    if index < 16 {
        spec_ansi_16(index)
    } else if index < 232 {
        let idx = index - 16;
        Rgb {
            r: spec_cube_level(idx / 36),
            g: spec_cube_level((idx / 6) % 6),
            b: spec_cube_level(idx % 6),
        }
    } else {
        let gray = (8 + (index - 232) * 10) as u8;
        Rgb { r: gray, g: gray, b: gray }
    }
}

fn cube_level(v: u8) -> (r: u8)
    ensures
        r == spec_cube_level(v as int),
{
    match v {
        0 => 0,
        1 => 95,
        2 => 135,
        3 => 175,
        4 => 215,
        _ => 255,
    }
}

/// Resolve an 8-bit xterm palette index; total over all byte values and
/// free of overflow for every input.
pub fn xterm_256_color(index: u8) -> (c: Rgb)
    ensures
        c == spec_xterm_256(index),
{
    if index < 16 {
        return ansi_16_color(index);
    }
    if index < 232 {
        let idx = index - 16;
        let r = idx / 36;
        let g = (idx / 6) % 6;
        let b = idx % 6;
        return Rgb { r: cube_level(r), g: cube_level(g), b: cube_level(b) };
    }
    let gray = 8 + (index - 232) * 10;
    Rgb { r: gray, g: gray, b: gray }
}

/// The default foreground color, white.
pub fn default_fg() -> (c: Rgb)
    ensures
        c == (Rgb { r: 255, g: 255, b: 255 }),
{
    Rgb { r: 255, g: 255, b: 255 }
}

/// The default background color, black.
pub fn default_bg() -> (c: Rgb)
    ensures
        c == (Rgb { r: 0, g: 0, b: 0 }),
{
    Rgb { r: 0, g: 0, b: 0 }
}

/// Whether a byte is an ASCII hexadecimal digit.
pub open spec fn is_hex_digit(b: u8) -> bool {
    (0x30 <= b && b <= 0x39) || (0x41 <= b && b <= 0x46) || (0x61 <= b && b <= 0x66)
}

/// The numeric value of an ASCII hexadecimal digit.
pub open spec fn hex_digit_val(b: u8) -> int {
    if 0x30 <= b && b <= 0x39 {
        b - 0x30
    } else if 0x41 <= b && b <= 0x46 {
        b - 0x41 + 10
    } else {
        b - 0x61 + 10
    }
}

/// Whether every byte of the sequence is a hexadecimal digit.
pub open spec fn all_hex(s: Seq<u8>) -> bool {
    forall|i: int| 0 <= i < s.len() ==> is_hex_digit(s[i])
}

/// The number written by a sequence of hexadecimal digits, most
/// significant digit first.
pub open spec fn hex_val(s: Seq<u8>) -> int
    decreases s.len(),
{
    if s.len() == 0 {
        0
    } else {
        hex_val(s.drop_last()) * 16 + hex_digit_val(s.last())
    }
}

pub open spec fn pow16(n: nat) -> int
    decreases n,
{
    if n == 0 {
        1
    } else {
        16 * pow16((n - 1) as nat)
    }
}

/// A sequence of hexadecimal digits writes a number below 16^length.
pub proof fn lemma_hex_val_bound(s: Seq<u8>)
    requires
        all_hex(s),
    ensures
        0 <= hex_val(s) < pow16(s.len()),
    decreases s.len(),
{
    if s.len() > 0 {
        assert(all_hex(s.drop_last()));
        lemma_hex_val_bound(s.drop_last());
        assert(is_hex_digit(s.last()));
    }
}

/// The largest value a component of the given digit count can write:
/// 16^digits - 1, for 1 to 4 digits.
pub open spec fn comp_max(digits: int) -> int {
    if digits == 1 {
        15
    } else if digits == 2 {
        255
    } else if digits == 3 {
        4095
    } else {
        65535
    }
}

/// Scale a component value of the given digit count to the 8-bit range by
/// round-half-up integer arithmetic.
pub open spec fn scale_component(v: int, digits: int) -> u8 {
    let max = comp_max(digits);
    ((v * 255 + max / 2) / max) as u8
}

/// What `parse_hex_component` returns: 1 to 4 hexadecimal digits scaled to
/// the 8-bit range, anything else rejected.
pub open spec fn spec_parse_hex_component(s: Seq<u8>) -> Option<u8> {
    if 1 <= s.len() && s.len() <= 4 && all_hex(s) {
        Some(scale_component(hex_val(s), s.len() as int))
    } else {
        None
    }
}

fn hex_digit(b: u8) -> (r: Option<u8>)
    ensures
        r is Some <==> is_hex_digit(b),
        r is Some ==> r->0 == hex_digit_val(b),
{
    if 0x30 <= b && b <= 0x39 {
        Some(b - 0x30)
    } else if 0x41 <= b && b <= 0x46 {
        Some(b - 0x41 + 10)
    } else if 0x61 <= b && b <= 0x66 {
        Some(b - 0x61 + 10)
    } else {
        None
    }
}

fn hex_component(comp: &[u8]) -> (r: Option<u8>)
    ensures
        r == spec_parse_hex_component(comp@),
{
    let n = comp.len();
    if n < 1 || n > 4 {
        return None;
    }
    let mut value: u32 = 0;
    let mut idx: usize = 0;
    while idx < n
        invariant
            n == comp@.len(),
            1 <= n <= 4,
            idx <= n,
            all_hex(comp@.take(idx as int)),
            value == hex_val(comp@.take(idx as int)),
            value < 65536,
        decreases n - idx,
    {
        let d = match hex_digit(comp[idx]) {
            Some(d) => d,
            None => {
                assert(!is_hex_digit(comp@[idx as int]));
                return None;
            },
        };
        proof {
            lemma_hex_val_bound(comp@.take(idx as int));
            assert(pow16(0) == 1);
            assert(pow16(1) == 16);
            assert(pow16(2) == 256);
            assert(pow16(3) == 4096);
            assert(comp@.take(idx + 1).drop_last() =~= comp@.take(idx as int));
            assert(comp@.take(idx + 1).last() == comp@[idx as int]);
        }
        value = value * 16 + d as u32;
        idx = idx + 1;
    }
    assert(comp@.take(n as int) =~= comp@);
    proof {
        lemma_hex_val_bound(comp@);
        assert(pow16(0) == 1);
        assert(pow16(1) == 16);
        assert(pow16(2) == 256);
        assert(pow16(3) == 4096);
        assert(pow16(4) == 65536);
    }
    let max: u32 = match n {
        1 => 15,
        2 => 255,
        3 => 4095,
        _ => 65535,
    };
    assert(value <= max);
    let scaled: u32 = (value * 255 + max / 2) / max;
    assert(scaled <= 255);
    Some(scaled as u8)
}

/// Parse one hexadecimal color component of 1 to 4 digits, scaling it to
/// the 8-bit range; any other text is rejected.
pub fn parse_hex_component(comp: &str) -> (r: Option<u8>)
    ensures
        r == spec_parse_hex_component(comp.spec_bytes()),
{
    hex_component(comp.as_bytes())
}

/// Whether a byte is ASCII whitespace.
pub open spec fn is_space(b: u8) -> bool {
    b == 0x20 || b == 0x09 || b == 0x0a || b == 0x0d
}

/// The sequence with leading and trailing ASCII whitespace removed.
pub open spec fn trimmed(s: Seq<u8>) -> Seq<u8>
    decreases s.len(),
{
    if s.len() == 0 {
        s
    } else if is_space(s[0]) {
        trimmed(s.subrange(1, s.len() as int))
    } else if is_space(s[s.len() - 1]) {
        trimmed(s.subrange(0, s.len() - 1))
    } else {
        s
    }
}

/// Lower-case an ASCII letter; other bytes are unchanged.
pub open spec fn to_lower(b: u8) -> u8 {
    if 0x41 <= b && b <= 0x5a {
        (b + 0x20) as u8
    } else {
        b
    }
}

/// Whether the bytes spell "none", case-insensitively.
pub open spec fn is_none_word(s: Seq<u8>) -> bool {
    s.len() == 4 && to_lower(s[0]) == 0x6e && to_lower(s[1]) == 0x6f && to_lower(s[2]) == 0x6e
        && to_lower(s[3]) == 0x65
}

/// The first position at or after `from` holding byte `b`, or the length
/// of the sequence if there is none.
pub open spec fn find_from(s: Seq<u8>, from: int, b: u8) -> int
    decreases s.len() - from,
{
    if from < 0 || from >= s.len() {
        s.len() as int
    } else if s[from] == b {
        from
    } else {
        find_from(s, from + 1, b)
    }
}

/// What the X11-style body (after the "rgb:" prefix) parses to: three
/// slash-separated hexadecimal components; anything after a third slash is
/// ignored; fewer than three components is a failure.
pub open spec fn spec_parse_rgb_body(s: Seq<u8>) -> Option<Rgb> {
    let i = find_from(s, 0, 0x2f);
    let j = find_from(s, i + 1, 0x2f);
    let k = find_from(s, j + 1, 0x2f);
    if i == s.len() || j == s.len() {
        None
    } else {
        match spec_parse_hex_component(s.subrange(0, i)) {
            Some(r) => match spec_parse_hex_component(s.subrange(i + 1, j)) {
                Some(g) => match spec_parse_hex_component(s.subrange(j + 1, k)) {
                    Some(b) => Some(Rgb { r, g, b }),
                    None => None,
                },
                None => None,
            },
            None => None,
        }
    }
}

/// What the "#" body (after the "#" prefix) parses to: a hexadecimal string
/// split into three components of equal width, each of 1 to 4 digits.
pub open spec fn spec_parse_hash_body(s: Seq<u8>) -> Option<Rgb> {
    if s.len() % 3 != 0 {
        None
    } else {
        let step = s.len() as int / 3;
        if step == 0 || step > 4 {
            None
        } else {
            match spec_parse_hex_component(s.subrange(0, step)) {
                Some(r) => match spec_parse_hex_component(s.subrange(step, 2 * step)) {
                    Some(g) => match spec_parse_hex_component(s.subrange(2 * step, 3 * step)) {
                        Some(b) => Some(Rgb { r, g, b }),
                        None => None,
                    },
                    None => None,
                },
                None => None,
            }
        }
    }
}

/// What `parse_color_spec` returns for a given byte sequence: after
/// trimming, a case-insensitive "none" and every unsupported format yield
/// nothing; "rgb:R/G/B" and "#RGB"-style strings yield the scaled color.
pub open spec fn spec_parse_color_spec(s: Seq<u8>) -> Option<Rgb> {
    let t = trimmed(s);
    if is_none_word(t) {
        None
    } else if t.len() >= 4 && t[0] == 0x72 && t[1] == 0x67 && t[2] == 0x62 && t[3] == 0x3a {
        spec_parse_rgb_body(t.subrange(4, t.len() as int))
    } else if t.len() >= 1 && t[0] == 0x23 {
        spec_parse_hash_body(t.subrange(1, t.len() as int))
    } else {
        None
    }
}

fn space(b: u8) -> (r: bool)
    ensures
        r == is_space(b),
{
    b == 0x20 || b == 0x09 || b == 0x0a || b == 0x0d
}

fn trim_slice<'a>(b: &'a [u8]) -> (t: &'a [u8])
    ensures
        t@ == trimmed(b@),
{
    let mut lo: usize = 0;
    let mut hi: usize = b.len();
    assert(b@.subrange(0, b@.len() as int) =~= b@);
    while lo < hi && space(b[lo])
        invariant
            lo <= hi <= b@.len(),
            trimmed(b@) == trimmed(b@.subrange(lo as int, hi as int)),
        decreases hi - lo,
    {
        proof {
            assert(b@.subrange(lo as int, hi as int).subrange(1, hi - lo) =~= b@.subrange(
                lo + 1,
                hi as int,
            ));
        }
        lo = lo + 1;
    }
    while lo < hi && space(b[hi - 1])
        invariant
            lo <= hi <= b@.len(),
            trimmed(b@) == trimmed(b@.subrange(lo as int, hi as int)),
            lo == hi || !is_space(b@[lo as int]),
        decreases hi - lo,
    {
        proof {
            assert(b@.subrange(lo as int, hi as int).subrange(0, hi - lo - 1) =~= b@.subrange(
                lo as int,
                hi - 1,
            ));
        }
        hi = hi - 1;
    }
    let t = vstd::slice::slice_subrange(b, lo, hi);
    assert(trimmed(t@) == t@);
    t
}

fn find_slash(b: &[u8], from: usize) -> (r: usize)
    requires
        from <= b@.len(),
    ensures
        r == find_from(b@, from as int, 0x2f),
        from <= r <= b@.len(),
        r < b@.len() ==> b@[r as int] == 0x2f,
{
    let mut i: usize = from;
    while i < b.len() && b[i] != 0x2f
        invariant
            from <= i <= b@.len(),
            find_from(b@, from as int, 0x2f) == find_from(b@, i as int, 0x2f),
        decreases b@.len() - i,
    {
        i = i + 1;
    }
    i
}

fn parse_rgb_body(rest: &[u8]) -> (r: Option<Rgb>)
    ensures
        r == spec_parse_rgb_body(rest@),
{
    let i = find_slash(rest, 0);
    if i == rest.len() {
        return None;
    }
    let j = find_slash(rest, i + 1);
    if j == rest.len() {
        return None;
    }
    let k = find_slash(rest, j + 1);
    let red = hex_component(vstd::slice::slice_subrange(rest, 0, i));
    let green = hex_component(vstd::slice::slice_subrange(rest, i + 1, j));
    let blue = hex_component(vstd::slice::slice_subrange(rest, j + 1, k));
    match (red, green, blue) {
        (Some(r), Some(g), Some(b)) => Some(Rgb { r, g, b }),
        _ => None,
    }
}

fn parse_hash_body(hex: &[u8]) -> (r: Option<Rgb>)
    ensures
        r == spec_parse_hash_body(hex@),
{
    if hex.len() % 3 != 0 {
        return None;
    }
    let step = hex.len() / 3;
    if step == 0 || step > 4 {
        return None;
    }
    let red = hex_component(vstd::slice::slice_subrange(hex, 0, step));
    let green = hex_component(vstd::slice::slice_subrange(hex, step, 2 * step));
    let blue = hex_component(vstd::slice::slice_subrange(hex, 2 * step, 3 * step));
    match (red, green, blue) {
        (Some(r), Some(g), Some(b)) => Some(Rgb { r, g, b }),
        _ => None,
    }
}

/// Parse a textual color specification: a case-insensitive "none" and any
/// unsupported format yield `None`; X11-style "rgb:RR/GG/BB" and hex
/// "#RGB"-style strings yield the color, each component scaled to the
/// 8-bit range by round-half-up arithmetic.
pub fn parse_color_spec(text: &str) -> (r: Option<Rgb>)
    ensures
        r == spec_parse_color_spec(text.spec_bytes()),
{
    let bytes = text.as_bytes();
    let t = trim_slice(bytes);
    if t.len() == 4 && lower(t[0]) == 0x6e && lower(t[1]) == 0x6f && lower(t[2]) == 0x6e && lower(
        t[3],
    ) == 0x65 {
        return None;
    }
    if t.len() >= 4 && t[0] == 0x72 && t[1] == 0x67 && t[2] == 0x62 && t[3] == 0x3a {
        return parse_rgb_body(vstd::slice::slice_subrange(t, 4, t.len()));
    }
    if t.len() >= 1 && t[0] == 0x23 {
        return parse_hash_body(vstd::slice::slice_subrange(t, 1, t.len()));
    }
    None
}

fn lower(b: u8) -> (r: u8)
    ensures
        r == to_lower(b),
{
    if 0x41 <= b && b <= 0x5a {
        b + 0x20
    } else {
        b
    }
}

} // verus!
