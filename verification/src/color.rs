//! The color utility: darkening a hex color for 3D shading.
//!
//! A color string is six hex digits, optionally prefixed with one `#`.
//! `darken` scales each of the three channels by a per-mille factor, flooring
//! and clamping to `[0, 255]`, and re-encodes the result in lowercase hex
//! with a leading `#`. Malformed input (wrong length, a non-hex digit) is
//! recovered locally: `darken` returns the fixed fallback color
//! [`fallback_color`], so one bad color never aborts a whole render.

use vstd::prelude::*;
use vstd::string::StrSliceExecFns;
use vstd::string::StringExecFns;

verus! {

/// Whether `c` is an ASCII hex digit (either case).
pub open spec fn is_hex_digit(c: char) -> bool {
    ('0' <= c && c <= '9') || ('a' <= c && c <= 'f') || ('A' <= c && c <= 'F')
}

/// The numeric value of a hex digit (0 for a non-digit).
pub open spec fn hex_val(c: char) -> int {
    if '0' <= c && c <= '9' {
        c as int - '0' as int
    } else if 'a' <= c && c <= 'f' {
        c as int - 'a' as int + 10
    } else if 'A' <= c && c <= 'F' {
        c as int - 'A' as int + 10
    } else {
        0
    }
}

/// The lowercase hex digit for a value in `[0, 16)`.
pub open spec fn hex_char(d: int) -> char {
    if d == 0 { '0' }
    else if d == 1 { '1' }
    else if d == 2 { '2' }
    else if d == 3 { '3' }
    else if d == 4 { '4' }
    else if d == 5 { '5' }
    else if d == 6 { '6' }
    else if d == 7 { '7' }
    else if d == 8 { '8' }
    else if d == 9 { '9' }
    else if d == 10 { 'a' }
    else if d == 11 { 'b' }
    else if d == 12 { 'c' }
    else if d == 13 { 'd' }
    else if d == 14 { 'e' }
    else { 'f' }
}

/// Encoding and decoding a hex digit are inverse to each other.
pub proof fn lemma_hex_char_val(d: int)
    requires
        0 <= d < 16,
    ensures
        is_hex_digit(hex_char(d)),
        hex_val(hex_char(d)) == d,
{
}

/// The color string with at most one leading `#` removed.
pub open spec fn strip_hash(s: Seq<char>) -> Seq<char> {
    if s.len() >= 1 && s[0] == '#' {
        s.skip(1)
    } else {
        s
    }
}

/// Whether `s` is a well-formed color: six hex digits after stripping the
/// optional `#` prefix.
pub open spec fn is_well_formed_color(s: Seq<char>) -> bool {
    &&& strip_hash(s).len() == 6
    &&& forall|i: int| 0 <= i < 6 ==> is_hex_digit(#[trigger] strip_hash(s)[i])
}

/// Channel `k` (0 red, 1 green, 2 blue) of the stripped digit sequence `t`.
pub open spec fn channel(t: Seq<char>, k: int) -> int {
    hex_val(t[2 * k]) * 16 + hex_val(t[2 * k + 1])
}

/// One channel scaled by the per-mille factor `f`, floored, clamped to 255.
pub open spec fn darken_channel(c: int, f: int) -> int {
    if c * f / 1000 > 255 {
        255
    } else {
        c * f / 1000
    }
}

/// The seven-character encoding `#rrggbb` of three channel values.
pub open spec fn spec_format_color(r: int, g: int, b: int) -> Seq<char> {
    seq![
        '#',
        hex_char(r / 16),
        hex_char(r % 16),
        hex_char(g / 16),
        hex_char(g % 16),
        hex_char(b / 16),
        hex_char(b % 16),
    ]
}

/// The fixed mid-gray fallback color returned for malformed input.
pub open spec fn fallback_color() -> Seq<char> {
    "#c8c8c8"@
}

/// What `darken` returns: the re-encoded scaled channels for well-formed
/// input, the fallback color otherwise.
pub open spec fn spec_darken(s: Seq<char>, f: int) -> Seq<char> {
    if is_well_formed_color(s) {
        let t = strip_hash(s);
        spec_format_color(
            darken_channel(channel(t, 0), f),
            darken_channel(channel(t, 1), f),
            darken_channel(channel(t, 2), f),
        )
    } else {
        fallback_color()
    }
}

/// The fallback color as a fresh string.
pub fn fallback_color_string() -> (r: String)
    ensures
        r@ == fallback_color(),
{
    String::from_str("#c8c8c8")
}

/// The one-character string of the lowercase hex digit for `d`.
fn hex_digit_str(d: u8) -> (r: &'static str)
    requires
        d < 16,
    ensures
        r@ == seq![hex_char(d as int)],
{
    if d == 0 {
        proof { reveal_strlit("0"); assert("0"@ =~= seq![hex_char(0int)]); }
        "0"
    } else if d == 1 {
        proof { reveal_strlit("1"); assert("1"@ =~= seq![hex_char(1int)]); }
        "1"
    } else if d == 2 {
        proof { reveal_strlit("2"); assert("2"@ =~= seq![hex_char(2int)]); }
        "2"
    } else if d == 3 {
        proof { reveal_strlit("3"); assert("3"@ =~= seq![hex_char(3int)]); }
        "3"
    } else if d == 4 {
        proof { reveal_strlit("4"); assert("4"@ =~= seq![hex_char(4int)]); }
        "4"
    } else if d == 5 {
        proof { reveal_strlit("5"); assert("5"@ =~= seq![hex_char(5int)]); }
        "5"
    } else if d == 6 {
        proof { reveal_strlit("6"); assert("6"@ =~= seq![hex_char(6int)]); }
        "6"
    } else if d == 7 {
        proof { reveal_strlit("7"); assert("7"@ =~= seq![hex_char(7int)]); }
        "7"
    } else if d == 8 {
        proof { reveal_strlit("8"); assert("8"@ =~= seq![hex_char(8int)]); }
        "8"
    } else if d == 9 {
        proof { reveal_strlit("9"); assert("9"@ =~= seq![hex_char(9int)]); }
        "9"
    } else if d == 10 {
        proof { reveal_strlit("a"); assert("a"@ =~= seq![hex_char(10int)]); }
        "a"
    } else if d == 11 {
        proof { reveal_strlit("b"); assert("b"@ =~= seq![hex_char(11int)]); }
        "b"
    } else if d == 12 {
        proof { reveal_strlit("c"); assert("c"@ =~= seq![hex_char(12int)]); }
        "c"
    } else if d == 13 {
        proof { reveal_strlit("d"); assert("d"@ =~= seq![hex_char(13int)]); }
        "d"
    } else if d == 14 {
        proof { reveal_strlit("e"); assert("e"@ =~= seq![hex_char(14int)]); }
        "e"
    } else {
        proof { reveal_strlit("f"); assert("f"@ =~= seq![hex_char(15int)]); }
        "f"
    }
}

/// Encodes three channel values as `#rrggbb` in lowercase hex.
fn format_color(r: u8, g: u8, b: u8) -> (s: String)
    ensures
        s@ == spec_format_color(r as int, g as int, b as int),
{
    let mut s = String::from_str("#");
    s.append(hex_digit_str(r / 16));
    s.append(hex_digit_str(r % 16));
    s.append(hex_digit_str(g / 16));
    s.append(hex_digit_str(g % 16));
    s.append(hex_digit_str(b / 16));
    s.append(hex_digit_str(b % 16));
    proof {
        reveal_strlit("#");
        assert(s@ =~= spec_format_color(r as int, g as int, b as int));
    }
    s
}

/// The numeric value of a hex digit character, or `None`.
fn hex_digit_val(c: char) -> (r: Option<u8>)
    ensures
        r is Some <==> is_hex_digit(c),
        r is Some ==> r->0 == hex_val(c) && r->0 < 16,
{
    let u = c as u32;
    if 48 <= u && u <= 57 {
        Some((u - 48) as u8)
    } else if 97 <= u && u <= 102 {
        Some((u - 97 + 10) as u8)
    } else if 65 <= u && u <= 70 {
        Some((u - 65 + 10) as u8)
    } else {
        None
    }
}

/// Scales one parsed channel by the per-mille factor, flooring and clamping.
fn darken_channel_exec(c: u8, f: u32) -> (r: u8)
    ensures
        r == darken_channel(c as int, f as int),
{
    proof {
        assert((c as int) * (f as int) <= 255 * (u32::MAX as int)) by (nonlinear_arith)
            requires
                0 <= c <= 255,
                0 <= f <= u32::MAX,
            ;
        assert(0 <= (c as int) * (f as int)) by (nonlinear_arith)
            requires
                0 <= c,
                0 <= f,
            ;
    }
    let scaled = (c as u64) * (f as u64) / 1000;
    proof {
        vstd::arithmetic::div_mod::lemma_div_pos_is_pos((c as int) * (f as int), 1000);
    }
    if scaled > 255 {
        255
    } else {
        scaled as u8
    }
}

/// Darkens a hex color string by `factor` per mille.
///
/// For a well-formed color (six hex digits, optional `#` prefix), each output
/// channel is `floor(channel * factor / 1000)` clamped to `[0, 255]`, and the
/// result is re-encoded as `#rrggbb`. For malformed input the result is the
/// fixed fallback color.
pub fn darken(hex: &str, factor: u32) -> (r: String)
    ensures
        r@ == spec_darken(hex@, factor as int),
{
    let n = hex.unicode_len();
    let off: usize = if n >= 1 && hex.get_char(0) == '#' {
        1
    } else {
        0
    };
    let ghost t = strip_hash(hex@);
    proof {
        assert(t =~= hex@.skip(off as int));
    }
    if n - off != 6 {
        assert(!is_well_formed_color(hex@));
        return fallback_color_string();
    }
    let mut vals: [u8; 6] = [0, 0, 0, 0, 0, 0];
    let mut j: usize = 0;
    while j < 6
        invariant
            0 <= j <= 6,
            off == 0 || off == 1,
            n == hex@.len(),
            n - off == 6,
            t == strip_hash(hex@),
            t =~= hex@.skip(off as int),
            forall|i: int| 0 <= i < j ==> is_hex_digit(t[i]),
            forall|i: int| 0 <= i < j ==> vals@[i] == hex_val(t[i]) && vals@[i] < 16,
        decreases 6 - j,
    {
        let c = hex.get_char(off + j);
        assert(c == t[j as int]);
        match hex_digit_val(c) {
            Some(v) => {
                vals[j] = v;
            },
            None => {
                assert(!is_well_formed_color(hex@));
                return fallback_color_string();
            },
        }
        j = j + 1;
    }
    assert(is_well_formed_color(hex@));
    let r0 = vals[0] * 16 + vals[1];
    let g0 = vals[2] * 16 + vals[3];
    let b0 = vals[4] * 16 + vals[5];
    assert(r0 == channel(t, 0) && g0 == channel(t, 1) && b0 == channel(t, 2));
    format_color(
        darken_channel_exec(r0, factor),
        darken_channel_exec(g0, factor),
        darken_channel_exec(b0, factor),
    )
}

/// Darken bounds: for well-formed input and a factor in `(0, 1000]` per
/// mille, the output is again a well-formed seven-character `#rrggbb` string
/// and every output channel is at most the corresponding input channel.
pub proof fn lemma_darken_bounds(s: Seq<char>, f: int)
    requires
        is_well_formed_color(s),
        0 < f <= 1000,
    ensures
        spec_darken(s, f).len() == 7,
        spec_darken(s, f)[0] == '#',
        is_well_formed_color(spec_darken(s, f)),
        forall|k: int|
            0 <= k < 3 ==> 0 <= #[trigger] channel(strip_hash(spec_darken(s, f)), k) <= channel(
                strip_hash(s),
                k,
            ) <= 255,
{
    let t = strip_hash(s);
    let out = spec_darken(s, f);
    assert forall|k: int| 0 <= k < 3 implies 0 <= #[trigger] channel(
        strip_hash(out),
        k,
    ) <= channel(t, k) <= 255 by {
        let c = channel(t, k);
        assert(is_hex_digit(t[2 * k]) && is_hex_digit(t[2 * k + 1]));
        assert(0 <= hex_val(t[2 * k]) <= 15 && 0 <= hex_val(t[2 * k + 1]) <= 15);
        assert(0 <= c <= 255);
        let d = darken_channel(c, f);
        assert(c * f <= c * 1000) by (nonlinear_arith)
            requires
                0 <= c,
                f <= 1000,
            ;
        assert(0 <= c * f) by (nonlinear_arith)
            requires
                0 <= c,
                0 <= f,
            ;
        vstd::arithmetic::div_mod::lemma_div_is_ordered(c * f, c * 1000, 1000);
        vstd::arithmetic::div_mod::lemma_div_multiples_vanish(c, 1000);
        assert(c * 1000 == 1000 * c) by (nonlinear_arith);
        assert(c * f / 1000 <= c);
        vstd::arithmetic::div_mod::lemma_div_pos_is_pos(c * f, 1000);
        assert(0 <= d <= c);
        lemma_hex_char_val(d / 16);
        lemma_hex_char_val(d % 16);
        assert(strip_hash(out) =~= out.skip(1));
        assert(channel(strip_hash(out), k) == hex_val(hex_char(d / 16)) * 16 + hex_val(
            hex_char(d % 16),
        ));
        assert(d / 16 * 16 + d % 16 == d);
    }
    assert forall|i: int| 0 <= i < 6 implies is_hex_digit(#[trigger] strip_hash(out)[i]) by {
        assert(strip_hash(out) =~= out.skip(1));
        let c0 = channel(t, 0);
        let c1 = channel(t, 1);
        let c2 = channel(t, 2);
        assert(0 <= hex_val(t[0]) <= 15 && 0 <= hex_val(t[1]) <= 15);
        assert(0 <= hex_val(t[2]) <= 15 && 0 <= hex_val(t[3]) <= 15);
        assert(0 <= hex_val(t[4]) <= 15 && 0 <= hex_val(t[5]) <= 15);
        assert(0 <= c0 <= 255 && 0 <= c1 <= 255 && 0 <= c2 <= 255);
        lemma_darken_channel_digit_range(c0, f);
        lemma_darken_channel_digit_range(c1, f);
        lemma_darken_channel_digit_range(c2, f);
    }
    assert(strip_hash(out) =~= out.skip(1));
}

/// The two hex digits of a darkened channel are in digit range.
proof fn lemma_darken_channel_digit_range(c: int, f: int)
    requires
        0 <= c <= 255,
        0 <= f,
    ensures
        0 <= darken_channel(c, f) <= 255,
        is_hex_digit(hex_char(darken_channel(c, f) / 16)),
        is_hex_digit(hex_char(darken_channel(c, f) % 16)),
{
    vstd::arithmetic::div_mod::lemma_div_pos_is_pos(c * f, 1000);
    assert(0 <= c * f) by (nonlinear_arith)
        requires
            0 <= c,
            0 <= f,
        ;
    let d = darken_channel(c, f);
    assert(0 <= d <= 255);
    lemma_hex_char_val(d / 16);
    lemma_hex_char_val(d % 16);
}

} // verus!
