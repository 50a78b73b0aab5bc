//! The byte-level color value and its `#rrggbb` hex codec.
//!
//! Rendering accumulates colors as floating-point triples outside this crate;
//! a color crosses into the verified core once it is byte-rounded, as the
//! three 8-bit channels that the codec and the framebuffer work with.
//! Parsing accepts exactly the strings the renderer's scene files may hold:
//! a `#` followed by a six-character radix-16 integer (upper or lower case,
//! with an optional leading `+` sign); serialization always emits the
//! canonical lower-case form.

use vstd::prelude::*;

verus! {

/// A color as its three 8-bit channels.
#[derive(Clone, Copy, Debug, PartialEq, Eq, Structural)]
pub struct Rgb {
    pub red: u8,
    pub green: u8,
    pub blue: u8,
}

impl Default for Rgb {
    /// Black: every channel zero.
    fn default() -> (r: Rgb)
        ensures
            r.red == 0,
            r.green == 0,
            r.blue == 0,
    {
        Rgb { red: 0, green: 0, blue: 0 }
    }
}

/// Is `c` a radix-16 digit (either case)?
pub open spec fn is_hex_digit(c: char) -> bool {
    let v = c as int;
    (48 <= v && v <= 57) || (97 <= v && v <= 102) || (65 <= v && v <= 70)
}

/// Is `c` a digit that the serializer itself emits (lower case only)?
pub open spec fn is_lower_hex_digit(c: char) -> bool {
    let v = c as int;
    (48 <= v && v <= 57) || (97 <= v && v <= 102)
}

/// The numeric value of a radix-16 digit.
pub open spec fn hex_digit_val(c: char) -> int {
    let v = c as int;
    if 48 <= v && v <= 57 {
        v - 48
    } else if 97 <= v && v <= 102 {
        v - 87
    } else if 65 <= v && v <= 70 {
        v - 55
    } else {
        0
    }
}

/// The value of a big-endian sequence of radix-16 digits.
pub open spec fn hex_value(digits: Seq<char>) -> int
    decreases digits.len(),
{
    if digits.len() == 0 {
        0
    } else {
        hex_value(digits.drop_last()) * 16 + hex_digit_val(digits.last())
    }
}

/// The digit characters of an integer literal: an optional leading `+`
/// sign is not part of the digits.
pub open spec fn hex_digits_of(s: Seq<char>) -> Seq<char> {
    if s.len() >= 1 && s[0] == '+' {
        s.subrange(1, s.len() as int)
    } else {
        s
    }
}

/// Does `s` parse as an unsigned radix-16 integer: at least one digit,
/// all characters digits, after an optional leading `+` sign?
pub open spec fn parses_as_hex(s: Seq<char>) -> bool {
    let digits = hex_digits_of(s);
    digits.len() >= 1 && forall|i: int| 0 <= i < digits.len() ==> is_hex_digit(#[trigger] digits[i])
}

/// Is `s` a well-formed color string: `#` followed by six characters that
/// parse as a radix-16 integer?
pub open spec fn valid_hex_color(s: Seq<char>) -> bool {
    s.len() == 7 && s[0] == '#' && parses_as_hex(s.subrange(1, 7))
}

/// The integer value encoded by a well-formed color string.
pub open spec fn hex_color_value(s: Seq<char>) -> int {
    hex_value(hex_digits_of(s.subrange(1, 7)))
}

/// The color a well-formed color string denotes: the encoded integer's
/// middle-endian bytes, high to low, as red, green and blue.
pub open spec fn spec_parse_color(s: Seq<char>) -> Rgb {
    let v = hex_color_value(s);
    Rgb {
        red: ((v / 0x10000) % 0x100) as u8,
        green: ((v / 0x100) % 0x100) as u8,
        blue: (v % 0x100) as u8,
    }
}

/// The lower-case digit character of a value below 16.
pub open spec fn hex_char_of(v: int) -> char {
    if v == 0 { '0' }
    else if v == 1 { '1' }
    else if v == 2 { '2' }
    else if v == 3 { '3' }
    else if v == 4 { '4' }
    else if v == 5 { '5' }
    else if v == 6 { '6' }
    else if v == 7 { '7' }
    else if v == 8 { '8' }
    else if v == 9 { '9' }
    else if v == 10 { 'a' }
    else if v == 11 { 'b' }
    else if v == 12 { 'c' }
    else if v == 13 { 'd' }
    else if v == 14 { 'e' }
    else { 'f' }
}

/// The two digit characters of one channel byte.
pub open spec fn hex_byte_chars(b: u8) -> Seq<char> {
    seq![hex_char_of(b as int / 16), hex_char_of(b as int % 16)]
}

/// The canonical serialization of a color: `#` and six lower-case digits.
pub open spec fn spec_hex_string(c: Rgb) -> Seq<char> {
    seq!['#'] + hex_byte_chars(c.red) + hex_byte_chars(c.green) + hex_byte_chars(c.blue)
}

/// The numeric value of one digit character, or `None` when it is not a
/// radix-16 digit.
fn hex_digit_value(c: char) -> (r: Option<u8>)
    ensures
        r is Some <==> is_hex_digit(c),
        r is Some ==> r->0 as int == hex_digit_val(c) && r->0 < 16,
{
    let v = c as u32;
    if v >= 48 && v <= 57 {
        Some((v - 48) as u8)
    } else if v >= 97 && v <= 102 {
        Some((v - 87) as u8)
    } else if v >= 65 && v <= 70 {
        Some((v - 55) as u8)
    } else {
        None
    }
}

/// Appends the digit character of `nibble` to `out`.
fn append_hex_digit(out: &mut String, nibble: u8)
    requires
        nibble < 16,
    ensures
        final(out)@ == old(out)@.push(hex_char_of(nibble as int)),
{
    if nibble == 0 {
        proof { reveal_strlit("0"); }
        out.append("0");
    } else if nibble == 1 {
        proof { reveal_strlit("1"); }
        out.append("1");
    } else if nibble == 2 {
        proof { reveal_strlit("2"); }
        out.append("2");
    } else if nibble == 3 {
        proof { reveal_strlit("3"); }
        out.append("3");
    } else if nibble == 4 {
        proof { reveal_strlit("4"); }
        out.append("4");
    } else if nibble == 5 {
        proof { reveal_strlit("5"); }
        out.append("5");
    } else if nibble == 6 {
        proof { reveal_strlit("6"); }
        out.append("6");
    } else if nibble == 7 {
        proof { reveal_strlit("7"); }
        out.append("7");
    } else if nibble == 8 {
        proof { reveal_strlit("8"); }
        out.append("8");
    } else if nibble == 9 {
        proof { reveal_strlit("9"); }
        out.append("9");
    } else if nibble == 10 {
        proof { reveal_strlit("a"); }
        out.append("a");
    } else if nibble == 11 {
        proof { reveal_strlit("b"); }
        out.append("b");
    } else if nibble == 12 {
        proof { reveal_strlit("c"); }
        out.append("c");
    } else if nibble == 13 {
        proof { reveal_strlit("d"); }
        out.append("d");
    } else if nibble == 14 {
        proof { reveal_strlit("e"); }
        out.append("e");
    } else {
        proof { reveal_strlit("f"); }
        out.append("f");
    }
    proof {
        assert(final(out)@ =~= old(out)@.push(hex_char_of(nibble as int)));
    }
}

/// The rejection message for a string that is not a color.
fn error_message(s: &str) -> (r: String)
    ensures
        r@ == s@ + " is not a valid color"@,
{
    let mut m = s.to_owned();
    m.append(" is not a valid color");
    m
}

impl Rgb {
    /// The canonical `#rrggbb` string of this color, in lower case.
    pub fn hex_string(&self) -> (r: String)
        ensures
            r@ == spec_hex_string(*self),
    {
        let mut out = String::new();
        proof { reveal_strlit("#"); }
        out.append("#");
        append_hex_digit(&mut out, self.red / 16);
        append_hex_digit(&mut out, self.red % 16);
        append_hex_digit(&mut out, self.green / 16);
        append_hex_digit(&mut out, self.green % 16);
        append_hex_digit(&mut out, self.blue / 16);
        append_hex_digit(&mut out, self.blue % 16);
        proof {
            assert(out@ =~= spec_hex_string(*self));
        }
        out
    }

    /// Parses a `#rrggbb` string. Returns `Ok` exactly on well-formed color
    /// strings, and otherwise an error naming the rejected input.
    pub fn from_hex_str(s: &str) -> (r: Result<Rgb, String>)
        ensures
            r is Ok <==> valid_hex_color(s@),
            r is Ok ==> r->Ok_0 == spec_parse_color(s@),
            r is Err ==> r->Err_0@ == s@ + " is not a valid color"@,
    {
        let n = s.unicode_len();
        if n != 7 {
            return Err(error_message(s));
        }
        if s.get_char(0) != '#' {
            return Err(error_message(s));
        }
        let start: usize = if s.get_char(1) == '+' { 2 } else { 1 };
        let mut value: u32 = 0;
        let mut i: usize = start;
        while i < 7
            invariant
                s@.len() == 7,
                s@[0] == '#',
                1 <= start <= 2,
                start == 2 ==> s@[1] == '+',
                start == 1 ==> s@[1] != '+',
                start <= i <= 7,
                forall|j: int| start <= j < i ==> is_hex_digit(#[trigger] s@[j]),
                value as int == hex_value(s@.subrange(start as int, i as int)),
                (value as int) < pow16((i - start) as nat),
            decreases 7 - i,
        {
            let c = s.get_char(i);
            match hex_digit_value(c) {
                Some(d) => {
                    proof {
                        lemma_pow16_monotone((i - start) as nat, 5);
                        assert(pow16(0) == 1);
                        assert(pow16(1) == 16);
                        assert(pow16(2) == 0x100);
                        assert(pow16(3) == 0x1000);
                        assert(pow16(4) == 0x10000);
                        assert(pow16(5) == 0x100000);
                        lemma_hex_value_step(s@, start as int, i as int);
                    }
                    value = value * 16 + d as u32;
                }
                None => {
                    proof {
                        lemma_invalid_digit(s@, start as int, i as int);
                    }
                    return Err(error_message(s));
                }
            }
            i = i + 1;
        }
        proof {
            lemma_digits_seen(s@, start as int);
        }
        let red = ((value / 0x10000) % 0x100) as u8;
        let green = ((value / 0x100) % 0x100) as u8;
        let blue = (value % 0x100) as u8;
        Ok(Rgb { red, green, blue })
    }
}

/// The serializer's digit characters are digits, and carry their value.
proof fn lemma_hex_char_val(v: int)
    requires
        0 <= v < 16,
    ensures
        is_lower_hex_digit(hex_char_of(v)),
        is_hex_digit(hex_char_of(v)),
        hex_digit_val(hex_char_of(v)) == v,
        hex_char_of(v) != '+',
{
}

/// On the digits the serializer emits, serialization inverts digit value.
proof fn lemma_hex_char_inverse(c: char)
    requires
        is_lower_hex_digit(c),
    ensures
        is_hex_digit(c),
        0 <= hex_digit_val(c) < 16,
        hex_char_of(hex_digit_val(c)) == c,
{
}

/// The value of six digit characters, written out positionally.
proof fn lemma_hex_value_6(d: Seq<char>)
    requires
        d.len() == 6,
    ensures
        hex_value(d) == ((((hex_digit_val(d[0]) * 16 + hex_digit_val(d[1])) * 16 + hex_digit_val(
            d[2],
        )) * 16 + hex_digit_val(d[3])) * 16 + hex_digit_val(d[4])) * 16 + hex_digit_val(d[5]),
{
    let d5 = d.drop_last();
    let d4 = d5.drop_last();
    let d3 = d4.drop_last();
    let d2 = d3.drop_last();
    let d1 = d2.drop_last();
    let d0 = d1.drop_last();
    assert(d.last() == d[5] && d5.last() == d[4] && d4.last() == d[3] && d3.last() == d[2]
        && d2.last() == d[1] && d1.last() == d[0]);
    assert(d0.len() == 0);
    assert(hex_value(d0) == 0);
    assert(hex_value(d1) == hex_value(d0) * 16 + hex_digit_val(d[0]));
    assert(hex_value(d2) == hex_value(d1) * 16 + hex_digit_val(d[1]));
    assert(hex_value(d3) == hex_value(d2) * 16 + hex_digit_val(d[2]));
    assert(hex_value(d4) == hex_value(d3) * 16 + hex_digit_val(d[3]));
    assert(hex_value(d5) == hex_value(d4) * 16 + hex_digit_val(d[4]));
    assert(hex_value(d) == hex_value(d5) * 16 + hex_digit_val(d[5]));
}

/// A channel byte decomposes into its two digit values.
proof fn lemma_byte_digits(b: u8)
    ensures
        0 <= b as int / 16 < 16,
        0 <= b as int % 16 < 16,
        (b as int / 16) * 16 + b as int % 16 == b as int,
{
}

/// The three channels are recovered from the six-digit value.
proof fn lemma_value_to_channels(red: int, green: int, blue: int)
    requires
        0 <= red < 0x100,
        0 <= green < 0x100,
        0 <= blue < 0x100,
    ensures
        ((red * 0x10000 + green * 0x100 + blue) / 0x10000) % 0x100 == red,
        ((red * 0x10000 + green * 0x100 + blue) / 0x100) % 0x100 == green,
        (red * 0x10000 + green * 0x100 + blue) % 0x100 == blue,
{
    let v = red * 0x10000 + green * 0x100 + blue;
    vstd::arithmetic::div_mod::lemma_fundamental_div_mod_converse(
        v,
        0x10000,
        red,
        green * 0x100 + blue,
    );
    vstd::arithmetic::div_mod::lemma_fundamental_div_mod_converse(
        v,
        0x100,
        red * 0x100 + green,
        blue,
    );
    vstd::arithmetic::div_mod::lemma_fundamental_div_mod_converse(
        red * 0x100 + green,
        0x100,
        red,
        green,
    );
}

/// Serializing a color always yields a well-formed color string, and parsing
/// that string yields the same color again: the codec round-trips from any
/// color representable as 8-bit channels.
pub proof fn lemma_hex_round_trip(c: Rgb)
    ensures
        valid_hex_color(spec_hex_string(c)),
        spec_parse_color(spec_hex_string(c)) == c,
{
    let s = spec_hex_string(c);
    let r1 = c.red as int / 16;
    let r2 = c.red as int % 16;
    let g1 = c.green as int / 16;
    let g2 = c.green as int % 16;
    let b1 = c.blue as int / 16;
    let b2 = c.blue as int % 16;
    lemma_byte_digits(c.red);
    lemma_byte_digits(c.green);
    lemma_byte_digits(c.blue);
    assert(s.len() == 7);
    assert(s[0] == '#');
    assert(s[1] == hex_char_of(r1) && s[2] == hex_char_of(r2) && s[3] == hex_char_of(g1) && s[4]
        == hex_char_of(g2) && s[5] == hex_char_of(b1) && s[6] == hex_char_of(b2));
    lemma_hex_char_val(r1);
    lemma_hex_char_val(r2);
    lemma_hex_char_val(g1);
    lemma_hex_char_val(g2);
    lemma_hex_char_val(b1);
    lemma_hex_char_val(b2);
    let tail = s.subrange(1, 7);
    assert(hex_digits_of(tail) == tail);
    assert(forall|i: int| 0 <= i < 6 ==> is_hex_digit(#[trigger] tail[i]));
    lemma_hex_value_6(tail);
    let v = hex_value(tail);
    assert(v == ((((r1 * 16 + r2) * 16 + g1) * 16 + g2) * 16 + b1) * 16 + b2);
    assert(v == c.red as int * 0x10000 + c.green as int * 0x100 + c.blue as int);
    lemma_value_to_channels(c.red as int, c.green as int, c.blue as int);
    assert(hex_color_value(s) == v);
}

/// Parsing a canonical color string (lower-case digits, no sign) and
/// serializing the result yields the string itself: the codec round-trips
/// on exactly the strings it emits.
pub proof fn lemma_hex_canonical_round_trip(s: Seq<char>)
    requires
        s.len() == 7,
        s[0] == '#',
        forall|i: int| 1 <= i < 7 ==> is_lower_hex_digit(#[trigger] s[i]),
    ensures
        valid_hex_color(s),
        spec_hex_string(spec_parse_color(s)) == s,
{
    let tail = s.subrange(1, 7);
    assert forall|i: int| 0 <= i < 6 implies is_hex_digit(#[trigger] tail[i])
        && 0 <= hex_digit_val(tail[i]) < 16 && hex_char_of(hex_digit_val(tail[i])) == tail[i] by {
        assert(tail[i] == s[i + 1]);
        lemma_hex_char_inverse(tail[i]);
    }
    assert(tail[0] != '+');
    assert(hex_digits_of(tail) == tail);
    lemma_hex_value_6(tail);
    let d1 = hex_digit_val(tail[0]);
    let d2 = hex_digit_val(tail[1]);
    let d3 = hex_digit_val(tail[2]);
    let d4 = hex_digit_val(tail[3]);
    let d5 = hex_digit_val(tail[4]);
    let d6 = hex_digit_val(tail[5]);
    let v = hex_value(tail);
    let red = d1 * 16 + d2;
    let green = d3 * 16 + d4;
    let blue = d5 * 16 + d6;
    assert(v == red * 0x10000 + green * 0x100 + blue);
    lemma_value_to_channels(red, green, blue);
    let c = spec_parse_color(s);
    assert(c.red == red && c.green == green && c.blue == blue);
    vstd::arithmetic::div_mod::lemma_fundamental_div_mod_converse(red, 16, d1, d2);
    vstd::arithmetic::div_mod::lemma_fundamental_div_mod_converse(green, 16, d3, d4);
    vstd::arithmetic::div_mod::lemma_fundamental_div_mod_converse(blue, 16, d5, d6);
    assert(spec_hex_string(c) =~= s);
}

/// Sixteen to the power `n`.
pub open spec fn pow16(n: nat) -> int
    decreases n,
{
    if n == 0 {
        1
    } else {
        16 * pow16((n - 1) as nat)
    }
}

proof fn lemma_pow16_monotone(a: nat, b: nat)
    requires
        a <= b,
    ensures
        pow16(a) <= pow16(b),
        pow16(a) >= 1,
    decreases b,
{
    if a < b {
        lemma_pow16_monotone(a, (b - 1) as nat);
    } else if b > 0 {
        lemma_pow16_monotone((a - 1) as nat, (b - 1) as nat);
    }
}

/// Consuming one more digit multiplies the value so far by sixteen and adds
/// the digit.
proof fn lemma_hex_value_step(s: Seq<char>, start: int, i: int)
    requires
        0 <= start <= i < s.len(),
    ensures
        hex_value(s.subrange(start, i + 1)) == hex_value(s.subrange(start, i)) * 16
            + hex_digit_val(s[i]),
{
    let longer = s.subrange(start, i + 1);
    assert(longer.drop_last() =~= s.subrange(start, i));
    assert(longer.last() == s[i]);
}

/// A non-digit among the digit positions refutes well-formedness.
proof fn lemma_invalid_digit(s: Seq<char>, start: int, i: int)
    requires
        s.len() == 7,
        1 <= start <= 2,
        start == 2 ==> s[1] == '+',
        start == 1 ==> s[1] != '+',
        start <= i < 7,
        !is_hex_digit(s[i]),
    ensures
        !valid_hex_color(s),
{
    if valid_hex_color(s) {
        let tail = s.subrange(1, 7);
        let digits = hex_digits_of(tail);
        if start == 2 {
            assert(tail[0] == '+');
            assert(digits =~= s.subrange(2, 7));
            assert(digits[i - 2] == s[i]);
            assert(is_hex_digit(digits[i - 2]));
        } else {
            assert(digits =~= s.subrange(1, 7));
            assert(digits[i - 1] == s[i]);
            assert(is_hex_digit(digits[i - 1]));
        }
        assert(false);
    }
}

/// After the whole loop the digits span exactly what `parses_as_hex` and
/// `hex_color_value` speak of.
proof fn lemma_digits_seen(s: Seq<char>, start: int)
    requires
        s.len() == 7,
        s[0] == '#',
        1 <= start <= 2,
        start == 2 ==> s[1] == '+',
        start == 1 ==> s[1] != '+',
        forall|j: int| start <= j < 7 ==> is_hex_digit(#[trigger] s[j]),
    ensures
        valid_hex_color(s),
        hex_color_value(s) == hex_value(s.subrange(start, 7)),
{
    let tail = s.subrange(1, 7);
    if start == 2 {
        assert(tail[0] == '+');
        assert(hex_digits_of(tail) =~= s.subrange(2, 7));
    } else {
        assert(hex_digits_of(tail) =~= s.subrange(1, 7));
    }
}

} // verus!
