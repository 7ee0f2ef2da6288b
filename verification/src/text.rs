//! Small string routines: comparison, joining and the rendering of numbers.

use vstd::prelude::*;
use vstd::string::StringSliceAdditionalSpecFns;
use vstd::utf8::encode_utf8_decode_utf8;

verus! {

/// Whether two string slices hold the same characters.
pub fn str_eq(a: &str, b: &str) -> (result: bool)
    ensures
        result == (a@ == b@),
{
    let x = a.as_bytes();
    let y = b.as_bytes();
    if x.len() != y.len() {
        return false;
    }
    let mut i: usize = 0;
    while i < x.len()
        invariant
            i <= x@.len(),
            x@.len() == y@.len(),
            x@ == a.spec_bytes(),
            y@ == b.spec_bytes(),
            forall|k: int| 0 <= k < i ==> x@[k] == y@[k],
        decreases x@.len() - i,
    {
        if x[i] != y[i] {
            return false;
        }
        i += 1;
    }
    proof {
        assert(x@ =~= y@);
        encode_utf8_decode_utf8(a@);
        encode_utf8_decode_utf8(b@);
    }
    true
}

/// The views of a sequence of string slices.
pub open spec fn views(parts: Seq<&str>) -> Seq<Seq<char>> {
    parts.map_values(|s: &str| s@)
}

/// The parts written one after another with `sep` between neighbours.
pub open spec fn joined(parts: Seq<Seq<char>>, sep: Seq<char>) -> Seq<char>
    decreases parts.len(),
{
    if parts.len() == 0 {
        Seq::empty()
    } else if parts.len() == 1 {
        parts[0]
    } else {
        joined(parts.drop_last(), sep) + sep + parts.last()
    }
}

/// Joins the parts with `sep` between neighbours.
pub fn join(parts: &Vec<&str>, sep: &str) -> (result: String)
    ensures
        result@ == joined(views(parts@), sep@),
{
    let mut out = String::new();
    let mut i: usize = 0;
    while i < parts.len()
        invariant
            i <= parts@.len(),
            out@ == joined(views(parts@).take(i as int), sep@),
        decreases parts@.len() - i,
    {
        let ghost before = views(parts@).take(i as int);
        let ghost after = views(parts@).take(i + 1);
        proof {
            assert(after.drop_last() =~= before);
            assert(after.last() == parts@[i as int]@);
        }
        if i > 0 {
            out.append(sep);
        }
        out.append(parts[i]);
        proof {
            if i == 0 {
                assert(out@ =~= after[0]);
            }
        }
        i += 1;
    }
    proof {
        assert(views(parts@).take(parts@.len() as int) =~= views(parts@));
    }
    out
}

/// The character that stands for a digit value below sixteen: `0` to `9`,
/// then `a` to `f`.
pub open spec fn digit_char(d: int) -> char {
    seq!['0', '1', '2', '3', '4', '5', '6', '7', '8', '9', 'a', 'b', 'c', 'd', 'e', 'f'][d]
}

/// The digits of `n` in the given radix, most significant first, without
/// leading zeros; zero is the single digit `0`.
pub open spec fn digits_of(n: nat, radix: nat) -> Seq<char>
    decreases n,
    via digits_of_decreases
{
    if n < radix || radix < 2 {
        seq![digit_char(n as int)]
    } else {
        digits_of(n / radix, radix).push(digit_char((n % radix) as int))
    }
}

#[via_fn]
proof fn digits_of_decreases(n: nat, radix: nat) {
    assert(radix >= 2 && n >= radix ==> n / radix < n) by (nonlinear_arith);
}

/// The lower-case hexadecimal digits of `n`.
pub open spec fn hex_digits(n: nat) -> Seq<char> {
    digits_of(n, 16)
}

/// The decimal form of an integer, with `-` in front of a negative one.
pub open spec fn decimal(i: int) -> Seq<char> {
    if i < 0 {
        seq!['-'] + digits_of((-i) as nat, 10)
    } else {
        digits_of(i as nat, 10)
    }
}

/// `s` with blanks in front until it is `width` characters long.
pub open spec fn padded_left(s: Seq<char>, width: nat) -> Seq<char> {
    if s.len() >= width {
        s
    } else {
        Seq::new((width - s.len()) as nat, |i: int| ' ') + s
    }
}

fn digit_str(d: u32) -> (result: &'static str)
    requires
        d < 16,
    ensures
        result@ == seq![digit_char(d as int)],
{
    let s = if d == 0 {
        "0"
    } else if d == 1 {
        "1"
    } else if d == 2 {
        "2"
    } else if d == 3 {
        "3"
    } else if d == 4 {
        "4"
    } else if d == 5 {
        "5"
    } else if d == 6 {
        "6"
    } else if d == 7 {
        "7"
    } else if d == 8 {
        "8"
    } else if d == 9 {
        "9"
    } else if d == 10 {
        "a"
    } else if d == 11 {
        "b"
    } else if d == 12 {
        "c"
    } else if d == 13 {
        "d"
    } else if d == 14 {
        "e"
    } else {
        "f"
    };
    proof {
        reveal_strlit("0");
        reveal_strlit("1");
        reveal_strlit("2");
        reveal_strlit("3");
        reveal_strlit("4");
        reveal_strlit("5");
        reveal_strlit("6");
        reveal_strlit("7");
        reveal_strlit("8");
        reveal_strlit("9");
        reveal_strlit("a");
        reveal_strlit("b");
        reveal_strlit("c");
        reveal_strlit("d");
        reveal_strlit("e");
        reveal_strlit("f");
        assert(s@ =~= seq![digit_char(d as int)]);
    }
    s
}

/// Renders `n` in the given radix without leading zeros.
fn to_digits(n: u32, radix: u32) -> (result: String)
    requires
        2 <= radix <= 16,
    ensures
        result@ == digits_of(n as nat, radix as nat),
    decreases n,
{
    if n < radix {
        String::from_str(digit_str(n))
    } else {
        assert(n / radix < n) by (nonlinear_arith)
            requires
                radix >= 2,
                n >= radix,
        ;
        let mut out = to_digits(n / radix, radix);
        out.append(digit_str(n % radix));
        out
    }
}

/// Renders `n` in lower-case hexadecimal without leading zeros.
pub fn to_hex(n: u16) -> (result: String)
    ensures
        result@ == hex_digits(n as nat),
{
    to_digits(n as u32, 16)
}

/// Renders an integer in decimal, with `-` in front of a negative one.
pub fn to_decimal(i: i32) -> (result: String)
    ensures
        result@ == decimal(i as int),
{
    if i < 0 {
        let magnitude: u32 = (-(i as i64)) as u32;
        let mut out = String::from_str("-");
        let digits = to_digits(magnitude, 10);
        out.append(digits.as_str());
        proof {
            reveal_strlit("-");
            assert(out@ =~= decimal(i as int));
        }
        out
    } else {
        to_digits(i as u32, 10)
    }
}

/// How many hexadecimal digits a 16-bit value has.
pub proof fn lemma_hex_digits_len(n: nat)
    ensures
        n < 0x10 ==> hex_digits(n).len() == 1,
        0x10 <= n < 0x100 ==> hex_digits(n).len() == 2,
        0x100 <= n < 0x1000 ==> hex_digits(n).len() == 3,
        0x1000 <= n < 0x10000 ==> hex_digits(n).len() == 4,
{
    reveal_with_fuel(digits_of, 5);
}

/// Renders `n` in lower-case hexadecimal, right-aligned with blanks in a
/// field of four characters.
pub fn to_hex_width4(n: u16) -> (result: String)
    ensures
        result@ == padded_left(hex_digits(n as nat), 4),
{
    let blanks: usize = if n < 0x10 {
        3
    } else if n < 0x100 {
        2
    } else if n < 0x1000 {
        1
    } else {
        0
    };
    proof {
        lemma_hex_digits_len(n as nat);
    }
    let mut out = String::new();
    let mut i: usize = 0;
    while i < blanks
        invariant
            i <= blanks,
            out@ == Seq::new(i as nat, |k: int| ' '),
        decreases blanks - i,
    {
        out.append(" ");
        proof {
            reveal_strlit(" ");
            assert(out@ =~= Seq::new((i + 1) as nat, |k: int| ' '));
        }
        i += 1;
    }
    let digits = to_hex(n);
    out.append(digits.as_str());
    proof {
        assert(out@ =~= padded_left(hex_digits(n as nat), 4));
    }
    out
}

} // verus!
