//! The options of a measurement: the unit of the result, the wanted stream
//! identifiers and the source.

use vstd::prelude::*;
use std::num::ParseIntError;
use crate::text::{decimal, digit_char, digits_of, hex_digits, join, joined, str_eq, views};

verus! {

const MILLI: &'static str = "milli";

const MICRO: &'static str = "micro";

const INT_MILLI: &'static str = "int-milli";

const INT_MICRO: &'static str = "int-micro";

const REAL: &'static str = "real";

const REAL_MILLI: &'static str = "real-milli";

const REAL_MICRO: &'static str = "real-micro";

const RAW: &'static str = "raw";

/// The unit and the number form in which a delay is shown.
#[derive(Clone, Copy, Debug, PartialEq, Eq, Structural)]
pub enum Format {
    /// Whole milliseconds.
    Milli,
    /// Whole microseconds.
    Micro,
    /// Seconds, as a real number.
    Real,
    /// Milliseconds, as a real number.
    RealMilli,
    /// Microseconds, as a real number.
    RealMicro,
    /// Clock ticks.
    Raw,
}

/// The lower-case form of a string, as `str::to_lowercase` computes it.
pub uninterp spec fn lowercase_of(s: Seq<char>) -> Seq<char>;

/// Calls `str::to_lowercase`.  The result is the lower-case equivalent of the
/// argument as Unicode defines it, a function of the characters alone; the
/// contract gives that function a name and says nothing further about it.
#[verifier::external_body]
fn to_lowercase(s: &str) -> (result: String)
    ensures
        result@ == lowercase_of(s@),
{
    s.to_lowercase()
}

impl Format {
    /// The name of the format.
    pub open spec fn name(self) -> Seq<char> {
        match self {
            Format::Milli => "milli"@,
            Format::Micro => "micro"@,
            Format::Real => "real"@,
            Format::RealMilli => "real-milli"@,
            Format::RealMicro => "real-micro"@,
            Format::Raw => "raw"@,
        }
    }

    /// The names of all formats, in the order in which they are offered.
    pub open spec fn names() -> Seq<Seq<char>> {
        seq![
            "milli"@,
            "micro"@,
            "real"@,
            "real-milli"@,
            "real-micro"@,
            "raw"@,
        ]
    }

    /// The format that a lower-case name stands for.  Besides the names of
    /// the formats, `int-milli` and `int-micro` stand for whole milliseconds
    /// and whole microseconds.
    pub open spec fn named(name: Seq<char>) -> Option<Format> {
        if name == "milli"@ || name == "int-milli"@ {
            Some(Format::Milli)
        } else if name == "micro"@ || name == "int-micro"@ {
            Some(Format::Micro)
        } else if name == "real"@ {
            Some(Format::Real)
        } else if name == "real-milli"@ {
            Some(Format::RealMilli)
        } else if name == "real-micro"@ {
            Some(Format::RealMicro)
        } else if name == "raw"@ {
            Some(Format::Raw)
        } else {
            None
        }
    }

    /// The message for a name that stands for no format.
    pub open spec fn possible_values_message() -> Seq<char> {
        "possible values: "@ + joined(Format::names(), ", "@)
    }

    /// The name of the format.
    pub fn to_str(&self) -> (result: &'static str)
        ensures
            result@ == self.name(),
    {
        match self {
            Format::Milli => MILLI,
            Format::Micro => MICRO,
            Format::Real => REAL,
            Format::RealMilli => REAL_MILLI,
            Format::RealMicro => REAL_MICRO,
            Format::Raw => RAW,
        }
    }

    /// The names of all formats, in the order in which they are offered.
    pub fn variants() -> (result: Vec<&'static str>)
        ensures
            views(result@) == Format::names(),
    {
        let names = vec![MILLI, MICRO, REAL, REAL_MILLI, REAL_MICRO, RAW];
        proof {
            assert(views(names@) =~= Format::names());
        }
        names
    }

    /// The format that a lower-case name stands for, or the message that
    /// lists the possible names.
    pub fn from_name(name: &str) -> (result: Result<Format, String>)
        ensures
            match result {
                Ok(format) => Format::named(name@) == Some(format),
                Err(msg) => Format::named(name@) is None && msg@
                    == Format::possible_values_message(),
            },
    {
        if str_eq(name, MILLI) || str_eq(name, INT_MILLI) {
            Ok(Format::Milli)
        } else if str_eq(name, MICRO) || str_eq(name, INT_MICRO) {
            Ok(Format::Micro)
        } else if str_eq(name, REAL) {
            Ok(Format::Real)
        } else if str_eq(name, REAL_MILLI) {
            Ok(Format::RealMilli)
        } else if str_eq(name, REAL_MICRO) {
            Ok(Format::RealMicro)
        } else if str_eq(name, RAW) {
            Ok(Format::Raw)
        } else {
            let mut msg = String::from_str("possible values: ");
            let names = Format::variants();
            let list = join(&names, ", ");
            msg.append(list.as_str());
            Err(msg)
        }
    }

    /// The format that a name stands for, whatever the case of its letters.
    pub fn from_str(s: &str) -> (result: Result<Format, String>)
        ensures
            match result {
                Ok(format) => Format::named(lowercase_of(s@)) == Some(format),
                Err(msg) => Format::named(lowercase_of(s@)) is None && msg@
                    == Format::possible_values_message(),
            },
    {
        let lower = to_lowercase(s);
        Format::from_name(lower.as_str())
    }
}

/// The name of every format stands for that format, and the names
/// `int-milli` and `int-micro` stand for whole milliseconds and whole
/// microseconds.
pub proof fn lemma_name_round_trip(format: Format)
    ensures
        Format::named(format.name()) == Some(format),
        Format::named("int-milli"@) == Some(Format::Milli),
        Format::named("int-micro"@) == Some(Format::Micro),
{
    reveal_strlit("milli");
    reveal_strlit("int-milli");
    reveal_strlit("micro");
    reveal_strlit("int-micro");
    reveal_strlit("real");
    reveal_strlit("real-milli");
    reveal_strlit("real-micro");
    reveal_strlit("raw");
    assert("milli"@.len() == 5 && "milli"@[1] == 'i');
    assert("micro"@.len() == 5 && "micro"@[2] == 'c');
    assert("int-milli"@.len() == 9 && "int-milli"@[6] == 'l');
    assert("int-micro"@.len() == 9 && "int-micro"@[6] == 'c');
    assert("real"@.len() == 4);
    assert("real-milli"@.len() == 10 && "real-milli"@[7] == 'l');
    assert("real-micro"@.len() == 10 && "real-micro"@[7] == 'c');
    assert("raw"@.len() == 3);
}

/// The value of a character as a digit in the given radix: `0` to `9` count
/// zero to nine, the letters `a` to `z`, in either case, ten to thirty-five.
/// A character that is no digit of the radix has no value.
pub open spec fn digit_value(c: char, radix: int) -> Option<int> {
    let code = c as u32 as int;
    let value = if 0x30 <= code <= 0x39 {
        code - 0x30
    } else if 0x61 <= code <= 0x7a {
        code - 0x61 + 10
    } else if 0x41 <= code <= 0x5a {
        code - 0x41 + 10
    } else {
        radix
    };
    if value < radix {
        Some(value)
    } else {
        None
    }
}

/// The number that a non-empty run of digits denotes in the given radix.
pub open spec fn digits_value(digits: Seq<char>, radix: int) -> Option<int>
    decreases digits.len(),
{
    if digits.len() == 0 {
        None
    } else {
        match digit_value(digits.last(), radix) {
            None => None,
            Some(low) => if digits.len() == 1 {
                Some(low)
            } else {
                match digits_value(digits.drop_last(), radix) {
                    None => None,
                    Some(high) => Some(high * radix + low),
                }
            },
        }
    }
}

/// The 16-bit number that a string denotes in the given radix: an optional
/// `+`, then one digit or more and nothing else, of a value that fits.
pub open spec fn parsed_u16(s: Seq<char>, radix: int) -> Option<u16> {
    let digits = if s.len() > 0 && s[0] == '+' {
        s.drop_first()
    } else {
        s
    };
    match digits_value(digits, radix) {
        Some(value) => if value <= u16::MAX {
            Some(value as u16)
        } else {
            None
        },
        None => None,
    }
}

/// The error of `u16::from_str_radix`, which the crate hands on unread.
#[verifier::external_type_specification]
#[verifier::external_body]
pub struct ExParseIntError(std::num::ParseIntError);

/// Calls `u16::from_str_radix`, which panics unless the radix lies between 2
/// and 36.  It accepts an optional `+` followed by digits of the radix and
/// nothing else, and fails on an empty string, on any other character and on
/// a value above `u16::MAX`: the call succeeds exactly where [`parsed_u16`]
/// has a value, and returns that value.
#[verifier::external_body]
fn u16_from_str_radix(s: &str, radix: u32) -> (result: Result<u16, ParseIntError>)
    requires
        2 <= radix <= 36,
    ensures
        match result {
            Ok(value) => parsed_u16(s@, radix as int) == Some(value),
            Err(_) => parsed_u16(s@, radix as int) is None,
        },
{
    u16::from_str_radix(s, radix)
}

/// Whether a string starts with `0x`.
pub open spec fn has_hex_prefix(s: Seq<char>) -> bool {
    s.len() >= 2 && s[0] == '0' && s[1] == 'x'
}

/// Whether a 16-bit number is a stream identifier: its three topmost bits
/// are zero.
pub open spec fn is_pid(value: u16) -> bool {
    value & 0xe000 == 0
}

/// The stream identifier that a string denotes: a hexadecimal number after
/// `0x`, else a decimal number, of at most 13 bits.
pub open spec fn parsed_pid(s: Seq<char>) -> Option<u16> {
    let number = if has_hex_prefix(s) {
        parsed_u16(s.skip(2), 16)
    } else {
        parsed_u16(s, 10)
    };
    match number {
        Some(value) => if is_pid(value) {
            Some(value)
        } else {
            None
        },
        None => None,
    }
}

/// The stream identifiers are the numbers up to `0x1fff`.
pub proof fn lemma_is_pid_range(value: u16)
    ensures
        is_pid(value) <==> value <= 0x1fff,
{
    assert(value & 0xe000 == 0 <==> value <= 0x1fff) by (bit_vector);
}

/// Every digit character is a digit of its own value, and is no sign and no
/// letter `x`.
pub proof fn lemma_digit_char_value(d: int, radix: int)
    requires
        0 <= d < radix <= 16,
    ensures
        digit_value(digit_char(d), radix) == Some(d),
        digit_char(d) != '+',
        digit_char(d) != 'x',
{
    let digits = seq!['0', '1', '2', '3', '4', '5', '6', '7', '8', '9', 'a', 'b', 'c', 'd', 'e', 'f'];
    assert(digits[0] == '0' && digits[1] == '1' && digits[2] == '2' && digits[3] == '3');
    assert(digits[4] == '4' && digits[5] == '5' && digits[6] == '6' && digits[7] == '7');
    assert(digits[8] == '8' && digits[9] == '9' && digits[10] == 'a' && digits[11] == 'b');
    assert(digits[12] == 'c' && digits[13] == 'd' && digits[14] == 'e' && digits[15] == 'f');
}

/// A number rendered in a radix is read back in that radix: its digits are
/// digit characters, and they denote the number.
pub proof fn lemma_digits_round_trip(n: nat, radix: nat)
    requires
        2 <= radix <= 16,
    ensures
        digits_value(digits_of(n, radix), radix as int) == Some(n as int),
        digits_of(n, radix).len() >= 1,
        forall|i: int|
            0 <= i < digits_of(n, radix).len() ==> exists|d: int|
                0 <= d < radix && #[trigger] digits_of(n, radix)[i] == digit_char(d),
    decreases n,
{
    let rendered = digits_of(n, radix);
    if n < radix {
        lemma_digit_char_value(n as int, radix as int);
        assert(rendered[0] == digit_char(n as int));
    } else {
        let high = n / radix;
        let low = n % radix;
        assert(high < n && high * radix + low == n && high >= 1) by (nonlinear_arith)
            requires
                radix >= 2,
                n >= radix,
                high == n / radix,
                low == n % radix,
        ;
        lemma_digits_round_trip(high, radix);
        lemma_digit_char_value(low as int, radix as int);
        assert(rendered.drop_last() =~= digits_of(high, radix));
        assert(rendered.last() == digit_char(low as int));
        assert forall|i: int| 0 <= i < rendered.len() implies exists|d: int|
            0 <= d < radix && #[trigger] rendered[i] == digit_char(d) by {
            if i < rendered.len() - 1 {
                assert(rendered[i] == digits_of(high, radix)[i]);
            } else {
                assert(rendered[i] == digit_char(low as int));
            }
        }
    }
}

/// A stream identifier written in decimal, or in hexadecimal after `0x`, is
/// read back as that identifier.
pub proof fn lemma_pid_round_trip(pid: u16)
    requires
        pid <= 0x1fff,
    ensures
        parsed_pid(decimal(pid as int)) == Some(pid),
        parsed_pid("0x"@ + hex_digits(pid as nat)) == Some(pid),
{
    lemma_is_pid_range(pid);
    let dec = digits_of(pid as nat, 10);
    lemma_digits_round_trip(pid as nat, 10);
    let d0 = choose|d: int| 0 <= d < 10 && dec[0] == digit_char(d);
    lemma_digit_char_value(d0, 10);
    if dec.len() >= 2 {
        let d1 = choose|d: int| 0 <= d < 10 && dec[1] == digit_char(d);
        lemma_digit_char_value(d1, 10);
    }
    assert(!has_hex_prefix(dec));
    let hex = digits_of(pid as nat, 16);
    lemma_digits_round_trip(pid as nat, 16);
    let h0 = choose|d: int| 0 <= d < 16 && hex[0] == digit_char(d);
    lemma_digit_char_value(h0, 16);
    reveal_strlit("0x");
    let written = "0x"@ + hex;
    assert(has_hex_prefix(written));
    assert(written.skip(2) =~= hex);
}

proof fn lemma_too_large_for_u16()
    ensures
        parsed_u16("10000"@, 16) is None,
{
    reveal_strlit("10000");
    let s = "10000"@;
    assert(s.drop_last() =~= seq!['1', '0', '0', '0']);
    assert(s.drop_last().drop_last() =~= seq!['1', '0', '0']);
    assert(s.drop_last().drop_last().drop_last() =~= seq!['1', '0']);
    assert(s.drop_last().drop_last().drop_last().drop_last() =~= seq!['1']);
    reveal_with_fuel(digits_value, 6);
    assert(digits_value(s, 16) == Some(0x10000int));
}

/// Reads a stream identifier: a hexadecimal number after `0x`, else a
/// decimal number.  A number that is no stream identifier is refused with
/// the error of a number that does not fit into 16 bits.
pub fn parse_pid(s: &str) -> (result: Result<u16, ParseIntError>)
    ensures
        match result {
            Ok(pid) => parsed_pid(s@) == Some(pid),
            Err(_) => parsed_pid(s@) is None,
        },
        result matches Ok(pid) ==> pid <= 0x1fff,
{
    let len: usize = s.unicode_len();
    let number = if len >= 2 && s.get_char(0) == '0' && s.get_char(1) == 'x' {
        u16_from_str_radix(s.substring_char(2, len), 16)
    } else {
        u16_from_str_radix(s, 10)
    };
    let pid: u16 = match number {
        Ok(pid) => pid,
        Err(e) => {
            return Err(e);
        },
    };
    proof {
        lemma_is_pid_range(pid);
        lemma_too_large_for_u16();
    }
    if (pid & 0xe000) == 0 {
        Ok(pid)
    } else {
        u16_from_str_radix("10000", 16)
    }
}

/// The options of a measurement.
#[derive(Debug)]
pub struct Opt {
    format: Format,
    video_id: Option<u16>,
    audio_id: Option<u16>,
    drop_broken_audio: bool,
    source: String,
}

/// The options of a measurement as mathematical values.
pub struct OptView {
    /// The unit of the result.
    pub format: Format,
    /// The identifier wanted of the video stream.
    pub video_id: Option<u16>,
    /// The identifier wanted of the audio stream.
    pub audio_id: Option<u16>,
    /// Whether audio packets that the decoder rejects are passed over.
    pub drop_broken_audio: bool,
    /// Where the container is read from.
    pub source: Seq<char>,
}

impl View for Opt {
    type V = OptView;

    closed spec fn view(&self) -> OptView {
        OptView {
            format: self.format,
            video_id: self.video_id,
            audio_id: self.audio_id,
            drop_broken_audio: self.drop_broken_audio,
            source: self.source@,
        }
    }
}

impl Format {
    /// By how much a tick count is multiplied before it is divided by
    /// [`Format::scale_denominator`].
    pub open spec fn scale_numerator(self) -> int {
        match self {
            Format::Milli | Format::RealMilli => 1_000,
            Format::Micro | Format::RealMicro => 1_000_000,
            Format::Real | Format::Raw => 1,
        }
    }

    /// By how much a multiplied tick count is divided: the clock's rate of
    /// 90 000 ticks in a second, or one for a result in ticks.
    pub open spec fn scale_denominator(self) -> int {
        match self {
            Format::Raw => 1,
            _ => 90_000,
        }
    }

    /// Whether the result is shown as a real number.
    pub open spec fn shows_real(self) -> bool {
        self == Format::Real || self == Format::RealMilli || self == Format::RealMicro
    }
}

impl Opt {
    /// The options with the given values.
    pub fn new(
        format: Format,
        video_id: Option<u16>,
        audio_id: Option<u16>,
        drop_broken_audio: bool,
        source: String,
    ) -> (result: Opt)
        ensures
            result@ == (OptView {
                format,
                video_id,
                audio_id,
                drop_broken_audio,
                source: source@,
            }),
    {
        Opt { format, video_id, audio_id, drop_broken_audio, source }
    }

    /// The unit of the result.
    pub fn format(&self) -> (result: Format)
        ensures
            result == self@.format,
    {
        self.format
    }

    /// The identifier wanted of the video stream.
    pub fn video_id(&self) -> (result: Option<u16>)
        ensures
            result == self@.video_id,
    {
        self.video_id
    }

    /// The identifier wanted of the audio stream.
    pub fn audio_id(&self) -> (result: Option<u16>)
        ensures
            result == self@.audio_id,
    {
        self.audio_id
    }

    /// Where the container is read from.
    pub fn source(&self) -> (result: &str)
        ensures
            result@ == self@.source,
    {
        self.source.as_str()
    }

    /// Whether audio packets that the decoder rejects are passed over.
    pub fn drop_broken_audio(&self) -> (result: bool)
        ensures
            result == self@.drop_broken_audio,
    {
        self.drop_broken_audio
    }

    /// By how much a tick count is multiplied for the chosen format.
    pub fn numerator(&self) -> (result: i32)
        ensures
            result == self@.format.scale_numerator(),
    {
        match self.format {
            Format::Milli | Format::RealMilli => 1_000i32,
            Format::Micro | Format::RealMicro => 1_000_000i32,
            _ => 1i32,
        }
    }

    /// By how much a multiplied tick count is divided for the chosen format.
    pub fn denominator(&self) -> (result: i32)
        ensures
            result == self@.format.scale_denominator(),
    {
        match self.format {
            Format::Raw => 1i32,
            _ => 90_000i32,
        }
    }

    /// Whether the chosen format shows a real number.
    pub fn is_real(&self) -> (result: bool)
        ensures
            result == self@.format.shows_real(),
    {
        match self.format {
            Format::Real | Format::RealMicro | Format::RealMilli => true,
            _ => false,
        }
    }
}

} // verus!
