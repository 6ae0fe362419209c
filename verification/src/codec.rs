use vstd::prelude::*;

use crate::errors::TlpError;

verus! {

/// Whitespace as the codec strips it: space, tab, line feed, vertical tab,
/// form feed and carriage return.
pub open spec fn is_whitespace_char(c: char) -> bool {
    c as u32 == 32 || c as u32 == 9 || c as u32 == 10 || c as u32 == 11 || c as u32 == 12 || (c
        as u32) == 13
}

/// A hex digit, case-insensitive: `0`-`9`, `a`-`f` or `A`-`F`.
pub open spec fn is_hex_digit(c: char) -> bool {
    (48 <= c as u32 && c as u32 <= 57) || (97 <= c as u32 && c as u32 <= 102) || (65 <= c as u32
        && c as u32 <= 70)
}

/// The 4-bit value of a hex digit.
pub open spec fn hex_digit_value(c: char) -> u8
    recommends
        is_hex_digit(c),
{
    if 48 <= c as u32 && c as u32 <= 57 {
        (c as u32 - 48) as u8
    } else if 97 <= c as u32 && c as u32 <= 102 {
        (c as u32 - 87) as u8
    } else {
        (c as u32 - 55) as u8
    }
}

/// `s` with every whitespace character removed, order kept.
pub open spec fn strip_whitespace(s: Seq<char>) -> Seq<char>
    decreases s.len(),
{
    if s.len() == 0 {
        Seq::empty()
    } else {
        let rest = strip_whitespace(s.drop_last());
        if is_whitespace_char(s.last()) {
            rest
        } else {
            rest.push(s.last())
        }
    }
}

/// Every character of `s` is a hex digit.
pub open spec fn all_hex(s: Seq<char>) -> bool {
    forall|i: int| 0 <= i < s.len() ==> is_hex_digit(s[i])
}

/// The bytes an even-length digit string denotes: byte `i` pairs nibbles
/// `2*i` (high) and `2*i + 1` (low).
pub open spec fn paired_bytes(st: Seq<char>) -> Seq<u8>
    recommends
        all_hex(st),
{
    Seq::new(
        (st.len() / 2) as nat,
        |i: int|
            ((hex_digit_value(st[2 * i]) as nat) * 16 + (hex_digit_value(st[2 * i + 1]) as nat))
                as u8,
    )
}

/// Whether a character is codec whitespace.
fn whitespace_char(c: char) -> (r: bool)
    ensures
        r == is_whitespace_char(c),
{
    let u = c as u32;
    u == 32 || u == 9 || u == 10 || u == 11 || u == 12 || u == 13
}

/// The nibble a character denotes, or `None` for a non-hex character.
fn hex_value(c: char) -> (r: Option<u8>)
    ensures
        match r {
            Some(v) => is_hex_digit(c) && v == hex_digit_value(c) && v < 16,
            None => !is_hex_digit(c),
        },
{
    let u = c as u32;
    if 48 <= u && u <= 57 {
        Some((u - 48) as u8)
    } else if 97 <= u && u <= 102 {
        Some((u - 87) as u8)
    } else if 65 <= u && u <= 70 {
        Some((u - 55) as u8)
    } else {
        None
    }
}

/// Relies on `String::from_iter` over a character vector: the string built
/// from the characters holds exactly those characters, in order.
#[verifier::external_body]
fn chars_to_string(chars: Vec<char>) -> (r: String)
    ensures
        r@ == chars@,
{
    String::from_iter(chars)
}

/// The caller's parsed input: one TLP as raw bytes, decoded from a hex
/// string.
pub struct Config {
    /// The decoded packet bytes.
    pub input: Vec<u8>,
}

impl Config {
    /// Removes every whitespace character of `s`, keeping all others in
    /// order.
    pub fn remove_whitespace(s: &str) -> (r: String)
        ensures
            r@ == strip_whitespace(s@),
    {
        let mut kept: Vec<char> = Vec::new();
        for c in it: s.chars()
            invariant
                it.seq() == s@,
                kept@ == strip_whitespace(s@.take(it.index() as int)),
        {
            let ghost i = it.index() as int;
            if !whitespace_char(c) {
                kept.push(c);
            }
            proof {
                assert(s@.take(i + 1).drop_last() =~= s@.take(i));
                assert(s@.take(i + 1).last() == s@[i]);
            }
        }
        proof {
            assert(s@.take(s@.len() as int) =~= s@);
        }
        chars_to_string(kept)
    }

    /// Maps a string of bare hex digits (no whitespace allowed) to bytes.
    /// The first non-hex character fails the whole conversion with
    /// `InvalidHexCharacter`; an odd digit count fails with `OddLengthInput`
    /// before any byte is paired; otherwise consecutive digit pairs
    /// `(hi, lo)` become the bytes `hi * 16 + lo`, in input order.
    pub fn convert_to_vec(s: &str) -> (r: Result<Vec<u8>, TlpError>)
        ensures
            match r {
                Ok(b) => all_hex(s@) && s@.len() % 2 == 0 && b@ == paired_bytes(s@),
                Err(TlpError::InvalidHexCharacter(c, p)) => p < s@.len() && s@[p as int] == c
                    && !is_hex_digit(c) && (forall|j: int| 0 <= j < p ==> is_hex_digit(s@[j])),
                Err(TlpError::OddLengthInput(n)) => all_hex(s@) && n == s@.len() && s@.len() % 2
                    == 1,
                Err(_) => false,
            },
    {
        let mut nibbles: Vec<u8> = Vec::new();
        let mut bad: Option<(char, usize)> = None;
        for c in it: s.chars()
            invariant
                it.seq() == s@,
                match bad {
                    None => nibbles@.len() == it.index() && (forall|j: int|
                        0 <= j < it.index() ==> is_hex_digit(s@[j])) && (forall|j: int|
                        0 <= j < it.index() ==> nibbles@[j] == hex_digit_value(s@[j])
                            && nibbles@[j] < 16),
                    Some(cp) => cp.1 < it.index() && cp.1 < s@.len() && s@[cp.1 as int] == cp.0
                        && !is_hex_digit(cp.0) && (forall|j: int|
                        0 <= j < cp.1 ==> is_hex_digit(s@[j])),
                },
        {
            if bad.is_none() {
                match hex_value(c) {
                    Some(v) => {
                        nibbles.push(v);
                    },
                    None => {
                        bad = Some((c, nibbles.len()));
                    },
                }
            }
        }
        match bad {
            Some((c, p)) => Err(TlpError::InvalidHexCharacter(c, p)),
            None => {
                let n = nibbles.len();
                if n % 2 != 0 {
                    Err(TlpError::OddLengthInput(n))
                } else {
                    let mut out: Vec<u8> = Vec::new();
                    let mut i: usize = 0;
                    while i < n / 2
                        invariant
                            n == nibbles@.len(),
                            n == s@.len(),
                            n % 2 == 0,
                            i <= n / 2,
                            out@.len() == i,
                            forall|j: int|
                                0 <= j < n ==> nibbles@[j] == hex_digit_value(s@[j]) && nibbles@[j]
                                    < 16,
                            forall|j: int| 0 <= j < i ==> out@[j] == paired_bytes(s@)[j],
                        decreases n / 2 - i,
                    {
                        let hi = nibbles[2 * i];
                        let lo = nibbles[2 * i + 1];
                        out.push(hi * 16 + lo);
                        i = i + 1;
                    }
                    proof {
                        assert(out@ =~= paired_bytes(s@));
                    }
                    Ok(out)
                }
            },
        }
    }

    /// Decodes a hex string, ignoring interspersed whitespace, into the
    /// packet bytes it denotes; positions in `InvalidHexCharacter` count the
    /// non-whitespace characters.
    pub fn new(input: &str) -> (r: Result<Config, TlpError>)
        ensures
            ({
                let st = strip_whitespace(input@);
                match r {
                    Ok(cfg) => all_hex(st) && st.len() % 2 == 0 && cfg.input@ == paired_bytes(st),
                    Err(TlpError::InvalidHexCharacter(c, p)) => p < st.len() && st[p as int] == c
                        && !is_hex_digit(c) && (forall|j: int| 0 <= j < p ==> is_hex_digit(st[j])),
                    Err(TlpError::OddLengthInput(n)) => all_hex(st) && n == st.len() && st.len() % 2
                        == 1,
                    Err(_) => false,
                }
            }),
    {
        let stripped = Config::remove_whitespace(input);
        match Config::convert_to_vec(stripped.as_str()) {
            Ok(bytes) => Ok(Config { input: bytes }),
            Err(e) => Err(e),
        }
    }
}

/// Decodes a hex string (whitespace ignored) into bytes: the byte-codec
/// entry of the pipeline.
pub fn decode(text: &str) -> (r: Result<Vec<u8>, TlpError>)
    ensures
        ({
            let st = strip_whitespace(text@);
            match r {
                Ok(b) => all_hex(st) && st.len() % 2 == 0 && b@ == paired_bytes(st),
                Err(TlpError::InvalidHexCharacter(c, p)) => p < st.len() && st[p as int] == c
                    && !is_hex_digit(c) && (forall|j: int| 0 <= j < p ==> is_hex_digit(st[j])),
                Err(TlpError::OddLengthInput(n)) => all_hex(st) && n == st.len() && st.len() % 2
                    == 1,
                Err(_) => false,
            }
        }),
{
    match Config::new(text) {
        Ok(cfg) => Ok(cfg.input),
        Err(e) => Err(e),
    }
}

} // verus!
