//! Values as text: numbers in binary, decimal and hexadecimal notation, and
//! addresses as octets that are separated by one character.

use vstd::prelude::*;
use vstd::string::{StrSliceExecFns, StringExecFns};

verus! {

/// The character for the digit `n` below sixteen: `0` to `9`, then `a` to `f`.
pub open spec fn spec_digit_char(n: u8) -> char {
    if n < 10 {
        (n + 48) as char
    } else {
        (n + 87) as char
    }
}

/// An octet as two hexadecimal digits.
pub open spec fn spec_hex_octet(b: u8) -> Seq<char> {
    seq![spec_digit_char(b / 16), spec_digit_char(b % 16)]
}

/// A number in decimal notation, without leading zeros.
pub open spec fn spec_dec(n: nat) -> Seq<char>
    decreases n,
{
    if n < 10 {
        seq![spec_digit_char(n as u8)]
    } else {
        spec_dec(n / 10).push(spec_digit_char((n % 10) as u8))
    }
}

/// An octet as a decimal number without leading zeros.
pub open spec fn spec_dec_octet(b: u8) -> Seq<char> {
    spec_dec(b as nat)
}

/// An octet in decimal notation has one digit for each of its decimal
/// places.
pub proof fn lemma_dec_octet(b: u8)
    ensures
        spec_dec_octet(b) =~= (if b >= 100 {
            seq![spec_digit_char(b / 100), spec_digit_char(b / 10 % 10), spec_digit_char(b % 10)]
        } else if b >= 10 {
            seq![spec_digit_char(b / 10), spec_digit_char(b % 10)]
        } else {
            seq![spec_digit_char(b)]
        }),
{
    reveal_with_fuel(spec_dec, 3);
}

/// A number in hexadecimal notation, without leading zeros and with the
/// letters in lower case.
pub open spec fn spec_hex(n: nat) -> Seq<char>
    decreases n,
{
    if n < 16 {
        seq![spec_digit_char(n as u8)]
    } else {
        spec_hex(n / 16).push(spec_digit_char((n % 16) as u8))
    }
}

/// A number in binary notation, without leading zeros.
pub open spec fn spec_bin(n: nat) -> Seq<char>
    decreases n,
{
    if n < 2 {
        seq![spec_digit_char(n as u8)]
    } else {
        spec_bin(n / 2).push(spec_digit_char((n % 2) as u8))
    }
}

/// Bytes as a list of decimal numbers: in brackets, separated by a comma and
/// a space.
pub open spec fn spec_dec_list(bytes: Seq<u8>) -> Seq<char> {
    seq!['['] + spec_dec_items(bytes) + seq![']']
}

/// Bytes as decimal numbers that are separated by a comma and a space.
pub open spec fn spec_dec_items(bytes: Seq<u8>) -> Seq<char>
    decreases bytes.len(),
{
    if bytes.len() == 0 {
        Seq::<char>::empty()
    } else if bytes.len() == 1 {
        spec_dec(bytes[0] as nat)
    } else {
        spec_dec_items(bytes.drop_last()) + seq![',', ' '] + spec_dec(bytes.last() as nat)
    }
}

/// A line of text: what it is about, the value, and the end of the line.
pub open spec fn spec_line(label: Seq<char>, value: Seq<char>) -> Seq<char> {
    label + value + seq!['\n']
}

/// The value of the digit `c`: decimal digits always, and the letters `a` to
/// `f` in either case where hexadecimal digits are asked for.
pub open spec fn spec_digit(c: char, hex: bool) -> Option<u8> {
    let v = c as u32;
    if 48 <= v <= 57 {
        Some((v - 48) as u8)
    } else if hex && 97 <= v <= 102 {
        Some((v - 87) as u8)
    } else if hex && 65 <= v <= 70 {
        Some((v - 55) as u8)
    } else {
        None
    }
}

/// Whether `text` has a digit at position `at`.
pub open spec fn spec_has_digit(text: Seq<char>, at: int, hex: bool) -> bool {
    0 <= at < text.len() && spec_digit(text[at], hex) is Some
}

/// The octet that is written at position `at` of `text`, and the position
/// behind it. An octet is written with one or two hexadecimal digits, or
/// with one to three decimal digits that make a number up to 255.
pub open spec fn spec_field(text: Seq<char>, at: int, hex: bool) -> Option<(u8, int)> {
    if !spec_has_digit(text, at, hex) {
        None
    } else {
        let d0 = spec_digit(text[at], hex)->Some_0 as int;
        if !spec_has_digit(text, at + 1, hex) {
            Some((d0 as u8, at + 1))
        } else {
            let d1 = spec_digit(text[at + 1], hex)->Some_0 as int;
            if hex {
                Some(((d0 * 16 + d1) as u8, at + 2))
            } else if !spec_has_digit(text, at + 2, hex) {
                Some(((d0 * 10 + d1) as u8, at + 2))
            } else {
                let d2 = spec_digit(text[at + 2], hex)->Some_0 as int;
                if d0 * 100 + d1 * 10 + d2 > 255 {
                    None
                } else {
                    Some(((d0 * 100 + d1 * 10 + d2) as u8, at + 3))
                }
            }
        }
    }
}

/// The `count` octets that `text` holds from position `at` to its end,
/// separated by `sep`. There are none when anything else is written there.
pub open spec fn spec_octets(text: Seq<char>, at: int, count: nat, sep: char, hex: bool) -> Option<
    Seq<u8>,
>
    decreases count,
{
    if count == 0 {
        None
    } else {
        match spec_field(text, at, hex) {
            None => None,
            Some((octet, next)) => if count == 1 {
                if next == text.len() {
                    Some(seq![octet])
                } else {
                    None
                }
            } else if next < text.len() && text[next] == sep {
                match spec_octets(text, next + 1, (count - 1) as nat, sep, hex) {
                    Some(rest) => Some(seq![octet] + rest),
                    None => None,
                }
            } else {
                None
            },
        }
    }
}

/// The character of a digit is a digit of that value, and neither a colon
/// nor a dot is a digit.
pub proof fn lemma_digit_of_char(n: u8, hex: bool)
    requires
        n < 10 || (hex && n < 16),
    ensures
        spec_digit(spec_digit_char(n), hex) == Some(n),
        spec_digit(':', hex) is None,
        spec_digit('.', hex) is None,
{
}

/// An octet written with two hexadecimal digits is read as that octet.
pub proof fn lemma_field_of_hex_octet(text: Seq<char>, at: int, b: u8)
    requires
        0 <= at,
        at + 2 <= text.len(),
        text.subrange(at, at + 2) == spec_hex_octet(b),
    ensures
        spec_field(text, at, true) == Some((b, at + 2)),
{
    lemma_digit_of_char(b / 16, true);
    lemma_digit_of_char(b % 16, true);
    assert(text[at] == text.subrange(at, at + 2)[0]);
    assert(text[at + 1] == text.subrange(at, at + 2)[1]);
}

/// An octet written as a decimal number without leading zeros, with no
/// digit behind it, is read as that octet.
pub proof fn lemma_field_of_dec_octet(text: Seq<char>, at: int, b: u8)
    requires
        0 <= at,
        at + spec_dec_octet(b).len() <= text.len(),
        text.subrange(at, at + spec_dec_octet(b).len()) == spec_dec_octet(b),
        !spec_has_digit(text, at + spec_dec_octet(b).len(), false),
    ensures
        spec_field(text, at, false) == Some((b, at + spec_dec_octet(b).len())),
{
    lemma_dec_octet(b);
    let written = spec_dec_octet(b);
    let part = text.subrange(at, at + written.len());
    lemma_digit_of_char(b % 10, false);
    lemma_digit_of_char(b / 10 % 10, false);
    if b >= 100 {
        lemma_digit_of_char(b / 100, false);
        assert(text[at] == part[0]);
        assert(text[at + 1] == part[1]);
        assert(text[at + 2] == part[2]);
    } else if b >= 10 {
        lemma_digit_of_char(b / 10, false);
        assert(text[at] == part[0]);
        assert(text[at + 1] == part[1]);
    } else {
        lemma_digit_of_char(b, false);
        assert(text[at] == part[0]);
    }
}

/// Where octets are read, there are as many as were asked for.
pub proof fn lemma_octets_len(text: Seq<char>, at: int, count: nat, sep: char, hex: bool)
    requires
        spec_octets(text, at, count, sep, hex) is Some,
    ensures
        spec_octets(text, at, count, sep, hex)->Some_0.len() == count,
    decreases count,
{
    if count > 1 {
        let next = spec_field(text, at, hex)->Some_0.1;
        lemma_octets_len(text, next + 1, (count - 1) as nat, sep, hex);
    }
}

/// The text of the digit `n`.
fn digit_str(n: u8) -> (s: &'static str)
    requires
        n < 16,
    ensures
        s@ == seq![spec_digit_char(n)],
{
    let s = match n {
        0 => {
            proof {
                reveal_strlit("0");
            }
            "0"
        },
        1 => {
            proof {
                reveal_strlit("1");
            }
            "1"
        },
        2 => {
            proof {
                reveal_strlit("2");
            }
            "2"
        },
        3 => {
            proof {
                reveal_strlit("3");
            }
            "3"
        },
        4 => {
            proof {
                reveal_strlit("4");
            }
            "4"
        },
        5 => {
            proof {
                reveal_strlit("5");
            }
            "5"
        },
        6 => {
            proof {
                reveal_strlit("6");
            }
            "6"
        },
        7 => {
            proof {
                reveal_strlit("7");
            }
            "7"
        },
        8 => {
            proof {
                reveal_strlit("8");
            }
            "8"
        },
        9 => {
            proof {
                reveal_strlit("9");
            }
            "9"
        },
        10 => {
            proof {
                reveal_strlit("a");
            }
            "a"
        },
        11 => {
            proof {
                reveal_strlit("b");
            }
            "b"
        },
        12 => {
            proof {
                reveal_strlit("c");
            }
            "c"
        },
        13 => {
            proof {
                reveal_strlit("d");
            }
            "d"
        },
        14 => {
            proof {
                reveal_strlit("e");
            }
            "e"
        },
        _ => {
            proof {
                reveal_strlit("f");
            }
            "f"
        },
    };
    assert(s@ =~= seq![spec_digit_char(n)]);
    s
}

/// Appends an octet as two hexadecimal digits.
pub fn push_hex_octet(text: &mut String, b: u8)
    ensures
        final(text)@ == old(text)@ + spec_hex_octet(b),
{
    text.append(digit_str(b / 16));
    text.append(digit_str(b % 16));
    assert(text@ =~= old(text)@ + spec_hex_octet(b));
}

/// Appends a number in decimal notation.
pub fn push_dec(text: &mut String, n: u64)
    ensures
        final(text)@ == old(text)@ + spec_dec(n as nat),
    decreases n,
{
    if n >= 10 {
        push_dec(text, n / 10);
    }
    text.append(digit_str((n % 10) as u8));
    assert(text@ =~= old(text)@ + spec_dec(n as nat));
}

/// Appends an octet as a decimal number without leading zeros.
pub fn push_dec_octet(text: &mut String, b: u8)
    ensures
        final(text)@ == old(text)@ + spec_dec_octet(b),
{
    push_dec(text, b as u64);
}

/// Appends a number in hexadecimal notation.
pub fn push_hex(text: &mut String, n: u64)
    ensures
        final(text)@ == old(text)@ + spec_hex(n as nat),
    decreases n,
{
    if n >= 16 {
        push_hex(text, n / 16);
    }
    text.append(digit_str((n % 16) as u8));
    assert(text@ =~= old(text)@ + spec_hex(n as nat));
}

/// Appends a number in binary notation.
pub fn push_bin(text: &mut String, n: u64)
    ensures
        final(text)@ == old(text)@ + spec_bin(n as nat),
    decreases n,
{
    if n >= 2 {
        push_bin(text, n / 2);
    }
    text.append(digit_str((n % 2) as u8));
    assert(text@ =~= old(text)@ + spec_bin(n as nat));
}

/// Appends bytes as a list of decimal numbers.
pub fn push_dec_list(text: &mut String, bytes: &[u8])
    ensures
        final(text)@ == old(text)@ + spec_dec_list(bytes@),
{
    proof {
        reveal_strlit("[");
        reveal_strlit(", ");
        reveal_strlit("]");
    }
    text.append("[");
    let ghost opened = text@;
    let mut i: usize = 0;
    while i < bytes.len()
        invariant
            i <= bytes@.len(),
            ", "@ =~= seq![',', ' '],
            text@ == opened + spec_dec_items(bytes@.take(i as int)),
        decreases bytes@.len() - i,
    {
        if i > 0 {
            text.append(", ");
        }
        push_dec(text, bytes[i] as u64);
        proof {
            let done = bytes@.take(i + 1);
            assert(done.drop_last() =~= bytes@.take(i as int));
            assert(done.last() == bytes@[i as int]);
            assert(text@ =~= opened + spec_dec_items(done));
        }
        i += 1;
    }
    text.append("]");
    assert(bytes@.take(bytes@.len() as int) =~= bytes@);
    assert(text@ =~= old(text)@ + spec_dec_list(bytes@));
}

/// Appends a line that says `label` and then `value`.
pub fn push_line(text: &mut String, label: &str, value: &str)
    ensures
        final(text)@ == old(text)@ + spec_line(label@, value@),
{
    proof {
        reveal_strlit("\n");
    }
    text.append(label);
    text.append(value);
    text.append("\n");
    assert(text@ =~= old(text)@ + spec_line(label@, value@));
}

/// Appends a line that says `label` and then `n` in decimal notation.
pub fn push_line_dec(text: &mut String, label: &str, n: u64)
    ensures
        final(text)@ == old(text)@ + spec_line(label@, spec_dec(n as nat)),
{
    let mut value = String::new();
    push_dec(&mut value, n);
    assert(value@ =~= spec_dec(n as nat));
    push_line(text, label, value.as_str());
}

/// Appends a line that says `label` and then `n` in hexadecimal notation.
pub fn push_line_hex(text: &mut String, label: &str, n: u64)
    ensures
        final(text)@ == old(text)@ + spec_line(label@, spec_hex(n as nat)),
{
    let mut value = String::new();
    push_hex(&mut value, n);
    assert(value@ =~= spec_hex(n as nat));
    push_line(text, label, value.as_str());
}

/// Appends a line that says `label` and then `n` in binary notation.
pub fn push_line_bin(text: &mut String, label: &str, n: u64)
    ensures
        final(text)@ == old(text)@ + spec_line(label@, spec_bin(n as nat)),
{
    let mut value = String::new();
    push_bin(&mut value, n);
    assert(value@ =~= spec_bin(n as nat));
    push_line(text, label, value.as_str());
}

/// The value of the digit `c`, if it is one.
#[verifier::when_used_as_spec(spec_digit)]
pub fn digit(c: char, hex: bool) -> (r: Option<u8>)
    ensures
        r == spec_digit(c, hex),
{
    let v = c as u32;
    if 48 <= v && v <= 57 {
        Some((v - 48) as u8)
    } else if hex && 97 <= v && v <= 102 {
        Some((v - 87) as u8)
    } else if hex && 65 <= v && v <= 70 {
        Some((v - 55) as u8)
    } else {
        None
    }
}

/// The digit at position `at` of `text`, if there is one.
fn digit_at(text: &str, at: usize, hex: bool) -> (r: Option<u8>)
    ensures
        r is Some <==> spec_has_digit(text@, at as int, hex),
        r is Some ==> r == spec_digit(text@[at as int], hex),
{
    if at < text.unicode_len() {
        digit(text.get_char(at), hex)
    } else {
        None
    }
}

/// Reads the octet that is written at position `at` of `text`.
pub fn field(text: &str, at: usize, hex: bool) -> (r: Option<(u8, usize)>)
    ensures
        match spec_field(text@, at as int, hex) {
            Some((octet, next)) => r == Some((octet, next as usize)) && at < next <= text@.len(),
            None => r is None,
        },
{
    let len = text.unicode_len();
    let d0 = match digit_at(text, at, hex) {
        Some(d) => d,
        None => {
            return None;
        },
    };
    let d1 = match digit_at(text, at + 1, hex) {
        Some(d) => d,
        None => {
            return Some((d0, at + 1));
        },
    };
    if hex {
        return Some((d0 * 16 + d1, at + 2));
    }
    let d2 = match digit_at(text, at + 2, hex) {
        Some(d) => d,
        None => {
            return Some((d0 * 10 + d1, at + 2));
        },
    };
    let value: u16 = d0 as u16 * 100 + d1 as u16 * 10 + d2 as u16;
    if value > 255 {
        None
    } else {
        Some((value as u8, at + 3))
    }
}

/// Reads `count` octets that are separated by `sep` and fill `text` from
/// start to end.
pub fn parse_octets(text: &str, count: usize, sep: char, hex: bool) -> (r: Option<Vec<u8>>)
    ensures
        match spec_octets(text@, 0, count as nat, sep, hex) {
            Some(octets) => r is Some && r->Some_0@ == octets,
            None => r is None,
        },
{
    if count == 0 {
        return None;
    }
    let len = text.unicode_len();
    let mut octets: Vec<u8> = Vec::new();
    let mut at: usize = 0;
    let mut left: usize = count;
    while left > 1
        invariant
            1 <= left <= count,
            at <= len,
            len == text@.len(),
            match spec_octets(text@, at as int, left as nat, sep, hex) {
                Some(rest) => spec_octets(text@, 0, count as nat, sep, hex) == Some(
                    octets@ + rest,
                ),
                None => spec_octets(text@, 0, count as nat, sep, hex) is None,
            },
        decreases left,
    {
        let (octet, next) = match field(text, at, hex) {
            Some(found) => found,
            None => {
                return None;
            },
        };
        if next >= len || text.get_char(next) != sep {
            return None;
        }
        proof {
            let rest = spec_octets(text@, next + 1, (left - 1) as nat, sep, hex);
            if rest is Some {
                assert(octets@.push(octet) + rest->Some_0 =~= octets@ + (seq![octet]
                    + rest->Some_0));
            }
        }
        octets.push(octet);
        at = next + 1;
        left = left - 1;
    }
    let (octet, next) = match field(text, at, hex) {
        Some(found) => found,
        None => {
            return None;
        },
    };
    if next != len {
        return None;
    }
    proof {
        assert(octets@.push(octet) =~= octets@ + seq![octet]);
    }
    octets.push(octet);
    Some(octets)
}

} // verus!
