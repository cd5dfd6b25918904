//! Hardware addresses in their textual form.
//!
//! The canonical text is six groups of two hexadecimal digits separated by
//! colons, seventeen characters in all. Digits are accepted in either case.

use vstd::prelude::*;
use vstd::string::*;

verus! {

/// The text handed to [`parse_mac`] is not a hardware address.
#[derive(Debug, Clone, Copy, PartialEq, Eq, Structural)]
pub struct AddressParseError;

/// The value of a hexadecimal digit, or `None` for any other character.
pub open spec fn hex_value(c: char) -> Option<int> {
    if '0' <= c <= '9' {
        Some(c as int - '0' as int)
    } else if 'a' <= c <= 'f' {
        Some(c as int - 'a' as int + 10)
    } else if 'A' <= c <= 'F' {
        Some(c as int - 'A' as int + 10)
    } else {
        None
    }
}

/// Whether place `i` of `s` holds what the canonical form has there: a
/// colon at every third place and a hexadecimal digit everywhere else.
pub open spec fn well_placed(s: Seq<char>, i: int) -> bool {
    if i % 3 == 2 {
        s[i] == ':'
    } else {
        hex_value(s[i]) is Some
    }
}

/// Whether `s` is a hardware address in canonical form: seventeen characters,
/// each of them well placed.
pub open spec fn is_mac_text(s: Seq<char>) -> bool {
    &&& s.len() == 17
    &&& forall|i: int| 0 <= i < 17 ==> #[trigger] well_placed(s, i)
}

/// The octet that the `k`-th group of `s` denotes.
pub open spec fn octet_at(s: Seq<char>, k: int) -> u8 {
    (16 * hex_value(s[3 * k])->0 + hex_value(s[3 * k + 1])->0) as u8
}

/// The six octets that a canonical text denotes, first group first.
pub open spec fn mac_octets(s: Seq<char>) -> Seq<u8> {
    Seq::new(6, |k: int| octet_at(s, k))
}

/// The lower-case hexadecimal digit for a value below sixteen.
pub open spec fn hex_char(v: int) -> char {
    if v < 10 {
        ('0' as int + v) as char
    } else {
        ('a' as int + v - 10) as char
    }
}

/// The canonical text of six octets, with lower-case digits.
pub open spec fn mac_text(octets: Seq<u8>) -> Seq<char> {
    Seq::new(
        17,
        |i: int|
            if i % 3 == 2 {
                ':'
            } else if i % 3 == 0 {
                hex_char(octets[i / 3] as int / 16)
            } else {
                hex_char(octets[i / 3] as int % 16)
            },
    )
}

/// An upper-case ASCII letter mapped to its lower-case form; any other
/// character unchanged.
pub open spec fn to_lower(c: char) -> char {
    if 'A' <= c <= 'Z' {
        (c as int + 32) as char
    } else {
        c
    }
}

/// Reads one hexadecimal digit.
pub fn hex_digit(c: char) -> (r: Option<u8>)
    ensures
        r is Some <==> hex_value(c) is Some,
        r matches Some(v) ==> v == hex_value(c)->0 && v < 16,
{
    let n: u32 = c as u32;
    if '0' <= c && c <= '9' {
        Some((n - 0x30) as u8)
    } else if 'a' <= c && c <= 'f' {
        Some((n - 0x61 + 10) as u8)
    } else if 'A' <= c && c <= 'F' {
        Some((n - 0x41 + 10) as u8)
    } else {
        None
    }
}

/// Parses a hardware address.
///
/// Succeeds exactly on canonical texts, and then returns the octets that the
/// six groups denote. Everything else is rejected: the empty text, too few or
/// too many groups, a group that is not two characters long, and any
/// character that is not a hexadecimal digit where one is due.
pub fn parse_mac(mac: &String) -> (r: Result<[u8; 6], AddressParseError>)
    ensures
        r is Ok <==> is_mac_text(mac@),
        r matches Ok(octets) ==> octets@ == mac_octets(mac@),
{
    let text = mac.as_str();
    if text.unicode_len() != 17 {
        return Err(AddressParseError);
    }
    let mut addr: [u8; 6] = [0;6];
    let mut k: usize = 0;
    while k < 6
        invariant
            k <= 6,
            text@ == mac@,
            text@.len() == 17,
            forall|i: int| 0 <= i < 3 * k && i < 17 ==> #[trigger] well_placed(text@, i),
            forall|j: int| 0 <= j < k ==> #[trigger] addr@[j] == octet_at(text@, j),
        decreases 6 - k,
    {
        let high = hex_digit(text.get_char(3 * k));
        let low = hex_digit(text.get_char(3 * k + 1));
        match (high, low) {
            (Some(h), Some(l)) => {
                addr[k] = h * 16 + l;
            },
            _ => {
                assert(!well_placed(text@, 3 * k) || !well_placed(text@, 3 * k + 1));
                return Err(AddressParseError);
            },
        }
        if k < 5 && text.get_char(3 * k + 2) != ':' {
            assert(!well_placed(text@, 3 * k + 2));
            return Err(AddressParseError);
        }
        k += 1;
    }
    Ok(addr)
}

fn hex_text(v: u8) -> (r: &'static str)
    requires
        v < 16,
    ensures
        r@ == seq![hex_char(v as int)],
{
    proof {
        reveal_strlit("0");
        reveal_strlit("1");
        reveal_strlit("2");
        reveal_strlit("3");
        reveal_strlit("4");
        reveal_strlit("5");
        reveal_strlit("6");
        reveal_strlit("7");
        reveal_strlit("8");
        reveal_strlit("9");
        reveal_strlit("a");
        reveal_strlit("b");
        reveal_strlit("c");
        reveal_strlit("d");
        reveal_strlit("e");
        reveal_strlit("f");
    }
    match v {
        0 => "0",
        1 => "1",
        2 => "2",
        3 => "3",
        4 => "4",
        5 => "5",
        6 => "6",
        7 => "7",
        8 => "8",
        9 => "9",
        10 => "a",
        11 => "b",
        12 => "c",
        13 => "d",
        14 => "e",
        _ => "f",
    }
}

/// Writes a hardware address in canonical form, with lower-case digits.
pub fn format_mac(octets: &[u8; 6]) -> (r: String)
    ensures
        r@ == mac_text(octets@),
{
    let mut text = String::new();
    let mut k: usize = 0;
    while k < 6
        invariant
            k <= 6,
            text@.len() == (if k == 0 {
                0int
            } else {
                3 * k - 1
            }),
            forall|i: int| 0 <= i < text@.len() ==> #[trigger] text@[i] == mac_text(octets@)[i],
        decreases 6 - k,
    {
        proof {
            reveal_strlit(":");
        }
        if k > 0 {
            text.append(":");
        }
        text.append(hex_text(octets[k] / 16));
        text.append(hex_text(octets[k] % 16));
        k += 1;
    }
    text
}

/// The canonical text of an address is canonical, and parsing it gives the
/// address back.
pub proof fn lemma_text_round_trip(octets: Seq<u8>)
    requires
        octets.len() == 6,
    ensures
        is_mac_text(mac_text(octets)),
        mac_octets(mac_text(octets)) == octets,
{
    let text = mac_text(octets);
    assert forall|k: int| 0 <= k < 6 implies octet_at(text, k) == #[trigger] octets[k] by {
        let v = octets[k] as int;
        assert(hex_value(text[3 * k]) == Some(v / 16));
        assert(hex_value(text[3 * k + 1]) == Some(v % 16));
    }
    assert(mac_octets(text) =~= octets);
}

/// Parsing ignores the case of the digits: two texts that differ only in the
/// case of ASCII letters are canonical together and denote the same octets.
pub proof fn lemma_parse_ignores_case(s: Seq<char>, t: Seq<char>)
    requires
        is_mac_text(s),
        t.len() == s.len(),
        forall|i: int| 0 <= i < s.len() ==> to_lower(#[trigger] t[i]) == to_lower(s[i]),
    ensures
        is_mac_text(t),
        mac_octets(t) == mac_octets(s),
{
    assert forall|i: int| 0 <= i < 17 implies #[trigger] well_placed(t, i) && (i % 3 != 2
        ==> hex_value(t[i]) == hex_value(s[i])) by {
        assert(well_placed(s, i));
        assert(to_lower(t[i]) == to_lower(s[i]));
    }
    assert forall|k: int| 0 <= k < 6 implies octet_at(t, k) == octet_at(s, k) by {
        assert(well_placed(t, 3 * k) && well_placed(t, 3 * k + 1));
    }
    assert(mac_octets(t) =~= mac_octets(s));
}

} // verus!
