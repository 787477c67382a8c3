//! Lower-case hexadecimal text for byte strings.

use vstd::prelude::*;
use vstd::string::StringExecFns;

verus! {

/// The digit that stands for a value below sixteen.
pub open spec fn hex_char(n: u8) -> char {
    match n {
        0 => '0',
        1 => '1',
        2 => '2',
        3 => '3',
        4 => '4',
        5 => '5',
        6 => '6',
        7 => '7',
        8 => '8',
        9 => '9',
        10 => 'a',
        11 => 'b',
        12 => 'c',
        13 => 'd',
        14 => 'e',
        _ => 'f',
    }
}

/// The value of a digit, or `None` for any other character. Upper-case
/// letters are not digits here.
pub open spec fn hex_value(c: char) -> Option<u8> {
    if '0' <= c <= '9' {
        Some((c as u8 - '0' as u8) as u8)
    } else if 'a' <= c <= 'f' {
        Some((c as u8 - 'a' as u8 + 10) as u8)
    } else {
        None
    }
}

/// Two digits for every byte, the high half first.
pub open spec fn hex_text(bytes: Seq<u8>) -> Seq<char> {
    Seq::new(
        2 * bytes.len(),
        |i: int|
            if i % 2 == 0 {
                hex_char(bytes[i / 2] / 16)
            } else {
                hex_char(bytes[i / 2] % 16)
            },
    )
}

/// The text is an even number of digits.
pub open spec fn is_hex(text: Seq<char>) -> bool {
    &&& text.len() % 2 == 0
    &&& forall|i: int| 0 <= i < text.len() ==> hex_value(#[trigger] text[i]) is Some
}

/// The bytes that the text stands for, or `None` if it is not hexadecimal.
pub open spec fn hex_bytes(text: Seq<char>) -> Option<Seq<u8>> {
    if is_hex(text) {
        Some(
            Seq::new(
                text.len() / 2,
                |i: int| (hex_value(text[2 * i])->0 * 16 + hex_value(text[2 * i + 1])->0) as u8,
            ),
        )
    } else {
        None
    }
}

/// A digit reads back as the value it was written for.
pub proof fn lemma_digit_round_trip(n: u8)
    requires
        n < 16,
    ensures
        hex_value(hex_char(n)) == Some(n),
{
}

/// Reading what was written gives the bytes back.
pub proof fn lemma_hex_round_trip(bytes: Seq<u8>)
    ensures
        hex_bytes(hex_text(bytes)) == Some(bytes),
{
    let text = hex_text(bytes);
    assert forall|i: int| 0 <= i < text.len() implies hex_value(#[trigger] text[i]) is Some by {
        lemma_digit_round_trip(bytes[i / 2] / 16);
        lemma_digit_round_trip(bytes[i / 2] % 16);
    }
    assert(is_hex(text));
    let back = hex_bytes(text)->0;
    assert forall|k: int| 0 <= k < bytes.len() implies back[k] == bytes[k] by {
        lemma_digit_round_trip(bytes[k] / 16);
        lemma_digit_round_trip(bytes[k] % 16);
        assert(text[2 * k] == hex_char(bytes[k] / 16));
        assert(text[2 * k + 1] == hex_char(bytes[k] % 16));
    }
    assert(back =~= bytes);
}

/// Writing two byte strings one after the other is writing their
/// concatenation.
pub proof fn lemma_hex_text_concat(a: Seq<u8>, b: Seq<u8>)
    ensures
        hex_text(a + b) == hex_text(a) + hex_text(b),
{
    assert(hex_text(a + b) =~= hex_text(a) + hex_text(b));
}

/// The one-character text of a digit.
fn digit_str(n: u8) -> (r: &'static str)
    requires
        n < 16,
    ensures
        r@ == seq![hex_char(n)],
{
    proof {
        reveal_strlit("0");
        reveal_strlit("1");
        reveal_strlit("2");
        reveal_strlit("3");
        reveal_strlit("4");
        reveal_strlit("5");
        reveal_strlit("6");
        reveal_strlit("7");
        reveal_strlit("8");
        reveal_strlit("9");
        reveal_strlit("a");
        reveal_strlit("b");
        reveal_strlit("c");
        reveal_strlit("d");
        reveal_strlit("e");
        reveal_strlit("f");
    }
    match n {
        0 => "0",
        1 => "1",
        2 => "2",
        3 => "3",
        4 => "4",
        5 => "5",
        6 => "6",
        7 => "7",
        8 => "8",
        9 => "9",
        10 => "a",
        11 => "b",
        12 => "c",
        13 => "d",
        14 => "e",
        _ => "f",
    }
}

/// The value of a digit given as an ASCII byte.
fn digit_value(b: u8) -> (r: Option<u8>)
    requires
        b < 128,
    ensures
        r == hex_value(b as char),
        r matches Some(n) ==> n < 16,
{
    if 48 <= b && b <= 57 {
        Some(b - 48)
    } else if 97 <= b && b <= 102 {
        Some(b - 87)
    } else {
        None
    }
}

/// Writes `bytes` as hexadecimal text.
pub fn encode(bytes: &[u8]) -> (r: String)
    ensures
        r@ == hex_text(bytes@),
{
    let mut out = String::new();
    let mut k: usize = 0;
    while k < bytes.len()
        invariant
            k <= bytes@.len(),
            out@ == hex_text(bytes@.subrange(0, k as int)),
        decreases bytes@.len() - k,
    {
        let b = bytes[k];
        out.append(digit_str(b / 16));
        out.append(digit_str(b % 16));
        assert(bytes@.subrange(0, k + 1) =~= bytes@.subrange(0, k as int).push(b));
        k += 1;
    }
    assert(bytes@.subrange(0, k as int) =~= bytes@);
    out
}

/// The mathematical content of an optional byte vector.
pub open spec fn bytes_of(v: Option<Vec<u8>>) -> Option<Seq<u8>> {
    match v {
        Some(v) => Some(v@),
        None => None,
    }
}

/// Reads hexadecimal text back into bytes; `None` if the text is anything
/// else.
pub fn decode(text: &str) -> (r: Option<Vec<u8>>)
    ensures
        bytes_of(r) == hex_bytes(text@),
{
    if !text.is_ascii() {
        return None;
    }
    let raw = text.as_bytes();
    proof {
        vstd::string::is_ascii_spec_bytes(text);
    }
    if raw.len() % 2 != 0 {
        return None;
    }
    let mut out: Vec<u8> = Vec::new();
    let mut k: usize = 0;
    while k < raw.len() / 2
        invariant
            raw@.len() == text@.len(),
            raw@.len() % 2 == 0,
            vstd::utf8::is_ascii_chars(text@),
            forall|i: int| 0 <= i < raw@.len() ==> raw@[i] == text@[i] as u8,
            k <= raw@.len() / 2,
            out@.len() == k,
            forall|i: int| 0 <= i < 2 * k ==> hex_value(#[trigger] text@[i]) is Some,
            forall|j: int|
                0 <= j < k ==> #[trigger] out@[j] == (hex_value(text@[2 * j])->0 * 16 + hex_value(
                    text@[2 * j + 1],
                )->0) as u8,
        decreases raw@.len() / 2 - k,
    {
        let hi_byte = raw[2 * k];
        let lo_byte = raw[2 * k + 1];
        assert(hi_byte as char == text@[2 * k]);
        assert(lo_byte as char == text@[2 * k + 1]);
        let hi = match digit_value(hi_byte) {
            Some(n) => n,
            None => {
                return None;
            },
        };
        let lo = match digit_value(lo_byte) {
            Some(n) => n,
            None => {
                return None;
            },
        };
        out.push(hi * 16 + lo);
        k += 1;
    }
    assert(is_hex(text@));
    assert(out@ =~= hex_bytes(text@)->0);
    Some(out)
}

} // verus!
