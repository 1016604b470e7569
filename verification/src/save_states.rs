//! Save state slots: the files of a cartridge's saved states are named
//! after the cartridge file (its stem), an underscore, the slot number and
//! `.pst`; the slots present are read off the names of the files found.

use vstd::prelude::*;
use crate::text::{digit_char, spec_decimal};
use vstd::string::StrSliceExecFns;

verus! {

/// The digits that the save state pattern of `stem` captures in
/// `file_name`: the pattern is the stem taken literally (`regex::escape`),
/// `_`, a run of digits (the captured group), any one character, and `pst`,
/// searched anywhere in the name (`regex::Regex::captures`, group 1).
pub uninterp spec fn save_state_capture(stem: Seq<char>, file_name: Seq<char>) -> Option<Seq<char>>;

/// Compiles the save state pattern of `stem` with `regex::Regex::new` (the
/// stem escaped by `regex::escape`) and takes group 1 of its first match in
/// `file_name` (`Regex::captures`). The contract claims only that the
/// result, as characters, is `save_state_capture` of the two strings; what
/// the pattern matches is left to the regex crate. A pattern that does not
/// compile (a stem beyond the crate's size limit) matches nothing.
#[verifier::external_body]
fn capture_save_state_digits(stem: &str, file_name: &str) -> (digits: Option<String>)
    ensures
        save_state_capture(stem@, file_name@) == (match digits {
            Some(d) => Some(d@),
            None => None::<Seq<char>>,
        }),
{
    let pattern = regex::Regex::new(&format!(r"{}_(\d*).pst", regex::escape(stem))).ok()?;
    let captures = pattern.captures(file_name)?;
    Some(captures.get(1)?.as_str().to_string())
}

pub open spec fn is_ascii_digit(c: char) -> bool {
    '0' <= c <= '9'
}

/// The number that a run of ASCII digits writes in decimal.
pub open spec fn decimal_value(digits: Seq<char>) -> int
    decreases digits.len(),
{
    if digits.len() == 0 {
        0
    } else {
        decimal_value(digits.drop_last()) * 10 + (digits.last() as int - '0' as int)
    }
}

/// The text after an optional leading `+`.
pub open spec fn unsigned_digits(text: Seq<char>) -> Seq<char> {
    if text.len() > 0 && text[0] == '+' {
        text.drop_first()
    } else {
        text
    }
}

/// Every character is an ASCII digit.
pub open spec fn all_ascii_digits(s: Seq<char>) -> bool {
    forall|i: int| 0 <= i < s.len() ==> is_ascii_digit(#[trigger] s[i])
}

/// What `str::parse::<u8>` gives: after an optional `+`, one or more ASCII
/// digits whose value fits in a byte.
pub open spec fn parsed_u8(text: Seq<char>) -> Option<u8> {
    let digits = unsigned_digits(text);
    if digits.len() > 0 && all_ascii_digits(digits) && decimal_value(digits) <= 255 {
        Some(decimal_value(digits) as u8)
    } else {
        None
    }
}

/// The slot a file name stands for, if it is a save state of the stem.
pub open spec fn save_state_slot(stem: Seq<char>, file_name: Seq<char>) -> Option<u8> {
    match save_state_capture(stem, file_name) {
        Some(digits) => parsed_u8(digits),
        None => None,
    }
}

/// The slots of the save states among `file_names`, in their order.
pub open spec fn present_slots(stem: Seq<char>, file_names: Seq<Seq<char>>) -> Seq<u8>
    decreases file_names.len(),
{
    if file_names.len() == 0 {
        Seq::empty()
    } else {
        let before = present_slots(stem, file_names.drop_last());
        match save_state_slot(stem, file_names.last()) {
            Some(slot) => before.push(slot),
            None => before,
        }
    }
}

/// A digit run's value only grows as digits are added.
proof fn lemma_decimal_value_grows(digits: Seq<char>, n: int)
    requires
        0 <= n <= digits.len(),
        forall|i: int| 0 <= i < digits.len() ==> is_ascii_digit(#[trigger] digits[i]),
    ensures
        decimal_value(digits.subrange(0, n)) <= decimal_value(digits),
        0 <= decimal_value(digits.subrange(0, n)),
    decreases digits.len(),
{
    if digits.len() > 0 {
        let shorter = digits.drop_last();
        if n < digits.len() {
            assert(digits.subrange(0, n) =~= shorter.subrange(0, n));
            lemma_decimal_value_grows(shorter, n);
        } else {
            assert(digits.subrange(0, n) =~= digits);
            lemma_decimal_value_grows(shorter, shorter.len() as int);
            assert(shorter.subrange(0, shorter.len() as int) =~= shorter);
        }
        assert(is_ascii_digit(digits.last()));
    } else {
        assert(digits.subrange(0, n) =~= digits);
    }
}

/// Parses a byte the way `str::parse::<u8>` does.
pub fn parse_u8(text: &str) -> (value: Option<u8>)
    ensures
        value == parsed_u8(text@),
{
    let len = text.unicode_len();
    let start: usize = if len > 0 && text.get_char(0) == '+' {
        1
    } else {
        0
    };
    let ghost digits = unsigned_digits(text@);
    assert(digits =~= text@.subrange(start as int, len as int));
    if start == len {
        return None;
    }
    let mut value: u32 = 0;
    let mut i = start;
    while i < len
        invariant
            start <= i <= len,
            len == text@.len(),
            digits == unsigned_digits(text@),
            digits =~= text@.subrange(start as int, len as int),
            forall|k: int| 0 <= k < i - start ==> is_ascii_digit(#[trigger] digits[k]),
            value as int == decimal_value(digits.subrange(0, i - start)),
            value <= 255,
        decreases len - i,
    {
        let c = text.get_char(i);
        assert(digits[i - start] == text@[i as int]);
        if !('0' <= c && c <= '9') {
            proof {
                let k = i - start;
                assert(0 <= k < digits.len());
                assert(!is_ascii_digit(digits[k]));
                assert(!all_ascii_digits(digits));
            }
            return None;
        }
        proof {
            let prefix = digits.subrange(0, i - start + 1);
            assert(prefix.drop_last() =~= digits.subrange(0, i - start));
            assert(prefix.last() == c);
        }
        value = value * 10 + (c as u32 - '0' as u32);
        i = i + 1;
        if value > 255 {
            proof {
                if all_ascii_digits(digits) {
                    lemma_decimal_value_grows(digits, i - start);
                }
            }
            return None;
        }
    }
    assert(digits.subrange(0, i - start) =~= digits);
    Some(value as u8)
}

/// The slot that captured digits stand for.
pub fn slot_from_digits(digits: Option<String>) -> (slot: Option<u8>)
    ensures
        slot == (match digits {
            Some(d) => parsed_u8(d@),
            None => None,
        }),
{
    match digits {
        Some(d) => parse_u8(d.as_str()),
        None => None,
    }
}

/// The slot of a file name, if it is a save state of the cartridge `stem`.
pub fn save_state_slot_of(stem: &str, file_name: &str) -> (slot: Option<u8>)
    ensures
        slot == save_state_slot(stem@, file_name@),
{
    slot_from_digits(capture_save_state_digits(stem, file_name))
}

/// The slots of the save states of the cartridge `stem` among the names of
/// the files found, in their order.
pub fn present_save_states(stem: &str, file_names: &Vec<String>) -> (slots: Vec<u8>)
    ensures
        slots@ == present_slots(stem@, file_names@.map_values(|n: String| n@)),
{
    let ghost names = file_names@.map_values(|n: String| n@);
    let mut slots: Vec<u8> = Vec::new();
    let mut i: usize = 0;
    while i < file_names.len()
        invariant
            i <= file_names@.len(),
            names == file_names@.map_values(|n: String| n@),
            slots@ == present_slots(stem@, names.subrange(0, i as int)),
        decreases file_names@.len() - i,
    {
        let slot = save_state_slot_of(stem, file_names[i].as_str());
        assert(names.subrange(0, i + 1).drop_last() =~= names.subrange(0, i as int));
        assert(names.subrange(0, i + 1).last() == file_names@[i as int]@);
        match slot {
            Some(s) => slots.push(s),
            None => {},
        }
        i = i + 1;
    }
    assert(names.subrange(0, i as int) =~= names);
    slots
}

/// The decimal text of a number is all digits, does not start with `+`,
/// and reads back as the number.
proof fn lemma_decimal_reads_back(n: nat)
    ensures
        spec_decimal(n).len() > 0,
        all_ascii_digits(spec_decimal(n)),
        spec_decimal(n)[0] != '+',
        decimal_value(spec_decimal(n)) == n,
    decreases n,
{
    let d = spec_decimal(n);
    if n < 10 {
        assert(d.drop_last() =~= Seq::<char>::empty());
        assert(digit_char(n) as int == '0' as int + n);
        assert(d.last() == digit_char(n));
        assert(decimal_value(d) == decimal_value(d.drop_last()) * 10 + (d.last() as int - '0' as int));
    } else {
        lemma_decimal_reads_back(n / 10);
        let high = spec_decimal(n / 10);
        assert(d.drop_last() =~= high);
        assert(digit_char(n % 10) as int == '0' as int + n % 10);
        assert forall|i: int| 0 <= i < d.len() implies is_ascii_digit(#[trigger] d[i]) by {
            if i < high.len() {
                assert(d[i] == high[i]);
            }
        }
        assert(d[0] == high[0]);
        assert(d.last() == digit_char(n % 10));
        assert(decimal_value(d) == decimal_value(high) * 10 + (d.last() as int - '0' as int));
        assert(n / 10 * 10 + n % 10 == n);
    }
}

/// A slot number written in decimal (as save state names write it) parses
/// back to the same slot: for every byte n, parsing the decimal text of n
/// gives n.
pub proof fn lemma_slot_text_round_trip(n: u8)
    ensures
        parsed_u8(spec_decimal(n as nat)) == Some(n),
{
    lemma_decimal_reads_back(n as nat);
}

} // verus!
