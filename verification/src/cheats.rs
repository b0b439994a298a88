use vstd::prelude::*;
use vstd::string::StringSliceAdditionalSpecFns;
use vstd::utf8::{decode_utf8, encode_utf8_decode_utf8, encode_utf8_valid_utf8, is_char_boundary, is_char_boundary_iff_not_is_continuation_byte, is_char_boundary_start_end_of_seq, valid_utf8, valid_utf8_split};

verus! {

/// A cheat: the byte that reads of `address` give instead of what memory holds, under a
/// condition on the memory bank (GameShark) or on the byte memory holds (Game Genie).
#[derive(PartialEq, Eq, Structural, Clone, Copy, Debug)]
pub struct Cheat {
    pub address: u16,
    pub new_data: u8,
    pub maybe_old_data: Option<u8>,
    pub maybe_bank: Option<u8>,
}

/// The part of a cheat code that failed to parse.
#[derive(PartialEq, Eq, Structural, Clone, Copy, Debug)]
pub enum CheatField {
    Bank,
    NewData,
    Address,
    OldData,
}

/// Why a cheat code or a registration was refused.
#[derive(PartialEq, Eq, Structural, Clone, Copy, Debug)]
pub enum CheatErrorKind {
    GamesharkLength,
    GamegenieLength,
    InvalidByte(CheatField),
    InvalidWord(CheatField),
    InvalidAddress(u16),
    TooManyCheats,
}

/// A refusal, with the text of the code that did not parse where there is one.
#[derive(Debug)]
pub struct CheatError {
    pub kind: CheatErrorKind,
    pub text: String,
}

/// The registered cheats, each under its own id, in the order they were first registered.
pub struct CheatState {
    pub registered: Vec<(String, Cheat)>,
}

pub const CHEAT_LIMIT: usize = 10;

pub fn initialize_cheats() -> (state: CheatState)
    ensures
        state.wf(),
        state.registered@.len() == 0,
{
    CheatState { registered: Vec::new() }
}

/// The value of an ASCII hexadecimal digit.
pub open spec fn hex_digit(b: u8) -> Option<nat> {
    if 0x30 <= b <= 0x39 {
        Some((b - 0x30) as nat)
    } else if 0x41 <= b <= 0x46 {
        Some((b - 0x41 + 10) as nat)
    } else if 0x61 <= b <= 0x66 {
        Some((b - 0x61 + 10) as nat)
    } else {
        None
    }
}

/// The value of a run of hexadecimal digits, if every byte is one.
pub open spec fn hex_digits_value(s: Seq<u8>) -> Option<nat>
    decreases s.len(),
{
    if s.len() == 0 {
        Some(0)
    } else {
        match (hex_digits_value(s.drop_last()), hex_digit(s.last())) {
            (Some(v), Some(d)) => Some(v * 16 + d),
            _ => None,
        }
    }
}

/// The number that a text reads as in base 16, as the standard library parses unsigned
/// integers: an optional `+`, then at least one digit.
pub open spec fn hex_value(s: Seq<u8>) -> Option<nat> {
    let digits = if s.len() > 0 && s[0] == 0x2B { s.drop_first() } else { s };
    if digits.len() == 0 {
        None
    } else {
        hex_digits_value(digits)
    }
}

/// Sixteen to the power `n`.
pub open spec fn pow16(n: nat) -> nat
    decreases n,
{
    if n == 0 { 1 } else { 16 * pow16((n - 1) as nat) }
}

proof fn lemma_hex_digits_bound(s: Seq<u8>)
    ensures
        hex_digits_value(s) matches Some(v) ==> v < pow16(s.len()),
    decreases s.len(),
{
    if s.len() > 0 {
        lemma_hex_digits_bound(s.drop_last());
    }
}

proof fn lemma_pow16_small(n: nat)
    requires
        n <= 3,
    ensures
        pow16(n) <= 4096,
        n <= 2 ==> pow16(n) <= 256,
        n <= 1 ==> pow16(n) <= 16,
{
    reveal_with_fuel(pow16, 4);
}

fn hex_digit_exec(b: u8) -> (d: Option<u8>)
    ensures
        match hex_digit(b) {
            Some(v) => d == Some(v as u8) && v < 16,
            None => d is None,
        },
{
    if 0x30 <= b && b <= 0x39 {
        Some(b - 0x30)
    } else if 0x41 <= b && b <= 0x46 {
        Some(b - 0x41 + 10)
    } else if 0x61 <= b && b <= 0x66 {
        Some(b - 0x61 + 10)
    } else {
        None
    }
}

/// Parses bytes `start..end` of a text in base 16; at most three digits.
fn parse_hex(bytes: &[u8], start: usize, end: usize) -> (value: Option<u16>)
    requires
        start <= end <= bytes@.len(),
        end - start <= 3,
    ensures
        match hex_value(bytes@.subrange(start as int, end as int)) {
            Some(v) => value == Some(v as u16) && v < 4096 && (end - start <= 2 ==> v < 256) && (end - start <= 1 ==> v < 16),
            None => value is None,
        },
{
    let ghost s = bytes@.subrange(start as int, end as int);
    let mut i = start;
    if i < end && bytes[i] == 0x2B {
        i = i + 1;
    }
    let ghost digits = bytes@.subrange(i as int, end as int);
    assert(digits == (if s.len() > 0 && s[0] == 0x2B { s.drop_first() } else { s }));
    if i == end {
        return None;
    }
    let first = i;
    let mut value: u16 = 0;
    assert(hex_value(s) == hex_digits_value(digits));
    assert(bytes@.subrange(first as int, first as int) =~= Seq::<u8>::empty());
    proof {
        lemma_hex_digits_bound(digits);
        lemma_pow16_small(digits.len());
    }
    while i < end
        invariant
            start <= first <= i <= end <= bytes@.len(),
            end - first <= 3,
            hex_digits_value(bytes@.subrange(first as int, i as int)) == Some(value as nat),
            hex_value(bytes@.subrange(start as int, end as int)) == hex_digits_value(bytes@.subrange(first as int, end as int)),
            value < pow16((i - first) as nat),
            pow16((i - first) as nat) <= 4096,
        decreases end - i,
    {
        let ghost prefix = bytes@.subrange(first as int, i + 1);
        assert(prefix.drop_last() == bytes@.subrange(first as int, i as int));
        assert(prefix.last() == bytes@[i as int]);
        match hex_digit_exec(bytes[i]) {
            Some(d) => {
                proof {
                    lemma_pow16_small((i + 1 - first) as nat);
                }
                value = value * 16 + d as u16;
            },
            None => {
                proof {
                    assert(bytes@.subrange(first as int, end as int)[i - first] == bytes@[i as int]);
                    lemma_hex_digits_none(bytes@.subrange(first as int, end as int), i - first);
                }
                return None;
            },
        }
        i = i + 1;
    }
    Some(value)
}

proof fn lemma_hex_digits_none(s: Seq<u8>, k: int)
    requires
        0 <= k < s.len(),
        hex_digit(s[k]) is None,
    ensures
        hex_digits_value(s) is None,
    decreases s.len(),
{
    if k < s.len() - 1 {
        lemma_hex_digits_none(s.drop_last(), k);
    }
}

/// The characters that bytes `start..end` of a text encode, where both ends fall on character
/// boundaries; no characters otherwise.
pub open spec fn text_slice(bytes: Seq<u8>, start: int, end: int) -> Seq<char> {
    if 0 <= start <= end <= bytes.len() && is_char_boundary(bytes, start) && is_char_boundary(bytes, end) {
        decode_utf8(bytes.subrange(start, end))
    } else {
        Seq::empty()
    }
}

/// Past a character boundary, the boundaries of the rest of a text are those of the text.
proof fn lemma_boundary_in_rest(bytes: Seq<u8>, start: int, end: int)
    requires
        valid_utf8(bytes),
        0 <= start <= end <= bytes.len(),
        is_char_boundary(bytes, start),
    ensures
        valid_utf8(bytes.subrange(start, bytes.len() as int)),
        is_char_boundary(bytes.subrange(start, bytes.len() as int), end - start) == is_char_boundary(bytes, end),
{
    let rest = bytes.subrange(start, bytes.len() as int);
    valid_utf8_split(bytes, start);
    if end == bytes.len() {
        is_char_boundary_start_end_of_seq(bytes);
        is_char_boundary_start_end_of_seq(rest);
    } else {
        is_char_boundary_iff_not_is_continuation_byte(bytes, end);
        is_char_boundary_iff_not_is_continuation_byte(rest, end - start);
        assert(rest[end - start] == bytes[end]);
    }
}

/// Bytes `start..end` of a text, as text where they begin and end on characters.
fn slice_text(code: &str, start: usize, end: usize) -> (text: String)
    ensures
        text@ == text_slice(code.spec_bytes(), start as int, end as int),
{
    let ghost bytes = code.spec_bytes();
    let byte_count = code.as_bytes().len();
    proof {
        encode_utf8_valid_utf8(code@);
    }
    if start <= end && end <= byte_count && code.is_char_boundary(start) {
        let (_, rest) = code.split_at(start);
        proof {
            lemma_boundary_in_rest(bytes, start as int, end as int);
        }
        if end - start <= rest.len() && rest.is_char_boundary(end - start) {
            let (middle, _) = rest.split_at(end - start);
            proof {
                assert(middle.spec_bytes() =~= bytes.subrange(start as int, end as int));
                encode_utf8_decode_utf8(middle@);
            }
            return middle.to_owned();
        }
    }
    String::new()
}

/// The digits that a refused GameShark code's message quotes: the first field that is not a
/// hexadecimal byte; nothing for the other errors.
pub open spec fn gameshark_error_text(b: Seq<u8>) -> Seq<char> {
    if b.len() != 8 {
        Seq::empty()
    } else if hex_value(b.subrange(0, 2)) is None {
        text_slice(b, 0, 2)
    } else if hex_value(b.subrange(2, 4)) is None {
        text_slice(b, 2, 4)
    } else if hex_value(b.subrange(4, 6)) is None {
        text_slice(b, 4, 6)
    } else if hex_value(b.subrange(6, 8)) is None {
        text_slice(b, 6, 8)
    } else {
        Seq::empty()
    }
}

/// The cheat a GameShark code stands for: bank, new byte, then the address with its low byte
/// first, all in base 16; the address must lie in external or working RAM.
pub open spec fn gameshark_cheat(b: Seq<u8>) -> Result<Cheat, CheatErrorKind> {
    if b.len() != 8 {
        Err(CheatErrorKind::GamesharkLength)
    } else {
        match (hex_value(b.subrange(0, 2)), hex_value(b.subrange(2, 4)), hex_value(b.subrange(4, 6)), hex_value(b.subrange(6, 8))) {
            (None, _, _, _) => Err(CheatErrorKind::InvalidByte(CheatField::Bank)),
            (Some(_), None, _, _) => Err(CheatErrorKind::InvalidByte(CheatField::NewData)),
            (Some(_), Some(_), None, _) => Err(CheatErrorKind::InvalidByte(CheatField::Address)),
            (Some(_), Some(_), Some(_), None) => Err(CheatErrorKind::InvalidByte(CheatField::Address)),
            (Some(bank), Some(new_data), Some(low), Some(high)) => {
                let address = high * 256 + low;
                if address < 0xA000 || address > 0xDFFF {
                    Err(CheatErrorKind::InvalidAddress(address as u16))
                } else {
                    Ok(Cheat { address: address as u16, new_data: new_data as u8, maybe_old_data: None, maybe_bank: Some(bank as u8) })
                }
            },
        }
    }
}

pub fn parse_gameshark_code(gameshark_code: &str) -> (result: Result<Cheat, CheatError>)
    ensures
        match gameshark_cheat(gameshark_code.spec_bytes()) {
            Ok(cheat) => result == Ok::<Cheat, CheatError>(cheat),
            Err(kind) => result matches Err(e) && e.kind == kind && e.text@ == gameshark_error_text(gameshark_code.spec_bytes()),
        },
{
    let bytes = gameshark_code.as_bytes();
    if bytes.len() != 8 {
        return Err(CheatError { kind: CheatErrorKind::GamesharkLength, text: String::new() });
    }
    let parsed_bank = match parse_hex(bytes, 0, 2) {
        Some(v) => v as u8,
        None => return Err(CheatError { kind: CheatErrorKind::InvalidByte(CheatField::Bank), text: slice_text(gameshark_code, 0, 2) }),
    };
    let parsed_new_data = match parse_hex(bytes, 2, 4) {
        Some(v) => v as u8,
        None => return Err(CheatError { kind: CheatErrorKind::InvalidByte(CheatField::NewData), text: slice_text(gameshark_code, 2, 4) }),
    };
    let parsed_addr_ls = match parse_hex(bytes, 4, 6) {
        Some(v) => v,
        None => return Err(CheatError { kind: CheatErrorKind::InvalidByte(CheatField::Address), text: slice_text(gameshark_code, 4, 6) }),
    };
    let parsed_addr_ms = match parse_hex(bytes, 6, 8) {
        Some(v) => v,
        None => return Err(CheatError { kind: CheatErrorKind::InvalidByte(CheatField::Address), text: slice_text(gameshark_code, 6, 8) }),
    };
    proof {
        assert(hex_digits_value(bytes@.subrange(0, 0)) == Some(0nat));
    }

    let address = parsed_addr_ms * 256 + parsed_addr_ls;

    if address < 0xA000 || address > 0xDFFF {
        Err(CheatError { kind: CheatErrorKind::InvalidAddress(address), text: String::new() })
    } else {
        Ok(Cheat { address, new_data: parsed_new_data, maybe_old_data: None, maybe_bank: Some(parsed_bank) })
    }
}

/// The bytes of a code with its dashes taken out.
pub open spec fn without_dashes(b: Seq<u8>) -> Seq<u8>
    decreases b.len(),
{
    if b.len() == 0 {
        Seq::empty()
    } else if b.last() == 0x2D {
        without_dashes(b.drop_last())
    } else {
        without_dashes(b.drop_last()).push(b.last())
    }
}

proof fn lemma_without_dashes_len(b: Seq<u8>)
    ensures
        without_dashes(b).len() <= b.len(),
    decreases b.len(),
{
    if b.len() > 0 {
        lemma_without_dashes_len(b.drop_last());
    }
}

/// The code that is parsed: with its dashes taken out, and without the eighth digit where more
/// than six remain.
pub open spec fn stripped_gamegenie(b: Seq<u8>) -> Seq<u8> {
    let d = without_dashes(b);
    if d.len() > 6 { d.subrange(0, 7) + d.subrange(8, d.len() as int) } else { d }
}

/// Byte `x` rotated right by two bits.
pub open spec fn rotated_right_two(x: u8) -> u8 {
    (x / 4 + (x % 4) * 64) as u8
}

/// The outcome of parsing a Game Genie code: the new byte, the address (its three low digits,
/// then its high digit complemented), and, in a long code, the compare byte (rotated right by
/// two and masked with 0xBA); the address must lie in ROM. `None` stands for codes whose
/// digits do not reach the places that are read.
pub open spec fn gamegenie_outcome(b: Seq<u8>) -> Option<Result<Cheat, CheatErrorKind>> {
    if b.len() != 11 && b.len() != 7 {
        Some(Err(CheatErrorKind::GamegenieLength))
    } else if without_dashes(b).len() == 7 {
        None
    } else {
        let s = stripped_gamegenie(b);
        if s.len() < 2 {
            None
        } else {
            match hex_value(s.subrange(0, 2)) {
                None => Some(Err(CheatErrorKind::InvalidByte(CheatField::NewData))),
                Some(new_data) => if s.len() < 5 {
                    None
                } else {
                    match hex_value(s.subrange(2, 5)) {
                        None => Some(Err(CheatErrorKind::InvalidWord(CheatField::Address))),
                        Some(low) => if s.len() < 6 {
                            None
                        } else {
                            match hex_value(s.subrange(5, 6)) {
                                None => Some(Err(CheatErrorKind::InvalidByte(CheatField::Address))),
                                Some(high) => {
                                    let address = (15 - high) * 4096 + low;
                                    if address > 0x7FFF {
                                        Some(Err(CheatErrorKind::InvalidAddress(address as u16)))
                                    } else if s.len() > 6 {
                                        if s.len() < 8 {
                                            None
                                        } else {
                                            match hex_value(s.subrange(6, 8)) {
                                                None => Some(Err(CheatErrorKind::InvalidByte(CheatField::OldData))),
                                                Some(old) => Some(Ok(Cheat {
                                                    address: address as u16,
                                                    new_data: new_data as u8,
                                                    maybe_old_data: Some(rotated_right_two(old as u8) ^ 0xBAu8),
                                                    maybe_bank: None,
                                                })),
                                            }
                                        }
                                    } else {
                                        Some(Ok(Cheat { address: address as u16, new_data: new_data as u8, maybe_old_data: None, maybe_bank: None }))
                                    }
                                },
                            }
                        },
                    }
                },
            }
        }
    }
}

fn remove_dashes(bytes: &[u8]) -> (d: Vec<u8>)
    ensures
        d@ == without_dashes(bytes@),
{
    let mut d: Vec<u8> = Vec::new();
    let mut i: usize = 0;
    while i < bytes.len()
        invariant
            i <= bytes@.len(),
            d@ == without_dashes(bytes@.subrange(0, i as int)),
        decreases bytes@.len() - i,
    {
        assert(bytes@.subrange(0, i + 1).drop_last() == bytes@.subrange(0, i as int));
        if bytes[i] != 0x2D {
            d.push(bytes[i]);
        }
        i += 1;
    }
    assert(bytes@.subrange(0, i as int) == bytes@);
    d
}

fn strip_eighth_digit(d: Vec<u8>) -> (s: Vec<u8>)
    requires
        d@.len() != 7,
    ensures
        s@ == (if d@.len() > 6 { d@.subrange(0, 7) + d@.subrange(8, d@.len() as int) } else { d@ }),
{
    if d.len() > 6 {
        let mut s: Vec<u8> = Vec::new();
        let mut i: usize = 0;
        while i < d.len()
            invariant
                8 <= d@.len(),
                i <= d@.len(),
                i <= 7 ==> s@ == d@.subrange(0, i as int),
                i > 7 ==> s@ == d@.subrange(0, 7) + d@.subrange(8, i as int),
            decreases d@.len() - i,
        {
            if i != 7 {
                s.push(d[i]);
            }
            i += 1;
        }
        assert(s@ =~= d@.subrange(0, 7) + d@.subrange(8, d@.len() as int));
        s
    } else {
        d
    }
}

fn rotate_right_two(x: u8) -> (r: u8)
    ensures
        r == rotated_right_two(x),
{
    let r = (x >> 2) | (x << 6);
    assert(((x >> 2) | (x << 6)) as int == x / 4 + (x % 4) * 64) by (bit_vector);
    r
}

/// A text without its dashes.
pub open spec fn without_dash_chars(c: Seq<char>) -> Seq<char>
    decreases c.len(),
{
    if c.len() == 0 {
        Seq::empty()
    } else if c.last() == '-' {
        without_dash_chars(c.drop_last())
    } else {
        without_dash_chars(c.drop_last()).push(c.last())
    }
}

/// The digits of a Game Genie code as its fields are read from: the code without dashes, and
/// without its eighth digit where it has more than seven.
pub open spec fn stripped_chars(c: Seq<char>) -> Seq<char> {
    let d = without_dash_chars(c);
    if d.len() > 7 { d.subrange(0, 7) + d.subrange(8, d.len() as int) } else { d }
}

/// Characters `start..end` of the stripped digits of a Game Genie code, where it has them.
pub open spec fn gamegenie_field_text(c: Seq<char>, start: int, end: int) -> Seq<char> {
    let s = stripped_chars(c);
    if end <= s.len() { s.subrange(start, end) } else { Seq::empty() }
}

/// The digits that a refused Game Genie code's message quotes: the field that is not a
/// hexadecimal number, taken from the code's characters; nothing for the other errors.
pub open spec fn gamegenie_error_text(b: Seq<u8>, c: Seq<char>) -> Seq<char> {
    match gamegenie_outcome(b) {
        Some(Err(CheatErrorKind::InvalidByte(CheatField::NewData))) => gamegenie_field_text(c, 0, 2),
        Some(Err(CheatErrorKind::InvalidWord(CheatField::Address))) => gamegenie_field_text(c, 2, 5),
        Some(Err(CheatErrorKind::InvalidByte(CheatField::Address))) => gamegenie_field_text(c, 5, 6),
        Some(Err(CheatErrorKind::InvalidByte(CheatField::OldData))) => gamegenie_field_text(c, 6, 8),
        _ => Seq::empty(),
    }
}

/// The stripped digits of a Game Genie code, as text.
fn stripped_text(code: &str) -> (text: String)
    ensures
        text@ == stripped_chars(code@),
{
    let n = code.unicode_len();
    let mut d = String::new();
    let mut i: usize = 0;
    while i < n
        invariant
            n == code@.len(),
            i <= n,
            d@ == without_dash_chars(code@.subrange(0, i as int)),
        decreases n - i,
    {
        let ch = code.get_char(i);
        assert(code@.subrange(0, i + 1).drop_last() =~= code@.subrange(0, i as int));
        assert(code@.subrange(0, i + 1).last() == ch);
        if ch != '-' {
            let piece = code.substring_char(i, i + 1);
            assert(piece@ =~= seq![ch]);
            d.append(piece);
            assert(d@ =~= without_dash_chars(code@.subrange(0, i as int)).push(ch));
        }
        i = i + 1;
    }
    assert(code@.subrange(0, n as int) =~= code@);
    let length = d.as_str().unicode_len();
    if length > 7 {
        let mut s = String::from_str(d.as_str().substring_char(0, 7));
        s.append(d.as_str().substring_char(8, length));
        s
    } else {
        d
    }
}

/// Characters `start..end` of a text, where it has them; no characters otherwise.
fn field_text(text: &String, start: usize, end: usize) -> (field: String)
    requires
        start <= end,
    ensures
        field@ == (if end <= text@.len() { text@.subrange(start as int, end as int) } else { Seq::empty() }),
{
    let length = text.as_str().unicode_len();
    if end <= length {
        String::from_str(text.as_str().substring_char(start, end))
    } else {
        String::new()
    }
}

/// Whether a Game Genie code can be parsed at all: parsing reads its fields by position, and a
/// code that runs out of digits before a field it needs cannot be.
pub fn gamegenie_code_is_complete(gamegenie_code: &str) -> (complete: bool)
    ensures
        complete == (gamegenie_outcome(gamegenie_code.spec_bytes()) is Some),
{
    let bytes = gamegenie_code.as_bytes();
    if bytes.len() != 11 && bytes.len() != 7 {
        return true;
    }
    let without = remove_dashes(bytes);
    proof {
        lemma_without_dashes_len(bytes@);
    }
    if without.len() == 7 {
        return false;
    }
    let stripped_code = strip_eighth_digit(without);
    let stripped = stripped_code.as_slice();
    if stripped.len() < 2 {
        return false;
    }
    if parse_hex(stripped, 0, 2).is_none() {
        return true;
    }
    if stripped.len() < 5 {
        return false;
    }
    let low = match parse_hex(stripped, 2, 5) {
        Some(v) => v,
        None => return true,
    };
    if stripped.len() < 6 {
        return false;
    }
    let high = match parse_hex(stripped, 5, 6) {
        Some(v) => v,
        None => return true,
    };
    let address: u32 = (15 - high as u32) * 4096 + low as u32;
    if address > 0x7FFF {
        true
    } else if stripped.len() > 6 {
        stripped.len() >= 8
    } else {
        true
    }
}

pub fn parse_gamegenie_code(gamegenie_code: &str) -> (result: Result<Cheat, CheatError>)
    requires
        gamegenie_outcome(gamegenie_code.spec_bytes()) is Some,
    ensures
        match gamegenie_outcome(gamegenie_code.spec_bytes()) {
            Some(Ok(cheat)) => result == Ok::<Cheat, CheatError>(cheat),
            Some(Err(kind)) => result matches Err(e) && e.kind == kind && e.text@ == gamegenie_error_text(gamegenie_code.spec_bytes(), gamegenie_code@),
            None => false,
        },
{
    let bytes = gamegenie_code.as_bytes();
    if bytes.len() != 11 && bytes.len() != 7 {
        return Err(CheatError { kind: CheatErrorKind::GamegenieLength, text: String::new() });
    }
    let without = remove_dashes(bytes);
    proof {
        lemma_without_dashes_len(bytes@);
    }
    let stripped_code = strip_eighth_digit(without);
    let stripped = stripped_code.as_slice();

    let parsed_new_data = match parse_hex(stripped, 0, 2) {
        Some(v) => v as u8,
        None => return Err(CheatError { kind: CheatErrorKind::InvalidByte(CheatField::NewData), text: field_text(&stripped_text(gamegenie_code), 0, 2) }),
    };
    let parsed_addr_ls = match parse_hex(stripped, 2, 5) {
        Some(v) => v,
        None => return Err(CheatError { kind: CheatErrorKind::InvalidWord(CheatField::Address), text: field_text(&stripped_text(gamegenie_code), 2, 5) }),
    };
    let parsed_addr_ms = match parse_hex(stripped, 5, 6) {
        Some(v) => v,
        None => return Err(CheatError { kind: CheatErrorKind::InvalidByte(CheatField::Address), text: field_text(&stripped_text(gamegenie_code), 5, 6) }),
    };
    proof {
        lemma_hex_digits_bound(stripped@.subrange(5, 6));
        reveal_with_fuel(pow16, 2);
        let digits = if stripped@.subrange(5, 6)[0] == 0x2B { stripped@.subrange(5, 6).drop_first() } else { stripped@.subrange(5, 6) };
        lemma_hex_digits_bound(digits);
    }
    assert(parsed_addr_ms < 16);

    let address = ((parsed_addr_ms << 12) | parsed_addr_ls) ^ 0xF000;
    assert(((parsed_addr_ms << 12) | parsed_addr_ls) ^ 0xF000 == (15 - parsed_addr_ms) * 4096 + parsed_addr_ls) by (bit_vector)
        requires
            parsed_addr_ms < 16,
            parsed_addr_ls < 4096,
    ;

    if address > 0x7FFF {
        Err(CheatError { kind: CheatErrorKind::InvalidAddress(address), text: String::new() })
    } else {
        let maybe_old_data = if stripped.len() > 6 {
            match parse_hex(stripped, 6, 8) {
                Some(v) => Some(rotate_right_two(v as u8) ^ 0xBA),
                None => return Err(CheatError { kind: CheatErrorKind::InvalidByte(CheatField::OldData), text: field_text(&stripped_text(gamegenie_code), 6, 8) }),
            }
        } else {
            None
        };
        Ok(Cheat { address, new_data: parsed_new_data, maybe_old_data, maybe_bank: None })
    }
}

/// The name of a code field, as messages give it.
pub open spec fn field_name_chars(field: CheatField) -> Seq<char> {
    match field {
        CheatField::Bank => "bank"@,
        CheatField::NewData => "new data"@,
        CheatField::Address => "address"@,
        CheatField::OldData => "old data"@,
    }
}

fn field_name(field: CheatField) -> (name: &'static str)
    ensures
        name@ == field_name_chars(field),
{
    match field {
        CheatField::Bank => "bank",
        CheatField::NewData => "new data",
        CheatField::Address => "address",
        CheatField::OldData => "old data",
    }
}

/// The character of a decimal digit (nine for anything above).
pub open spec fn digit_char(digit: u8) -> char {
    if digit == 0 {
        '0'
    } else if digit == 1 {
        '1'
    } else if digit == 2 {
        '2'
    } else if digit == 3 {
        '3'
    } else if digit == 4 {
        '4'
    } else if digit == 5 {
        '5'
    } else if digit == 6 {
        '6'
    } else if digit == 7 {
        '7'
    } else if digit == 8 {
        '8'
    } else {
        '9'
    }
}

fn digit_text(digit: u8) -> (text: &'static str)
    ensures
        text@ == seq![digit_char(digit)],
{
    proof {
        reveal_strlit("0");
        reveal_strlit("1");
        reveal_strlit("2");
        reveal_strlit("3");
        reveal_strlit("4");
        reveal_strlit("5");
        reveal_strlit("6");
        reveal_strlit("7");
        reveal_strlit("8");
        reveal_strlit("9");
    }
    if digit == 0 {
        "0"
    } else if digit == 1 {
        "1"
    } else if digit == 2 {
        "2"
    } else if digit == 3 {
        "3"
    } else if digit == 4 {
        "4"
    } else if digit == 5 {
        "5"
    } else if digit == 6 {
        "6"
    } else if digit == 7 {
        "7"
    } else if digit == 8 {
        "8"
    } else {
        "9"
    }
}

/// A number written in decimal, without leading zeros.
pub open spec fn decimal_chars(n: nat) -> Seq<char>
    decreases n,
{
    let leading = if n >= 10 { decimal_chars(n / 10) } else { Seq::empty() };
    leading.push(digit_char((n % 10) as u8))
}

/// A number written in decimal.
fn decimal_text(n: u16) -> (text: String)
    ensures
        text@ == decimal_chars(n as nat),
    decreases n,
{
    let mut text = if n >= 10 { decimal_text(n / 10) } else { String::new() };
    text.append(digit_text((n % 10) as u8));
    text
}

/// The message of a refused code or registration.
pub open spec fn message_chars(e: CheatError) -> Seq<char> {
    error_message(e.kind, e.text@)
}

/// The message for an error of a kind, with the text that it quotes.
pub open spec fn error_message(kind: CheatErrorKind, text: Seq<char>) -> Seq<char> {
    match kind {
        CheatErrorKind::GamesharkLength => "Gameshark codes must be eight digits long."@,
        CheatErrorKind::GamegenieLength => "Game Genie codes must be either eleven or seven digits long."@,
        CheatErrorKind::InvalidByte(field) => "Invalid "@ + field_name_chars(field) + " byte: "@ + text,
        CheatErrorKind::InvalidWord(field) => "Invalid "@ + field_name_chars(field) + " word: "@ + text,
        CheatErrorKind::InvalidAddress(address) => "Invalid address: "@ + decimal_chars(address as nat),
        CheatErrorKind::TooManyCheats => "You cannot register more than 10 cheats at a time."@,
    }
}

impl CheatError {
    /// The message that tells a user why the code or registration was refused.
    pub fn message(&self) -> (text: String)
        ensures
            text@ == message_chars(*self),
    {
        match self.kind {
            CheatErrorKind::GamesharkLength => String::from_str("Gameshark codes must be eight digits long."),
            CheatErrorKind::GamegenieLength => String::from_str("Game Genie codes must be either eleven or seven digits long."),
            CheatErrorKind::InvalidByte(field) => {
                let mut text = String::from_str("Invalid ");
                text.append(field_name(field));
                text.append(" byte: ");
                text.append(self.text.as_str());
                text
            },
            CheatErrorKind::InvalidWord(field) => {
                let mut text = String::from_str("Invalid ");
                text.append(field_name(field));
                text.append(" word: ");
                text.append(self.text.as_str());
                text
            },
            CheatErrorKind::InvalidAddress(address) => {
                let mut text = String::from_str("Invalid address: ");
                let number = decimal_text(address);
                text.append(number.as_str());
                text
            },
            CheatErrorKind::TooManyCheats => String::from_str("You cannot register more than 10 cheats at a time."),
        }
    }
}

pub fn validate_gameshark_code(cheat_code: &str) -> (result: Option<String>)
    ensures
        result is None <==> gameshark_cheat(cheat_code.spec_bytes()) is Ok,
        gameshark_cheat(cheat_code.spec_bytes()) matches Err(kind)
            ==> result matches Some(m) && m@ == error_message(kind, gameshark_error_text(cheat_code.spec_bytes())),
{
    match parse_gameshark_code(cheat_code) {
        Ok(_) => None,
        Err(error) => Some(error.message()),
    }
}

pub fn validate_gamegenie_code(cheat_code: &str) -> (result: Option<String>)
    requires
        gamegenie_outcome(cheat_code.spec_bytes()) is Some,
    ensures
        result is None <==> gamegenie_outcome(cheat_code.spec_bytes()) matches Some(Ok(_)),
        gamegenie_outcome(cheat_code.spec_bytes()) matches Some(Err(kind))
            ==> result matches Some(m) && m@ == error_message(kind, gamegenie_error_text(cheat_code.spec_bytes(), cheat_code@)),
{
    match parse_gamegenie_code(cheat_code) {
        Ok(_) => None,
        Err(error) => Some(error.message()),
    }
}

/// Whether a cheat applies to a read of its address: a GameShark cheat when its bank is the
/// bank being read, a Game Genie cheat with a compare byte when memory holds that byte, any
/// other cheat always.
pub open spec fn cheat_applies(cheat: Cheat, old_data: u8, current_bank: u8) -> bool {
    match cheat.maybe_bank {
        Some(bank) => bank == current_bank,
        None => match cheat.maybe_old_data {
            Some(old) => old_data == old,
            None => true,
        },
    }
}

/// The byte a read gives: the new byte of the first registered cheat for the address that
/// applies, or the byte memory holds.
pub open spec fn cheated_value(entries: Seq<(Seq<char>, Cheat)>, address: u16, old_data: u8, current_bank: u8) -> u8
    decreases entries.len(),
{
    if entries.len() == 0 {
        old_data
    } else {
        let cheat = entries[0].1;
        if cheat.address == address && cheat_applies(cheat, old_data, current_bank) {
            cheat.new_data
        } else {
            cheated_value(entries.drop_first(), address, old_data, current_bank)
        }
    }
}

/// When a cheat applies: one with a bank exactly when that bank is read; one without a bank
/// but with a compare byte exactly when memory holds that byte; one with neither always.
/// With that cheat alone registered, a read of its address gives its new byte when it applies
/// and the byte in memory otherwise, and a read of any other address gives the byte in memory.
pub proof fn law_cheat_conditions(id: Seq<char>, cheat: Cheat, address: u16, old_data: u8, current_bank: u8)
    ensures
        cheat.maybe_bank matches Some(bank) ==> (cheat_applies(cheat, old_data, current_bank) <==> bank
            == current_bank),
        cheat.maybe_bank is None && cheat.maybe_old_data is Some ==> (cheat_applies(cheat, old_data, current_bank)
            <==> old_data == cheat.maybe_old_data->0),
        cheat.maybe_bank is None && cheat.maybe_old_data is None ==> cheat_applies(cheat, old_data, current_bank),
        cheated_value(seq![(id, cheat)], cheat.address, old_data, current_bank) == (if cheat_applies(
            cheat,
            old_data,
            current_bank,
        ) {
            cheat.new_data
        } else {
            old_data
        }),
        address != cheat.address ==> cheated_value(seq![(id, cheat)], address, old_data, current_bank) == old_data,
{
    let entries = seq![(id, cheat)];
    assert(entries.drop_first() =~= Seq::<(Seq<char>, Cheat)>::empty());
    assert(cheated_value(entries.drop_first(), address, old_data, current_bank) == old_data);
    assert(cheated_value(entries.drop_first(), cheat.address, old_data, current_bank) == old_data);
}

/// Position of the entry with an id, if any.
pub open spec fn id_position(entries: Seq<(Seq<char>, Cheat)>, id: Seq<char>) -> Option<int> {
    if exists|i: int| 0 <= i < entries.len() && entries[i].0 == id {
        Some(choose|i: int| 0 <= i < entries.len() && entries[i].0 == id)
    } else {
        None
    }
}

impl CheatState {
    /// The registered cheats by the text of their ids.
    pub open spec fn entries(&self) -> Seq<(Seq<char>, Cheat)> {
        self.registered@.map_values(|e: (String, Cheat)| (e.0@, e.1))
    }

    /// No id is registered twice.
    pub open spec fn wf(&self) -> bool {
        forall|i: int, j: int|
            0 <= i < j < self.registered@.len() ==> (#[trigger] self.registered@[i]).0@ != (#[trigger] self.registered@[j]).0@
    }

    fn position(&self, cheat_id: &String) -> (p: Option<usize>)
        ensures
            match p {
                Some(i) => i < self.registered@.len() && self.registered@[i as int].0@ == cheat_id@,
                None => forall|i: int| 0 <= i < self.registered@.len() ==> (#[trigger] self.registered@[i]).0@ != cheat_id@,
            },
    {
        let mut i: usize = 0;
        while i < self.registered.len()
            invariant
                i <= self.registered@.len(),
                forall|j: int| 0 <= j < i ==> (#[trigger] self.registered@[j]).0@ != cheat_id@,
            decreases self.registered@.len() - i,
        {
            if self.registered[i].0 == *cheat_id {
                return Some(i);
            }
            i += 1;
        }
        None
    }

    /// Registers a cheat under an id, replacing what the id held; refused while ten cheats are
    /// registered.
    pub fn register(&mut self, cheat_id: &str, cheat: Cheat) -> (result: Option<String>)
        requires
            old(self).wf(),
        ensures
            final(self).wf(),
            old(self).registered@.len() >= CHEAT_LIMIT ==> (result matches Some(m) && final(self).entries() == old(self).entries()
                && m@ == error_message(CheatErrorKind::TooManyCheats, Seq::empty())),
            old(self).registered@.len() < CHEAT_LIMIT ==> result is None && match id_position(old(self).entries(), cheat_id@) {
                Some(i) => final(self).entries() == old(self).entries().update(i, (cheat_id@, cheat)),
                None => final(self).entries() == old(self).entries().push((cheat_id@, cheat)),
            },
    {
        if self.registered.len() >= CHEAT_LIMIT {
            let error = CheatError { kind: CheatErrorKind::TooManyCheats, text: String::new() };
            return Some(error.message());
        }
        let id = cheat_id.to_owned();
        match self.position(&id) {
            Some(i) => {
                proof {
                    assert(self.entries()[i as int].0 == cheat_id@);
                    let p = id_position(self.entries(), cheat_id@);
                    assert(p is Some);
                    let k = p->0;
                    if k != i {
                        if k < i {
                            assert(self.registered@[k].0@ != self.registered@[i as int].0@);
                        } else {
                            assert(self.registered@[i as int].0@ != self.registered@[k].0@);
                        }
                    }
                }
                self.registered.set(i, (id, cheat));
                assert(self.entries() =~= old(self).entries().update(i as int, (cheat_id@, cheat)));
            },
            None => {
                proof {
                    assert(forall|j: int| 0 <= j < self.entries().len() ==> self.entries()[j].0 == self.registered@[j].0@);
                }
                self.registered.push((id, cheat));
                assert(self.entries() =~= old(self).entries().push((cheat_id@, cheat)));
            },
        }
        None
    }

    /// Removes the cheat registered under an id, if any.
    pub fn unregister(&mut self, cheat_id: &str)
        requires
            old(self).wf(),
        ensures
            final(self).wf(),
            match id_position(old(self).entries(), cheat_id@) {
                Some(i) => final(self).entries() == old(self).entries().remove(i),
                None => final(self).entries() == old(self).entries(),
            },
    {
        let id = cheat_id.to_owned();
        match self.position(&id) {
            Some(i) => {
                proof {
                    let p = id_position(self.entries(), cheat_id@);
                    assert(self.entries()[i as int].0 == cheat_id@);
                    let k = p->0;
                    if k != i {
                        if k < i {
                            assert(self.registered@[k].0@ != self.registered@[i as int].0@);
                        } else {
                            assert(self.registered@[i as int].0@ != self.registered@[k].0@);
                        }
                    }
                }
                let _ = self.registered.remove(i);
                assert(self.entries() =~= old(self).entries().remove(i as int));
                assert forall|a: int, b: int| 0 <= a < b < self.registered@.len() implies
                    (#[trigger] self.registered@[a]).0@ != (#[trigger] self.registered@[b]).0@ by {
                    let oa = if a < i { a } else { a + 1 };
                    let ob = if b < i { b } else { b + 1 };
                    assert(self.registered@[a] == old(self).registered@[oa]);
                    assert(self.registered@[b] == old(self).registered@[ob]);
                }
            },
            None => {
                proof {
                    assert(forall|j: int| 0 <= j < self.entries().len() ==> self.entries()[j].0 == self.registered@[j].0@);
                }
            },
        }
    }

    pub fn register_gameshark_cheat(&mut self, cheat_id: &str, cheat_code: &str) -> (result: Option<String>)
        requires
            old(self).wf(),
        ensures
            final(self).wf(),
            match gameshark_cheat(cheat_code.spec_bytes()) {
                Ok(cheat) => old(self).registered@.len() < CHEAT_LIMIT ==> result is None && match id_position(old(self).entries(), cheat_id@) {
                    Some(i) => final(self).entries() == old(self).entries().update(i, (cheat_id@, cheat)),
                    None => final(self).entries() == old(self).entries().push((cheat_id@, cheat)),
                },
                Err(kind) => result matches Some(m) && final(self).entries() == old(self).entries()
                    && m@ == error_message(kind, gameshark_error_text(cheat_code.spec_bytes())),
            },
            old(self).registered@.len() >= CHEAT_LIMIT ==> result is Some && final(self).entries() == old(self).entries(),
            old(self).registered@.len() >= CHEAT_LIMIT && gameshark_cheat(cheat_code.spec_bytes()) is Ok
                ==> (result matches Some(m) && m@ == error_message(CheatErrorKind::TooManyCheats, Seq::empty())),
    {
        match parse_gameshark_code(cheat_code) {
            Ok(cheat) => self.register(cheat_id, cheat),
            Err(error) => Some(error.message()),
        }
    }

    pub fn register_gamegenie_cheat(&mut self, cheat_id: &str, cheat_code: &str) -> (result: Option<String>)
        requires
            old(self).wf(),
            gamegenie_outcome(cheat_code.spec_bytes()) is Some,
        ensures
            final(self).wf(),
            match gamegenie_outcome(cheat_code.spec_bytes()) {
                Some(Ok(cheat)) => old(self).registered@.len() < CHEAT_LIMIT ==> result is None && match id_position(old(self).entries(), cheat_id@) {
                    Some(i) => final(self).entries() == old(self).entries().update(i, (cheat_id@, cheat)),
                    None => final(self).entries() == old(self).entries().push((cheat_id@, cheat)),
                },
                _ => result is Some && final(self).entries() == old(self).entries(),
            },
            old(self).registered@.len() >= CHEAT_LIMIT ==> result is Some && final(self).entries() == old(self).entries(),
            (old(self).registered@.len() >= CHEAT_LIMIT && (gamegenie_outcome(cheat_code.spec_bytes()) matches Some(Ok(_))))
                ==> (result matches Some(m) && m@ == error_message(CheatErrorKind::TooManyCheats, Seq::empty())),
            gamegenie_outcome(cheat_code.spec_bytes()) matches Some(Err(kind))
                ==> result matches Some(m) && m@ == error_message(kind, gamegenie_error_text(cheat_code.spec_bytes(), cheat_code@)),
    {
        match parse_gamegenie_code(cheat_code) {
            Ok(cheat) => self.register(cheat_id, cheat),
            Err(error) => Some(error.message()),
        }
    }

    /// The byte a read of `address` gives when memory holds `old_data` and `current_bank` is
    /// the bank being read.
    pub fn apply(&self, address: u16, old_data: u8, current_bank: u8) -> (value: u8)
        ensures
            value == cheated_value(self.entries(), address, old_data, current_bank),
    {
        let mut i: usize = 0;
        assert(self.entries().subrange(0, self.entries().len() as int) =~= self.entries());
        while i < self.registered.len()
            invariant
                i <= self.registered@.len(),
                cheated_value(self.entries(), address, old_data, current_bank)
                    == cheated_value(self.entries().subrange(i as int, self.entries().len() as int), address, old_data, current_bank),
            decreases self.registered@.len() - i,
        {
            let cheat = self.registered[i].1;
            let ghost rest = self.entries().subrange(i as int, self.entries().len() as int);
            assert(rest[0].1 == cheat);
            assert(rest.drop_first() =~= self.entries().subrange(i + 1, self.entries().len() as int));
            if cheat.address == address {
                let apply_cheat = match cheat.maybe_bank {
                    Some(bank) => bank == current_bank,
                    None => match cheat.maybe_old_data {
                        Some(old) => old_data == old,
                        None => true,
                    },
                };
                if apply_cheat {
                    return cheat.new_data;
                }
            }
            i += 1;
        }
        old_data
    }
}

/// Registers a cheat under an id, replacing what the id held; refused while ten cheats are
/// registered.
pub fn register_cheat(cheats: &mut CheatState, cheat_id: &str, cheat: Cheat) -> (result: Option<String>)
    requires
        old(cheats).wf(),
    ensures
        final(cheats).wf(),
        old(cheats).registered@.len() >= CHEAT_LIMIT ==> result is Some && final(cheats).entries() == old(cheats).entries(),
        old(cheats).registered@.len() < CHEAT_LIMIT ==> result is None && match id_position(old(cheats).entries(), cheat_id@) {
            Some(i) => final(cheats).entries() == old(cheats).entries().update(i, (cheat_id@, cheat)),
            None => final(cheats).entries() == old(cheats).entries().push((cheat_id@, cheat)),
        },
{
    cheats.register(cheat_id, cheat)
}

pub fn unregister_cheat(cheats: &mut CheatState, cheat_id: &str)
    requires
        old(cheats).wf(),
    ensures
        final(cheats).wf(),
        match id_position(old(cheats).entries(), cheat_id@) {
            Some(i) => final(cheats).entries() == old(cheats).entries().remove(i),
            None => final(cheats).entries() == old(cheats).entries(),
        },
{
    cheats.unregister(cheat_id)
}

/// A read of an address that no registered cheat names gives the byte memory holds.
pub proof fn law_cheat_free_address_reads_memory(entries: Seq<(Seq<char>, Cheat)>, address: u16, old_data: u8, current_bank: u8)
    requires
        forall|i: int| 0 <= i < entries.len() ==> (#[trigger] entries[i]).1.address != address,
    ensures
        cheated_value(entries, address, old_data, current_bank) == old_data,
    decreases entries.len(),
{
    if entries.len() > 0 {
        assert forall|i: int| 0 <= i < entries.drop_first().len() implies (#[trigger] entries.drop_first()[i]).1.address != address by {
            assert(entries.drop_first()[i] == entries[i + 1]);
        }
        law_cheat_free_address_reads_memory(entries.drop_first(), address, old_data, current_bank);
    }
}

/// Once a cheat is registered for an address that no other cheat names, a read of the
/// address gives the cheat's byte whenever its condition holds, and memory otherwise.
pub proof fn law_registered_cheat_applies(entries: Seq<(Seq<char>, Cheat)>, id: Seq<char>, cheat: Cheat, old_data: u8, current_bank: u8)
    requires
        forall|i: int| 0 <= i < entries.len() ==> (#[trigger] entries[i]).1.address != cheat.address,
    ensures
        cheated_value(entries.push((id, cheat)), cheat.address, old_data, current_bank)
            == (if cheat_applies(cheat, old_data, current_bank) { cheat.new_data } else { old_data }),
    decreases entries.len(),
{
    let pushed = entries.push((id, cheat));
    if entries.len() == 0 {
        assert(pushed[0] == (id, cheat));
        assert(pushed.drop_first() =~= Seq::<(Seq<char>, Cheat)>::empty());
        assert(cheated_value(pushed.drop_first(), cheat.address, old_data, current_bank) == old_data);
    } else {
        assert(pushed[0] == entries[0]);
        assert(entries[0].1.address != cheat.address);
        assert(pushed.drop_first() =~= entries.drop_first().push((id, cheat)));
        assert forall|i: int| 0 <= i < entries.drop_first().len() implies (#[trigger] entries.drop_first()[i]).1.address != cheat.address by {
            assert(entries.drop_first()[i] == entries[i + 1]);
        }
        law_registered_cheat_applies(entries.drop_first(), id, cheat, old_data, current_bank);
    }
}

/// Registering a cheat under a new id and then unregistering that id gives back the cheats
/// that were registered before.
pub proof fn law_unregister_undoes_register(entries: Seq<(Seq<char>, Cheat)>, id: Seq<char>, cheat: Cheat)
    requires
        id_position(entries, id) is None,
    ensures
        id_position(entries.push((id, cheat)), id) == Some(entries.len() as int),
        entries.push((id, cheat)).remove(entries.len() as int) == entries,
{
    let pushed = entries.push((id, cheat));
    assert(pushed[entries.len() as int].0 == id);
    assert(exists|i: int| 0 <= i < pushed.len() && pushed[i].0 == id);
    let k = choose|i: int| 0 <= i < pushed.len() && pushed[i].0 == id;
    if k < entries.len() {
        assert(entries[k].0 == id);
        assert(false);
    }
    assert(pushed.remove(entries.len() as int) =~= entries);
}

} // verus!
