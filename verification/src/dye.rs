use vstd::prelude::*;
use vstd::string::StringSliceAdditionalSpecFns;
use crate::texture::RAINBOW_LEN;

verus! {

/// The error of `hex::decode`. Nothing is known of a value of it.
#[verifier::external_type_specification]
#[verifier::external_body]
pub struct ExFromHexError(hex::FromHexError);

/// Value of the hexadecimal digit `c`, in either case.
pub open spec fn hex_digit(c: u8) -> Option<int> {
    if 0x30 <= c <= 0x39 {
        Some(c - 0x30)
    } else if 0x41 <= c <= 0x46 {
        Some(c - 0x41 + 10)
    } else if 0x61 <= c <= 0x66 {
        Some(c - 0x61 + 10)
    } else {
        None
    }
}

/// Every byte is a hexadecimal digit.
pub open spec fn is_hex(digits: Seq<u8>) -> bool {
    forall|i: int| 0 <= i < digits.len() ==> (#[trigger] hex_digit(digits[i])) is Some
}

/// The bytes that an even number of hexadecimal digits spell, two digits
/// per byte, the high one first.
pub open spec fn hex_bytes(digits: Seq<u8>) -> Seq<u8> {
    Seq::new(
        digits.len() / 2,
        |i: int|
            (16 * hex_digit(digits[2 * i]).unwrap() + hex_digit(digits[2 * i + 1]).unwrap()) as u8,
    )
}

/// Calls `hex::decode`, which succeeds exactly on an even number of
/// hexadecimal digits, upper or lower case, and then returns the bytes they
/// spell: byte `i` is sixteen times the value of digit `2 * i` plus the
/// value of digit `2 * i + 1`.
#[verifier::external_body]
fn hex_decode(digits: &[u8]) -> (r: Result<Vec<u8>, hex::FromHexError>)
    ensures
        match r {
            Ok(bytes) => digits@.len() % 2 == 0 && is_hex(digits@) && bytes@ == hex_bytes(digits@),
            Err(_) => !(digits@.len() % 2 == 0 && is_hex(digits@)),
        },
{
    hex::decode(digits)
}

/// A colour with 8-bit channels: `255` is full intensity.
#[derive(Clone, Copy, PartialEq, Eq, Structural, Debug)]
pub struct Rgb8 {
    pub red: u8,
    pub green: u8,
    pub blue: u8,
}

/// The colour that the bytes of a colour picker's value spell: one leading
/// byte, then hexadecimal digits for at least red, green and blue.
pub open spec fn parsed_color(value: Seq<u8>) -> Option<Rgb8> {
    if value.len() >= 7 && (value.len() - 1) % 2 == 0 && is_hex(value.skip(1)) {
        let bytes = hex_bytes(value.skip(1));
        Some(Rgb8 { red: bytes[0], green: bytes[1], blue: bytes[2] })
    } else {
        None
    }
}

/// Reads the value of a colour picker, such as `#ff8000`: the first byte is
/// skipped, the rest is decoded as hexadecimal, and the first three bytes
/// are red, green and blue. There is no colour where the rest is not an
/// even number of hexadecimal digits or spells fewer than three bytes.
pub fn splat_color(value: &str) -> (color: Option<Rgb8>)
    ensures
        color == parsed_color(value.spec_bytes()),
{
    let bytes = value.as_bytes();
    if bytes.len() < 1 {
        return None;
    }
    let (_, digits) = bytes.split_at(1);
    assert(digits@ =~= bytes@.skip(1));
    match hex_decode(digits) {
        Ok(decoded) => {
            if decoded.len() >= 3 {
                Some(Rgb8 { red: decoded[0], green: decoded[1], blue: decoded[2] })
            } else {
                None
            }
        },
        Err(_) => None,
    }
}

/// The dye of one injection.
#[derive(Clone, Copy, PartialEq, Eq, Structural, Debug)]
pub enum Dye {
    /// The colour that the user picked.
    Picked(Rgb8),
    /// The colour of the rainbow at this index.
    Rainbow(usize),
}

/// The rainbow colour at time `now`, in milliseconds: the rainbow advances
/// by one colour every four milliseconds and starts over at its end. Before
/// time zero it stands at its first colour.
pub open spec fn rainbow_index(now: int) -> int {
    if now <= 0 {
        0
    } else {
        (now / 4) % (RAINBOW_LEN as int)
    }
}

/// The dye for a picker that shows `value`: with `random` set, the rainbow
/// colour of the time `now`, otherwise the picked colour. There is no dye
/// where `value` spells no colour, whether `random` is set or not.
pub open spec fn chosen_dye(value: Seq<u8>, random: bool, now: i32) -> Option<Dye> {
    match parsed_color(value) {
        Some(picked) => if random {
            Some(Dye::Rainbow(rainbow_index(now as int) as usize))
        } else {
            Some(Dye::Picked(picked))
        },
        None => None,
    }
}

/// Chooses the dye of an injection from the colour picker's `value`, the
/// state of the random-colour switch and the time `now` in milliseconds.
pub fn dye_color(value: &str, random: bool, now: i32) -> (dye: Option<Dye>)
    ensures
        dye == chosen_dye(value.spec_bytes(), random, now),
        dye matches Some(Dye::Rainbow(index)) ==> index < RAINBOW_LEN,
{
    let picked = match splat_color(value) {
        Some(picked) => picked,
        None => {
            return None;
        },
    };
    if random {
        let index: usize = if now <= 0 {
            0
        } else {
            ((now / 4) % 595) as usize
        };
        Some(Dye::Rainbow(index))
    } else {
        Some(Dye::Picked(picked))
    }
}

} // verus!
