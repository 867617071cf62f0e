//! Hashes as text.

use crate::digest::Sha256Hash;
use vstd::prelude::*;
use vstd::string::StringExecFns;

verus! {

/// The lower-case hexadecimal digit of `nibble`.
pub open spec fn hex_digit(nibble: u8) -> char {
    if nibble == 0 {
        '0'
    } else if nibble == 1 {
        '1'
    } else if nibble == 2 {
        '2'
    } else if nibble == 3 {
        '3'
    } else if nibble == 4 {
        '4'
    } else if nibble == 5 {
        '5'
    } else if nibble == 6 {
        '6'
    } else if nibble == 7 {
        '7'
    } else if nibble == 8 {
        '8'
    } else if nibble == 9 {
        '9'
    } else if nibble == 10 {
        'a'
    } else if nibble == 11 {
        'b'
    } else if nibble == 12 {
        'c'
    } else if nibble == 13 {
        'd'
    } else if nibble == 14 {
        'e'
    } else {
        'f'
    }
}

/// A byte in lower-case hexadecimal digits, with no leading zero: one digit
/// below 16, two from there on.
pub open spec fn byte_hex(byte: u8) -> Seq<char> {
    if byte < 16 {
        seq![hex_digit(byte)]
    } else {
        seq![hex_digit(byte / 16), hex_digit(byte % 16)]
    }
}

/// The hexadecimal digits of each byte in turn.
pub open spec fn bytes_hex(bytes: Seq<u8>) -> Seq<char>
    decreases bytes.len(),
{
    if bytes.len() == 0 {
        Seq::empty()
    } else {
        bytes_hex(bytes.drop_last()) + byte_hex(bytes.last())
    }
}

/// The text of one hexadecimal digit.
fn digit_text(nibble: u8) -> (text: &'static str)
    requires
        nibble < 16,
    ensures
        text@ == seq![hex_digit(nibble)],
{
    proof {
        reveal_strlit("0");
        reveal_strlit("1");
        reveal_strlit("2");
        reveal_strlit("3");
        reveal_strlit("4");
        reveal_strlit("5");
        reveal_strlit("6");
        reveal_strlit("7");
        reveal_strlit("8");
        reveal_strlit("9");
        reveal_strlit("a");
        reveal_strlit("b");
        reveal_strlit("c");
        reveal_strlit("d");
        reveal_strlit("e");
        reveal_strlit("f");
    }
    match nibble {
        0 => "0",
        1 => "1",
        2 => "2",
        3 => "3",
        4 => "4",
        5 => "5",
        6 => "6",
        7 => "7",
        8 => "8",
        9 => "9",
        10 => "a",
        11 => "b",
        12 => "c",
        13 => "d",
        14 => "e",
        _ => "f",
    }
}

/// Converts a hash value into a string: every byte in lower-case hexadecimal
/// digits, a byte below 16 as a single digit.
pub fn as_hex(hash: &Sha256Hash) -> (output: String)
    ensures
        output@ == bytes_hex(hash@),
{
    let mut output = String::new();
    let mut index: usize = 0;
    while index < 32
        invariant
            index <= 32,
            output@ == bytes_hex(hash@.take(index as int)),
        decreases 32 - index,
    {
        let byte = hash[index];
        if byte >= 16 {
            output.append(digit_text(byte / 16));
        }
        output.append(digit_text(byte % 16));
        proof {
            let done = hash@.take(index as int + 1);
            assert(done.drop_last() =~= hash@.take(index as int));
        }
        index += 1;
    }
    assert(hash@.take(32) =~= hash@);
    output
}

} // verus!
