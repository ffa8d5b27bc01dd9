//! The processing step: the line of text that reports a buffer's bytes.

use vstd::prelude::*;
use vstd::string::*;

verus! {

/// The character that stands for the decimal digit `d`.
pub open spec fn digit_char(d: int) -> char {
    if d == 0 {
        '0'
    } else if d == 1 {
        '1'
    } else if d == 2 {
        '2'
    } else if d == 3 {
        '3'
    } else if d == 4 {
        '4'
    } else if d == 5 {
        '5'
    } else if d == 6 {
        '6'
    } else if d == 7 {
        '7'
    } else if d == 8 {
        '8'
    } else {
        '9'
    }
}

/// A byte in decimal, without leading zeros.
pub open spec fn decimal(b: u8) -> Seq<char> {
    if b < 10 {
        seq![digit_char(b as int)]
    } else if b < 100 {
        seq![digit_char(b as int / 10), digit_char(b as int % 10)]
    } else {
        seq![digit_char(b as int / 100), digit_char(b as int / 10 % 10), digit_char(b as int % 10)]
    }
}

/// The bytes in decimal, in order, with a comma and a space between neighbours.
pub open spec fn listed(bytes: Seq<u8>) -> Seq<char>
    decreases bytes.len(),
{
    if bytes.len() == 0 {
        Seq::empty()
    } else if bytes.len() == 1 {
        decimal(bytes[0])
    } else {
        listed(bytes.drop_last()) + seq![',', ' '] + decimal(bytes.last())
    }
}

/// The list of the bytes between square brackets, as in `[1, 2, 3]`.
pub open spec fn bracketed(bytes: Seq<u8>) -> Seq<char> {
    seq!['['] + listed(bytes) + seq![']']
}

/// The line that the processing step reports for a buffer.
pub open spec fn processed_line(bytes: Seq<u8>) -> Seq<char> {
    "Processing data: "@ + bracketed(bytes)
}

/// The one-character text of a decimal digit.
fn digit_text(d: u8) -> (text: &'static str)
    requires
        d < 10,
    ensures
        text@ == seq![digit_char(d as int)],
{
    proof {
        reveal_strlit("0");
        reveal_strlit("1");
        reveal_strlit("2");
        reveal_strlit("3");
        reveal_strlit("4");
        reveal_strlit("5");
        reveal_strlit("6");
        reveal_strlit("7");
        reveal_strlit("8");
        reveal_strlit("9");
    }
    match d {
        0 => "0",
        1 => "1",
        2 => "2",
        3 => "3",
        4 => "4",
        5 => "5",
        6 => "6",
        7 => "7",
        8 => "8",
        _ => "9",
    }
}

/// Appends `b` in decimal to `line`.
fn append_decimal(line: &mut String, b: u8)
    ensures
        final(line)@ == old(line)@ + decimal(b),
{
    if b >= 100 {
        line.append(digit_text(b / 100));
    }
    if b >= 10 {
        line.append(digit_text(b / 10 % 10));
    }
    line.append(digit_text(b % 10));
}

/// Returns the line that reports `data`: the words `Processing data: ` and
/// then the bytes in decimal, separated by a comma and a space, between square
/// brackets. Printing the line is left to the caller.
pub fn process_data(data: &[u8]) -> (line: String)
    ensures
        line@ == processed_line(data@),
{
    let mut line = String::from_str("Processing data: ");
    proof {
        reveal_strlit("[");
    }
    line.append("[");
    let mut i: usize = 0;
    while i < data.len()
        invariant
            i <= data.len(),
            line@ == "Processing data: "@ + seq!['['] + listed(data@.take(i as int)),
        decreases data.len() - i,
    {
        if i > 0 {
            proof {
                reveal_strlit(", ");
            }
            line.append(", ");
        }
        append_decimal(&mut line, data[i]);
        proof {
            assert(data@.take(i + 1).drop_last() == data@.take(i as int));
        }
        i = i + 1;
    }
    proof {
        reveal_strlit("]");
        assert(data@.take(i as int) == data@);
    }
    line.append("]");
    line
}

} // verus!
