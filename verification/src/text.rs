//! Small text helpers: comparing strings and naming swap files by their index.

use vstd::prelude::*;
use vstd::string::{StringExecFns, StringSliceAdditionalSpecFns};
use vstd::utf8::encode_utf8_decode_utf8;

verus! {

/// Whether two strings hold the same characters.
pub fn same_text(a: &str, b: &str) -> (same: bool)
    ensures
        same == (a@ == b@),
{
    let x = a.as_bytes();
    let y = b.as_bytes();
    proof {
        // The characters of a string are recovered from its bytes, so equal bytes
        // mean equal characters.
        encode_utf8_decode_utf8(a@);
        encode_utf8_decode_utf8(b@);
    }
    if x.len() != y.len() {
        return false;
    }
    let mut i: usize = 0;
    while i < x.len()
        invariant
            i <= x.len(),
            x.len() == y.len(),
            forall|j: int| 0 <= j < i ==> x@[j] == y@[j],
            x@ == a.spec_bytes(),
            y@ == b.spec_bytes(),
        decreases x.len() - i,
    {
        if x[i] != y[i] {
            return false;
        }
        i += 1;
    }
    assert(x@ =~= y@);
    true
}

/// The character of one decimal digit.
pub open spec fn digit_char(digit: u8) -> char {
    match digit {
        0 => '0',
        1 => '1',
        2 => '2',
        3 => '3',
        4 => '4',
        5 => '5',
        6 => '6',
        7 => '7',
        8 => '8',
        _ => '9',
    }
}

/// A number in decimal, without leading zeros.
pub open spec fn decimal(n: nat) -> Seq<char>
    decreases n,
{
    if n < 10 {
        seq![digit_char(n as u8)]
    } else {
        decimal(n / 10).push(digit_char((n % 10) as u8))
    }
}

/// The name of a swap file within the pool directory: its index in decimal.
pub open spec fn swapfile_name(index: u8) -> Seq<char> {
    decimal(index as nat)
}

/// The path of a swap file: the pool directory, a slash, and the file's name.
pub open spec fn spec_swapfile_path(dir: Seq<char>, index: u8) -> Seq<char> {
    dir + seq!['/'] + swapfile_name(index)
}

/// One decimal digit as text.
fn digit_text(digit: u8) -> (text: &'static str)
    requires
        digit < 10,
    ensures
        text@ == seq![digit_char(digit)],
{
    proof {
        reveal_strlit("0");
        reveal_strlit("1");
        reveal_strlit("2");
        reveal_strlit("3");
        reveal_strlit("4");
        reveal_strlit("5");
        reveal_strlit("6");
        reveal_strlit("7");
        reveal_strlit("8");
        reveal_strlit("9");
    }
    let text = match digit {
        0 => "0",
        1 => "1",
        2 => "2",
        3 => "3",
        4 => "4",
        5 => "5",
        6 => "6",
        7 => "7",
        8 => "8",
        _ => "9",
    };
    assert(text@ =~= seq![digit_char(digit)]);
    text
}

/// The name of the swap file of this index.
pub fn file_name(index: u8) -> (name: String)
    ensures
        name@ == swapfile_name(index),
        1 <= name@.len() <= 3,
{
    proof {
        reveal_with_fuel(decimal, 3);
    }
    let mut name = String::new();
    if index >= 100 {
        name.append(digit_text(index / 100));
    }
    if index >= 10 {
        name.append(digit_text(index / 10 % 10));
    }
    name.append(digit_text(index % 10));
    assert(name@ =~= decimal(index as nat));
    name
}

/// The path of the swap file of this index within the pool directory `dir`.
pub fn swapfile_path(dir: &str, index: u8) -> (path: String)
    ensures
        path@ == spec_swapfile_path(dir@, index),
{
    proof {
        reveal_strlit("/");
    }
    let mut path = String::from_str(dir);
    path.append("/");
    let name = file_name(index);
    path.append(name.as_str());
    assert(path@ =~= spec_swapfile_path(dir@, index));
    path
}

} // verus!
