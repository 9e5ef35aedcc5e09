//! The name under which a registration presents the module that owns the
//! probes.
use crate::text::{
    chars_of, last_occurrence, lemma_last_occurrence, lemma_occurs_char, rfind,
};
use vstd::prelude::*;
use vstd::string::*;
use vstd::utf8::encode_utf8;

verus! {

/// The size of the buffer that carries a module's name to the kernel.
pub const MODULE_NAME_SIZE: usize = 64;

/// The digit for a value below sixteen, in lower case.
pub open spec fn hex_digit_of(value: nat) -> char {
    if value == 0 {
        '0'
    } else if value == 1 {
        '1'
    } else if value == 2 {
        '2'
    } else if value == 3 {
        '3'
    } else if value == 4 {
        '4'
    } else if value == 5 {
        '5'
    } else if value == 6 {
        '6'
    } else if value == 7 {
        '7'
    } else if value == 8 {
        '8'
    } else if value == 9 {
        '9'
    } else if value == 10 {
        'a'
    } else if value == 11 {
        'b'
    } else if value == 12 {
        'c'
    } else if value == 13 {
        'd'
    } else if value == 14 {
        'e'
    } else {
        'f'
    }
}

/// The hexadecimal digits of a number, the most significant first, without
/// leading zeros; zero has the one digit `0`.
pub open spec fn hex_digits_of(value: nat) -> Seq<char>
    decreases value,
{
    if value < 16 {
        seq![hex_digit_of(value)]
    } else {
        hex_digits_of(value / 16).push(hex_digit_of(value % 16))
    }
}

/// An address as it is written: `0x` and its hexadecimal digits.
pub open spec fn hex_address_of(address: u64) -> Seq<char> {
    "0x"@ + hex_digits_of(address as nat)
}

/// What follows the last `/` of a path; the whole path where it has none.
pub open spec fn final_segment_of(path: Seq<char>) -> Seq<char> {
    match last_occurrence(path, seq!['/']) {
        Some(at) => path.skip(at + 1),
        None => path,
    }
}

/// The name of the module that owns a probe site.
///
/// Without a probe there is no site to ask about, and the name is
/// `unknown-module`. Where the site's address is known but not the file it
/// was loaded from, the name is `?` and the address. Else it is the file's
/// name, without its directories.
pub open spec fn module_name_of(address: Option<u64>, path: Option<Seq<char>>) -> Seq<char> {
    match address {
        None => "unknown-module"@,
        Some(address) => match path {
            None => "?"@ + hex_address_of(address),
            Some(path) => final_segment_of(path),
        },
    }
}

/// The buffer that carries a name: the first 63 bytes of the name, and zeros
/// up to the buffer's end. A longer name is cut, also inside a character.
pub open spec fn name_buffer_of(name: Seq<char>) -> Seq<i8> {
    let bytes = encode_utf8(name);
    Seq::new(
        MODULE_NAME_SIZE as nat,
        |i: int|
            if i < MODULE_NAME_SIZE - 1 && i < bytes.len() {
                bytes[i] as i8
            } else {
                0i8
            },
    )
}

/// The value of a hexadecimal digit in lower case; sixteen for any other
/// character.
pub open spec fn hex_value_of(digit: char) -> nat {
    if digit == '0' {
        0
    } else if digit == '1' {
        1
    } else if digit == '2' {
        2
    } else if digit == '3' {
        3
    } else if digit == '4' {
        4
    } else if digit == '5' {
        5
    } else if digit == '6' {
        6
    } else if digit == '7' {
        7
    } else if digit == '8' {
        8
    } else if digit == '9' {
        9
    } else if digit == 'a' {
        10
    } else if digit == 'b' {
        11
    } else if digit == 'c' {
        12
    } else if digit == 'd' {
        13
    } else if digit == 'e' {
        14
    } else if digit == 'f' {
        15
    } else {
        16
    }
}

/// The number that a sequence of hexadecimal digits writes.
pub open spec fn hex_number_of(digits: Seq<char>) -> nat
    decreases digits.len(),
{
    if digits.len() == 0 {
        0
    } else {
        hex_number_of(digits.drop_last()) * 16 + hex_value_of(digits.last())
    }
}

/// The digits of a number are hexadecimal digits in lower case, they write
/// that number, and only zero begins with the digit `0`.
pub proof fn lemma_hex_digits(value: nat)
    ensures
        hex_digits_of(value).len() >= 1,
        forall|i: int|
            0 <= i < hex_digits_of(value).len() ==> hex_value_of(
                #[trigger] hex_digits_of(value)[i],
            ) < 16,
        hex_number_of(hex_digits_of(value)) == value,
        value > 0 ==> hex_digits_of(value)[0] != '0',
    decreases value,
{
    if value < 16 {
        let digits = hex_digits_of(value);
        assert(digits.drop_last() =~= Seq::<char>::empty());
        assert(hex_number_of(digits.drop_last()) == 0);
    } else {
        lemma_hex_digits(value / 16);
        let digits = hex_digits_of(value);
        assert(digits.drop_last() =~= hex_digits_of(value / 16));
    }
}

/// The final segment of a path holds no `/`, and the path is that segment
/// alone or ends with a `/` and that segment.
pub proof fn lemma_final_segment(path: Seq<char>)
    ensures
        !final_segment_of(path).contains('/'),
        final_segment_of(path).len() <= path.len(),
        path.skip(path.len() - final_segment_of(path).len()) == final_segment_of(path),
        final_segment_of(path).len() < path.len() ==> path[path.len() - final_segment_of(
            path,
        ).len() - 1] == '/',
{
    lemma_last_occurrence(path, seq!['/']);
    let segment = final_segment_of(path);
    match last_occurrence(path, seq!['/']) {
        Some(at) => {
            lemma_occurs_char(path, '/', at);
            assert forall|j: int| 0 <= j < segment.len() implies segment[j] != '/' by {
                lemma_occurs_char(path, '/', at + 1 + j);
            }
            assert(path.skip(path.len() - segment.len()) =~= segment);
        },
        None => {
            assert forall|j: int| 0 <= j < segment.len() implies segment[j] != '/' by {
                lemma_occurs_char(path, '/', j);
            }
            assert(path.skip(0) =~= path);
        },
    }
}

/// A name's buffer has 64 bytes and ends in a zero. It begins with the
/// name's bytes, of which it holds at most 63.
pub proof fn lemma_name_buffer(name: Seq<char>)
    ensures
        name_buffer_of(name).len() == MODULE_NAME_SIZE,
        name_buffer_of(name)[MODULE_NAME_SIZE - 1] == 0i8,
        forall|i: int|
            0 <= i < MODULE_NAME_SIZE - 1 && i < encode_utf8(name).len() ==> (
            #[trigger] name_buffer_of(name)[i]) == encode_utf8(name)[i] as i8,
        forall|i: int|
            encode_utf8(name).len() <= i < MODULE_NAME_SIZE ==> (#[trigger] name_buffer_of(
                name,
            )[i]) == 0i8,
{
}

/// The digit for a value below sixteen, as a string.
fn hex_digit(value: u64) -> (digit: &'static str)
    requires
        value < 16,
    ensures
        digit@ == seq![hex_digit_of(value as nat)],
{
    proof {
        reveal_strlit("0");
        reveal_strlit("1");
        reveal_strlit("2");
        reveal_strlit("3");
        reveal_strlit("4");
        reveal_strlit("5");
        reveal_strlit("6");
        reveal_strlit("7");
        reveal_strlit("8");
        reveal_strlit("9");
        reveal_strlit("a");
        reveal_strlit("b");
        reveal_strlit("c");
        reveal_strlit("d");
        reveal_strlit("e");
        reveal_strlit("f");
    }
    let digit = if value == 0 {
        "0"
    } else if value == 1 {
        "1"
    } else if value == 2 {
        "2"
    } else if value == 3 {
        "3"
    } else if value == 4 {
        "4"
    } else if value == 5 {
        "5"
    } else if value == 6 {
        "6"
    } else if value == 7 {
        "7"
    } else if value == 8 {
        "8"
    } else if value == 9 {
        "9"
    } else if value == 10 {
        "a"
    } else if value == 11 {
        "b"
    } else if value == 12 {
        "c"
    } else if value == 13 {
        "d"
    } else if value == 14 {
        "e"
    } else {
        "f"
    };
    assert(digit@ =~= seq![hex_digit_of(value as nat)]);
    digit
}

/// Appends the hexadecimal digits of `value` to `text`.
fn push_hex_digits(text: &mut String, value: u64)
    ensures
        final(text)@ == old(text)@ + hex_digits_of(value as nat),
    decreases value,
{
    if value >= 16 {
        push_hex_digits(text, value / 16);
    }
    text.append(hex_digit(value % 16));
    assert(text@ =~= old(text)@ + hex_digits_of(value as nat));
}

/// An address as it is written: `0x` and its hexadecimal digits in lower
/// case.
pub fn hex_address(address: u64) -> (text: String)
    ensures
        text@ == hex_address_of(address),
{
    let mut text = "0x".to_owned();
    push_hex_digits(&mut text, address);
    text
}

/// What follows the last `/` of a path; the whole path where it has none.
pub fn final_segment(path: &str) -> (segment: &str)
    ensures
        segment@ == final_segment_of(path@),
{
    let chars = chars_of(path);
    let mut slash: Vec<char> = Vec::new();
    slash.push('/');
    assert(slash@ =~= seq!['/']);
    match rfind(&chars, &slash) {
        Some(at) => {
            let segment = path.substring_char(at + 1, chars.len());
            assert(segment@ =~= path@.skip(at + 1));
            segment
        },
        None => path,
    }
}

/// The name of the module that owns the probe site at `address`, which was
/// loaded from the file at `path` as far as that is known. Without an
/// address, `path` is not looked at.
pub fn module_name(address: Option<u64>, path: Option<&str>) -> (name: String)
    ensures
        name@ == module_name_of(
            address,
            match path {
                Some(path) => Some(path@),
                None => None,
            },
        ),
{
    match address {
        None => "unknown-module".to_owned(),
        Some(address) => match path {
            None => {
                let mut name = "?".to_owned();
                name.append(hex_address(address).as_str());
                assert(name@ =~= "?"@ + hex_address_of(address));
                name
            },
            Some(path) => final_segment(path).to_owned(),
        },
    }
}

/// The buffer that carries `name` to the kernel.
pub fn module_name_buffer(name: &str) -> (buffer: [i8; 64])
    ensures
        buffer@ == name_buffer_of(name@),
{
    let bytes = name.as_bytes();
    let mut buffer = [0i8;64];
    let mut i: usize = 0;
    while i < MODULE_NAME_SIZE - 1 && i < bytes.len()
        invariant
            i <= MODULE_NAME_SIZE - 1,
            i <= bytes.len(),
            bytes@ == encode_utf8(name@),
            forall|j: int| 0 <= j < i ==> buffer@[j] == bytes@[j] as i8,
            forall|j: int| i <= j < MODULE_NAME_SIZE ==> buffer@[j] == 0i8,
        decreases MODULE_NAME_SIZE - i,
    {
        buffer[i] = #[verifier::truncate] (bytes[i] as i8);
        i += 1;
    }
    assert(buffer@ =~= name_buffer_of(name@));
    buffer
}

} // verus!
