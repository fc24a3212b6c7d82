//! Decimal and hexadecimal text, NUL bytes in text, and text made of bytes.
use vstd::prelude::*;

verus! {

/// The character of one digit in a base up to sixteen.
pub open spec fn digit_char(d: nat) -> char {
    if d == 0 {
        '0'
    } else if d == 1 {
        '1'
    } else if d == 2 {
        '2'
    } else if d == 3 {
        '3'
    } else if d == 4 {
        '4'
    } else if d == 5 {
        '5'
    } else if d == 6 {
        '6'
    } else if d == 7 {
        '7'
    } else if d == 8 {
        '8'
    } else if d == 9 {
        '9'
    } else if d == 10 {
        'a'
    } else if d == 11 {
        'b'
    } else if d == 12 {
        'c'
    } else if d == 13 {
        'd'
    } else if d == 14 {
        'e'
    } else {
        'f'
    }
}

/// The decimal text of a natural number, without leading zeros.
pub open spec fn decimal(n: nat) -> Seq<char>
    decreases n,
{
    if n < 10 {
        seq![digit_char(n)]
    } else {
        decimal(n / 10).push(digit_char(n % 10))
    }
}

/// The decimal text of an integer, with a leading minus sign below zero.
pub open spec fn signed_decimal(i: int) -> Seq<char> {
    if i < 0 {
        "-"@ + decimal((-i) as nat)
    } else {
        decimal(i as nat)
    }
}

/// The lower-case hexadecimal text of a natural number, without leading zeros.
pub open spec fn hexadecimal(n: nat) -> Seq<char>
    decreases n,
{
    if n < 16 {
        seq![digit_char(n)]
    } else {
        hexadecimal(n / 16).push(digit_char(n % 16))
    }
}

fn digit_str(d: u8) -> (text: &'static str)
    requires
        d < 16,
    ensures
        text@ == seq![digit_char(d as nat)],
{
    proof {
        reveal_strlit("0");
        reveal_strlit("1");
        reveal_strlit("2");
        reveal_strlit("3");
        reveal_strlit("4");
        reveal_strlit("5");
        reveal_strlit("6");
        reveal_strlit("7");
        reveal_strlit("8");
        reveal_strlit("9");
        reveal_strlit("a");
        reveal_strlit("b");
        reveal_strlit("c");
        reveal_strlit("d");
        reveal_strlit("e");
        reveal_strlit("f");
    }
    match d {
        0 => "0",
        1 => "1",
        2 => "2",
        3 => "3",
        4 => "4",
        5 => "5",
        6 => "6",
        7 => "7",
        8 => "8",
        9 => "9",
        10 => "a",
        11 => "b",
        12 => "c",
        13 => "d",
        14 => "e",
        _ => "f",
    }
}

/// Append `n` in decimal.
pub fn push_decimal(out: &mut String, n: u64)
    ensures
        final(out)@ == old(out)@ + decimal(n as nat),
    decreases n,
{
    if n >= 10 {
        push_decimal(out, n / 10);
    }
    out.append(digit_str((n % 10) as u8));
    assert(out@ =~= old(out)@ + decimal(n as nat));
}

/// Append `i` in decimal, with a minus sign where it is negative.
pub fn push_signed_decimal(out: &mut String, i: i64)
    ensures
        final(out)@ == old(out)@ + signed_decimal(i as int),
{
    if i < 0 {
        out.append("-");
        let magnitude: u64 = if i == i64::MIN {
            0x8000_0000_0000_0000u64
        } else {
            (-i) as u64
        };
        push_decimal(out, magnitude);
        assert(out@ =~= old(out)@ + signed_decimal(i as int));
    } else {
        push_decimal(out, i as u64);
    }
}

/// Append `n` in lower-case hexadecimal.
pub fn push_hexadecimal(out: &mut String, n: u64)
    ensures
        final(out)@ == old(out)@ + hexadecimal(n as nat),
    decreases n,
{
    if n >= 16 {
        push_hexadecimal(out, n / 16);
    }
    out.append(digit_str((n % 16) as u8));
    assert(out@ =~= old(out)@ + hexadecimal(n as nat));
}

/// The text holds a NUL byte, so that it cannot be handed on as NUL-terminated text.
pub open spec fn has_nul(text: Seq<char>) -> bool {
    vstd::utf8::encode_utf8(text).contains(0u8)
}

/// Whether the text holds a NUL byte.
pub fn contains_nul(text: &str) -> (found: bool)
    ensures
        found == has_nul(text@),
{
    let bytes: &[u8] = text.as_bytes();
    bytes_contain_nul(bytes)
}

/// Whether the bytes hold a NUL.
pub fn bytes_contain_nul(bytes: &[u8]) -> (found: bool)
    ensures
        found == bytes@.contains(0u8),
{
    let mut i: usize = 0;
    while i < bytes.len()
        invariant
            0 <= i <= bytes.len(),
            forall|k: int| 0 <= k < i ==> bytes@[k] != 0,
        decreases bytes.len() - i,
    {
        if bytes[i] == 0 {
            assert(bytes@[i as int] == 0);
            return true;
        }
        i = i + 1;
    }
    false
}

/// The text that the bytes encode, where they are valid UTF-8.
///
/// Calls `std::str::from_utf8`, which its documentation says returns the text of the very same
/// bytes if and only if they are valid UTF-8.
#[verifier::external_body]
pub(crate) fn utf8_text(bytes: &[u8]) -> (text: Option<&str>)
    ensures
        match text {
            Some(decoded) => vstd::utf8::valid_utf8(bytes@) && vstd::utf8::encode_utf8(decoded@) == bytes@,
            None => !vstd::utf8::valid_utf8(bytes@),
        },
{
    match std::str::from_utf8(bytes) {
        Ok(text) => Some(text),
        Err(_) => None,
    }
}

/// The position of the first NUL byte of a text that holds one.
pub open spec fn first_nul(text: Seq<char>) -> int
    recommends
        has_nul(text),
{
    vstd::utf8::encode_utf8(text).index_of_first(0u8)->Some_0
}

/// A text holds a NUL byte, and cannot be handed on as NUL-terminated text.
#[derive(Debug, Clone, Copy, PartialEq, Eq, Structural)]
pub struct NulError {
    /// Where the first NUL byte stands.
    pub position: usize,
}

impl NulError {
    /// The text of the error.
    pub fn message(&self) -> (message: String)
        ensures
            message@ == "nul byte found in provided data at position: "@ + decimal(
                self.position as nat,
            ),
    {
        let mut out: String = String::new();
        out.append("nul byte found in provided data at position: ");
        push_decimal(&mut out, self.position as u64);
        assert(out@ =~= "nul byte found in provided data at position: "@ + decimal(
            self.position as nat,
        ));
        out
    }
}

/// Text without a NUL byte.
#[derive(Debug)]
pub struct CText {
    text: String,
}

impl View for CText {
    type V = Seq<char>;

    closed spec fn view(&self) -> Seq<char> {
        self.text@
    }
}

impl CText {
    #[verifier::type_invariant]
    closed spec fn holds_no_nul(self) -> bool {
        !has_nul(self@)
    }

    /// Take a text over, unless it holds a NUL byte.
    pub fn from_string(text: String) -> (made: Result<CText, NulError>)
        ensures
            is_ctext(text@, made),
    {
        match nul_position(text.as_str()) {
            Some(position) => Err(NulError { position }),
            None => Ok(CText { text }),
        }
    }

    /// Copy a text, unless it holds a NUL byte.
    pub fn new(text: &str) -> (made: Result<CText, NulError>)
        ensures
            is_ctext(text@, made),
    {
        CText::from_string(text.to_owned())
    }

    /// The text.
    pub fn as_str(&self) -> (text: &str)
        ensures
            text@ == self@,
            !has_nul(text@),
    {
        proof {
            use_type_invariant(self);
        }
        self.text.as_str()
    }

    /// The text as a string of its own.
    pub fn to_string(&self) -> (text: String)
        ensures
            text@ == self@,
            !has_nul(text@),
    {
        self.as_str().to_owned()
    }
}

impl Clone for CText {
    fn clone(&self) -> (copy: CText)
        ensures
            copy@ == self@,
    {
        proof {
            use_type_invariant(self);
        }
        CText { text: self.text.as_str().to_owned() }
    }
}

/// `made` is `text` without a NUL byte, or where the first NUL byte stands.
pub open spec fn is_ctext(text: Seq<char>, made: Result<CText, NulError>) -> bool {
    match made {
        Ok(copy) => !has_nul(text) && copy@ == text,
        Err(error) => has_nul(text) && error.position == first_nul(text),
    }
}

/// Where the first NUL byte stands, if there is one.
pub fn nul_position(text: &str) -> (position: Option<usize>)
    ensures
        match position {
            Some(position) => has_nul(text@) && position == first_nul(text@),
            None => !has_nul(text@),
        },
{
    let bytes: &[u8] = text.as_bytes();
    let mut i: usize = 0;
    while i < bytes.len()
        invariant
            0 <= i <= bytes.len(),
            bytes@ == vstd::utf8::encode_utf8(text@),
            forall|k: int| 0 <= k < i ==> bytes@[k] != 0,
        decreases bytes.len() - i,
    {
        if bytes[i] == 0 {
            proof {
                assert(bytes@[i as int] == 0);
                bytes@.index_of_first_ensures(0u8);
            }
            return Some(i);
        }
        i = i + 1;
    }
    None
}

} // verus!
