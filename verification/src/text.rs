//! Bytes and text: comparison, decimal numbers, and UTF-8 decoding.

use vstd::prelude::*;
use vstd::string::StringExecFns;
use vstd::utf8::{decode_utf8, encode_utf8, valid_utf8};

verus! {

/// Whether two byte slices hold the same bytes.
pub fn same_bytes(a: &[u8], b: &[u8]) -> (r: bool)
    ensures
        r == (a@ == b@),
{
    if a.len() != b.len() {
        return false;
    }
    let mut i: usize = 0;
    while i < a.len()
        invariant
            a.len() == b.len(),
            i <= a.len(),
            forall|j: int| 0 <= j < i ==> a[j] == b[j],
        decreases a.len() - i,
    {
        if a[i] != b[i] {
            return false;
        }
        i = i + 1;
    }
    assert(a@ =~= b@);
    true
}

/// Whether two strings hold the same text.
pub fn same_text(a: &str, b: &str) -> (r: bool)
    ensures
        r == (a@ == b@),
{
    proof {
        vstd::utf8::encode_utf8_decode_utf8(a@);
        vstd::utf8::encode_utf8_decode_utf8(b@);
    }
    same_bytes(a.as_bytes(), b.as_bytes())
}

/// The text that `bytes` encode, where they are valid UTF-8.
pub open spec fn spec_text(bytes: Seq<u8>) -> Option<Seq<char>> {
    if valid_utf8(bytes) {
        Some(decode_utf8(bytes))
    } else {
        None
    }
}

/// Decodes UTF-8 with `std::str::from_utf8`. Trusted: the call succeeds
/// exactly on valid UTF-8, and the text it gives is the decoded bytes.
#[verifier::external_body]
fn checked_text(bytes: &[u8]) -> (r: Option<&str>)
    ensures
        r is Some == spec_text(bytes@) is Some,
        r matches Some(s) ==> Some(s@) == spec_text(bytes@),
{
    std::str::from_utf8(bytes).ok()
}

/// The text that `bytes` encode, or `None` where they are not valid UTF-8.
pub fn decode(bytes: &[u8]) -> (r: Option<String>)
    ensures
        r is Some == spec_text(bytes@) is Some,
        r matches Some(s) ==> Some(s@) == spec_text(bytes@),
{
    match checked_text(bytes) {
        Some(text) => Some(String::from_str(text)),
        None => None,
    }
}

/// The character of a decimal digit.
pub open spec fn digit_char(d: nat) -> char
    recommends
        d < 10,
{
    if d == 0 {
        '0'
    } else if d == 1 {
        '1'
    } else if d == 2 {
        '2'
    } else if d == 3 {
        '3'
    } else if d == 4 {
        '4'
    } else if d == 5 {
        '5'
    } else if d == 6 {
        '6'
    } else if d == 7 {
        '7'
    } else if d == 8 {
        '8'
    } else {
        '9'
    }
}

/// A number in decimal, without sign or leading zeros; zero is "0".
pub open spec fn decimal(n: nat) -> Seq<char>
    decreases n,
{
    if n < 10 {
        seq![digit_char(n)]
    } else {
        decimal(n / 10).push(digit_char(n % 10))
    }
}

fn digit_text(d: u64) -> (r: &'static str)
    requires
        d < 10,
    ensures
        r@ == seq![digit_char(d as nat)],
{
    if d == 0 {
        proof { reveal_strlit("0"); }
        assert("0"@ =~= seq![digit_char(0)]);
        "0"
    } else if d == 1 {
        proof { reveal_strlit("1"); }
        assert("1"@ =~= seq![digit_char(1)]);
        "1"
    } else if d == 2 {
        proof { reveal_strlit("2"); }
        assert("2"@ =~= seq![digit_char(2)]);
        "2"
    } else if d == 3 {
        proof { reveal_strlit("3"); }
        assert("3"@ =~= seq![digit_char(3)]);
        "3"
    } else if d == 4 {
        proof { reveal_strlit("4"); }
        assert("4"@ =~= seq![digit_char(4)]);
        "4"
    } else if d == 5 {
        proof { reveal_strlit("5"); }
        assert("5"@ =~= seq![digit_char(5)]);
        "5"
    } else if d == 6 {
        proof { reveal_strlit("6"); }
        assert("6"@ =~= seq![digit_char(6)]);
        "6"
    } else if d == 7 {
        proof { reveal_strlit("7"); }
        assert("7"@ =~= seq![digit_char(7)]);
        "7"
    } else if d == 8 {
        proof { reveal_strlit("8"); }
        assert("8"@ =~= seq![digit_char(8)]);
        "8"
    } else {
        proof { reveal_strlit("9"); }
        assert("9"@ =~= seq![digit_char(9)]);
        "9"
    }
}

/// Appends `n` in decimal to `out`.
pub fn push_decimal(out: &mut String, n: u64)
    ensures
        final(out)@ == old(out)@ + decimal(n as nat),
    decreases n,
{
    if n >= 10 {
        push_decimal(out, n / 10);
    }
    out.append(digit_text(n % 10));
    proof {
        if n >= 10 {
            assert(out@ =~= old(out)@ + decimal((n / 10) as nat).push(digit_char((n % 10) as nat)));
        } else {
            assert(out@ =~= old(out)@ + seq![digit_char(n as nat)]);
        }
    }
}

/// Whether `i` is the first place in `s` that holds `b`.
pub open spec fn is_first(s: Seq<u8>, b: u8, i: int) -> bool {
    &&& 0 <= i < s.len()
    &&& s[i] == b
    &&& forall|j: int| 0 <= j < i ==> s[j] != b
}

/// The first place in `s` that holds `b`, if any does.
pub open spec fn first_index(s: Seq<u8>, b: u8) -> Option<int> {
    if exists|i: int| is_first(s, b, i) {
        Some(choose|i: int| is_first(s, b, i))
    } else {
        None
    }
}

/// The first place in `s` that holds `b`.
pub fn find_byte(s: &[u8], b: u8) -> (r: Option<usize>)
    ensures
        match r {
            Some(i) => first_index(s@, b) == Some(i as int) && is_first(s@, b, i as int),
            None => first_index(s@, b) is None && forall|j: int| 0 <= j < s.len() ==> s[j] != b,
        },
{
    let mut i: usize = 0;
    while i < s.len()
        invariant
            i <= s.len(),
            forall|j: int| 0 <= j < i ==> s[j] != b,
        decreases s.len() - i,
    {
        if s[i] == b {
            assert(is_first(s@, b, i as int));
            return Some(i);
        }
        i = i + 1;
    }
    None
}

/// Whether a carriage return and a line feed stand at `i` in `s`.
pub open spec fn is_line_end(s: Seq<u8>, i: int) -> bool {
    &&& 0 <= i
    &&& i + 1 < s.len()
    &&& s[i] == 0x0D
    &&& s[i + 1] == 0x0A
}

/// Whether `i` is the first place in `s` where a line ends.
pub open spec fn is_first_line_end(s: Seq<u8>, i: int) -> bool {
    &&& is_line_end(s, i)
    &&& forall|j: int| 0 <= j < i ==> !is_line_end(s, j)
}

/// The first place in `s` where a line ends, if a line ends in it.
pub open spec fn first_line_end(s: Seq<u8>) -> Option<int> {
    if exists|i: int| is_first_line_end(s, i) {
        Some(choose|i: int| is_first_line_end(s, i))
    } else {
        None
    }
}

/// Whether an empty line follows a line end at `i` in `s`: two line ends
/// stand there, one behind the other.
pub open spec fn is_block_end(s: Seq<u8>, i: int) -> bool {
    is_line_end(s, i) && is_line_end(s, i + 2)
}

/// Whether `i` is the first place in `s` where a block of lines ends.
pub open spec fn is_first_block_end(s: Seq<u8>, i: int) -> bool {
    &&& is_block_end(s, i)
    &&& forall|j: int| 0 <= j < i ==> !is_block_end(s, j)
}

/// The first place in `s` where a block of lines ends, if one ends in it.
pub open spec fn first_block_end(s: Seq<u8>) -> Option<int> {
    if exists|i: int| is_first_block_end(s, i) {
        Some(choose|i: int| is_first_block_end(s, i))
    } else {
        None
    }
}

/// The first line end in `s[from..to]`, as a place in `s`.
pub fn find_line_end(s: &[u8], from: usize, to: usize) -> (r: Option<usize>)
    requires
        from <= to <= s.len(),
    ensures
        match r {
            Some(i) => from <= i && i + 2 <= to && first_line_end(s@.subrange(from as int, to as int))
                == Some(i - from),
            None => first_line_end(s@.subrange(from as int, to as int)) is None,
        },
{
    let ghost part = s@.subrange(from as int, to as int);
    let mut i: usize = from;
    while to - i >= 2
        invariant
            from <= i <= to <= s.len(),
            part == s@.subrange(from as int, to as int),
            forall|j: int| 0 <= j < i - from ==> !is_line_end(part, j),
        decreases to - i,
    {
        if s[i] == 0x0D && s[i + 1] == 0x0A {
            assert(is_first_line_end(part, i - from));
            return Some(i);
        }
        i = i + 1;
    }
    None
}

/// The first block end in `s[from..]`, as a place in `s`.
pub fn find_block_end(s: &[u8], from: usize) -> (r: Option<usize>)
    requires
        from <= s.len(),
    ensures
        match r {
            Some(i) => from <= i && i + 4 <= s.len() && first_block_end(s@.skip(from as int))
                == Some(i - from),
            None => first_block_end(s@.skip(from as int)) is None,
        },
{
    let ghost part = s@.skip(from as int);
    let end = s.len();
    let mut i: usize = from;
    while end - i >= 4
        invariant
            from <= i <= end == s.len(),
            part == s@.skip(from as int),
            forall|j: int| 0 <= j < i - from ==> !is_block_end(part, j),
        decreases end - i,
    {
        if s[i] == 0x0D && s[i + 1] == 0x0A && s[i + 2] == 0x0D && s[i + 3] == 0x0A {
            assert(is_first_block_end(part, i - from));
            return Some(i);
        }
        i = i + 1;
    }
    None
}

} // verus!
