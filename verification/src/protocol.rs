//! The protocol version of a request: `HTTP/<major>.<minor>`.

use vstd::prelude::*;
use vstd::string::StringExecFns;
use vstd::string::StringSliceAdditionalSpecFns;
use crate::text::{decimal, find_byte, first_index, is_first, push_decimal};

verus! {

/// The version of HTTP that a request speaks.
#[derive(Debug, Copy, Clone, PartialEq, Eq, Structural)]
pub struct Protocol {
    pub major: u32,
    pub minor: u32,
}

/// Why a text is no unsigned decimal number.
#[derive(Debug, Copy, Clone, PartialEq, Eq, Structural)]
pub enum NumberError {
    /// The text is empty.
    Empty,
    /// A character is no digit, or a sign stands alone.
    InvalidDigit,
    /// The number does not fit in 32 bits.
    TooLarge,
}

/// Why a text is no protocol version.
#[derive(Debug, Copy, Clone, PartialEq, Eq, Structural)]
pub enum ProtocolError {
    /// There is no '/', no '.', or the first '.' stands before the first '/'.
    Delimiter,
    /// The text between the first '/' and the first '.' is no number.
    Major(NumberError),
    /// The text after the first '.' is no number.
    Minor(NumberError),
}

/// Whether `b` is an ASCII decimal digit.
pub open spec fn is_digit(b: u8) -> bool {
    0x30 <= b <= 0x39
}

/// The number that a sequence of digits writes in decimal.
pub open spec fn digits_value(s: Seq<u8>) -> nat
    decreases s.len(),
{
    if s.len() == 0 {
        0
    } else {
        digits_value(s.drop_last()) * 10 + (s.last() - 0x30) as nat
    }
}

/// Whether the first `k` bytes of `s` are its leading digits: all of them
/// are digits, and the byte after them, if there is one, is none.
pub open spec fn is_digit_run(s: Seq<u8>, k: int) -> bool {
    &&& 0 <= k <= s.len()
    &&& forall|j: int| 0 <= j < k ==> is_digit(#[trigger] s[j])
    &&& k < s.len() ==> !is_digit(s[k])
}

/// How many digits `s` begins with.
pub open spec fn digit_run(s: Seq<u8>) -> int {
    choose|k: int| is_digit_run(s, k)
}

/// `s` without a leading '+'.
pub open spec fn unsigned_part(s: Seq<u8>) -> Seq<u8> {
    if s.len() > 0 && s[0] == 0x2B {
        s.drop_first()
    } else {
        s
    }
}

/// The number that `s` writes: an optional '+', then one or more digits
/// whose value fits in 32 bits. The text is read from the left, and the
/// first fault decides the error: digits that overflow are reported before
/// a character behind them that is no digit.
pub open spec fn spec_number(s: Seq<u8>) -> Result<u32, NumberError> {
    let digits = unsigned_part(s);
    let run = digits.take(digit_run(digits));
    if s.len() == 0 {
        Err(NumberError::Empty)
    } else if digits.len() == 0 {
        Err(NumberError::InvalidDigit)
    } else if digits_value(run) > u32::MAX {
        Err(NumberError::TooLarge)
    } else if run.len() < digits.len() {
        Err(NumberError::InvalidDigit)
    } else {
        Ok(digits_value(run) as u32)
    }
}

/// A sequence of digits begins with exactly one number of digits.
pub proof fn lemma_digit_run_unique(s: Seq<u8>, k: int)
    requires
        is_digit_run(s, k),
    ensures
        digit_run(s) == k,
{
    let c = digit_run(s);
    assert(is_digit_run(s, c));
    if c < k {
        assert(is_digit(s[c]));
    } else if k < c {
        assert(is_digit(s[k]));
    }
}

/// More digits never write a smaller number.
pub proof fn lemma_digits_value_grows(s: Seq<u8>, i: int, k: int)
    requires
        0 <= i <= k <= s.len(),
        forall|j: int| 0 <= j < k ==> is_digit(#[trigger] s[j]),
    ensures
        digits_value(s.take(i)) <= digits_value(s.take(k)),
    decreases k - i,
{
    if i < k {
        lemma_digits_value_grows(s, i, k - 1);
        assert(s.take(k).drop_last() =~= s.take(k - 1));
        assert(is_digit(s[k - 1]));
        assert(s.take(k).last() == s[k - 1]);
    }
}

/// Every sequence begins with some number of digits, which may be zero.
pub proof fn lemma_digit_run_exists(s: Seq<u8>)
    ensures
        is_digit_run(s, digit_run(s)),
    decreases s.len(),
{
    if s.len() == 0 {
        assert(is_digit_run(s, 0));
    } else if !is_digit(s[0]) {
        assert(is_digit_run(s, 0));
    } else {
        let rest = s.drop_first();
        lemma_digit_run_exists(rest);
        let k = digit_run(rest);
        assert forall|j: int| 0 <= j < k + 1 implies is_digit(#[trigger] s[j]) by {
            if j > 0 {
                assert(s[j] == rest[j - 1]);
            }
        }
        if k + 1 < s.len() {
            assert(s[k + 1] == rest[k]);
        }
        assert(is_digit_run(s, k + 1));
    }
}

/// Reads an unsigned decimal number of 32 bits.
pub fn parse_number(s: &[u8]) -> (r: Result<u32, NumberError>)
    ensures
        r == spec_number(s@),
{
    if s.len() == 0 {
        return Err(NumberError::Empty);
    }
    let start: usize = if s[0] == 0x2B {
        1
    } else {
        0
    };
    let ghost digits = unsigned_part(s@);
    assert(digits =~= s@.skip(start as int));
    if start == s.len() {
        return Err(NumberError::InvalidDigit);
    }
    let mut i: usize = start;
    let mut value: u32 = 0;
    assert(digits.take(0) =~= Seq::<u8>::empty());
    while i < s.len()
        invariant
            start <= i <= s.len(),
            start <= 1,
            s.len() > 0,
            digits == unsigned_part(s@),
            digits == s@.skip(start as int),
            digits.len() > 0,
            forall|j: int| 0 <= j < i - start ==> is_digit(#[trigger] digits[j]),
            value == digits_value(digits.take(i - start)),
        decreases s.len() - i,
    {
        let b = s[i];
        let ghost at = i - start;
        assert(digits[at] == b);
        if b < 0x30 || b > 0x39 {
            proof {
                lemma_digit_run_unique(digits, at);
            }
            return Err(NumberError::InvalidDigit);
        }
        let d: u32 = (b - 0x30) as u32;
        proof {
            assert(digits.take(at + 1).drop_last() =~= digits.take(at));
            assert(digits.take(at + 1).last() == b);
            assert(digits_value(digits.take(at + 1)) == value * 10 + d);
        }
        if value > (u32::MAX - d) / 10 {
            proof {
                let run = digit_run(digits);
                assert(is_digit_run(digits, run)) by {
                    lemma_digit_run_exists(digits);
                }
                if run < at + 1 {
                    assert(is_digit(digits[run]));
                }
                lemma_digits_value_grows(digits, at + 1, run);
            }
            return Err(NumberError::TooLarge);
        }
        value = value * 10 + d;
        i = i + 1;
    }
    proof {
        lemma_digit_run_unique(digits, digits.len() as int);
        assert(digits.take(digits.len() as int) =~= digits);
    }
    Ok(value)
}

impl Protocol {
    /// The version that `s` writes. The first '/' and the first '.' divide
    /// the text: the major number stands between them, the minor number
    /// after the '.'. What stands before the '/' is not examined. The major
    /// number is read first, so its error comes before the minor's.
    pub open spec fn spec_parse(s: Seq<u8>) -> Result<Protocol, ProtocolError> {
        match (first_index(s, 0x2F), first_index(s, 0x2E)) {
            (Some(slash), Some(dot)) => if slash < dot {
                match spec_number(s.subrange(slash + 1, dot)) {
                    Err(e) => Err(ProtocolError::Major(e)),
                    Ok(major) => match spec_number(s.subrange(dot + 1, s.len() as int)) {
                        Err(e) => Err(ProtocolError::Minor(e)),
                        Ok(minor) => Ok(Protocol { major, minor }),
                    },
                }
            } else {
                Err(ProtocolError::Delimiter)
            },
            _ => Err(ProtocolError::Delimiter),
        }
    }

    /// The text of the version: "HTTP/", the major number, ".", the minor
    /// number.
    pub open spec fn spec_text(self) -> Seq<char> {
        "HTTP/"@ + decimal(self.major as nat) + "."@ + decimal(self.minor as nat)
    }

    /// Version 0.0, which stands for a request whose version has not been
    /// read yet.
    pub fn new() -> (protocol: Protocol)
        ensures
            protocol == (Protocol { major: 0, minor: 0 }),
    {
        Protocol { major: 0, minor: 0 }
    }

    /// Reads a version from the bytes of its text.
    pub fn parse(s: &[u8]) -> (r: Result<Protocol, ProtocolError>)
        ensures
            r == Protocol::spec_parse(s@),
    {
        let slash = match find_byte(s, 0x2F) {
            Some(i) => i,
            None => {
                return Err(ProtocolError::Delimiter);
            },
        };
        let dot = match find_byte(s, 0x2E) {
            Some(i) => i,
            None => {
                return Err(ProtocolError::Delimiter);
            },
        };
        if slash >= dot {
            return Err(ProtocolError::Delimiter);
        }
        let end = s.len();
        let major = match parse_number(vstd::slice::slice_subrange(s, slash + 1, dot)) {
            Ok(n) => n,
            Err(e) => {
                return Err(ProtocolError::Major(e));
            },
        };
        let minor = match parse_number(vstd::slice::slice_subrange(s, dot + 1, end)) {
            Ok(n) => n,
            Err(e) => {
                return Err(ProtocolError::Minor(e));
            },
        };
        Ok(Protocol { major, minor })
    }

    /// The message that reports that `s` is no version, for the reason
    /// `error`.
    pub open spec fn spec_invalid(s: Seq<char>, error: ProtocolError) -> Seq<char> {
        "'"@ + s + "' is not a valid http protocol string. Inner Error: "@ + error.spec_text()
    }

    /// Reads a version from its text. An error quotes the text and says
    /// what was wrong with it.
    pub fn from_str(s: &str) -> (r: Result<Protocol, String>)
        ensures
            match r {
                Ok(protocol) => Protocol::spec_parse(s.spec_bytes()) == Ok::<
                    Protocol,
                    ProtocolError,
                >(protocol),
                Err(message) => Protocol::spec_parse(s.spec_bytes()) matches Err(error)
                    && message@ == Protocol::spec_invalid(s@, error),
            },
    {
        match Protocol::parse(s.as_bytes()) {
            Ok(protocol) => Ok(protocol),
            Err(error) => {
                let message = String::from_str("'").concat(s).concat(
                    "' is not a valid http protocol string. Inner Error: ",
                ).concat(error.text());
                Err(message)
            },
        }
    }

    /// The text of the version.
    pub fn to_string(&self) -> (s: String)
        ensures
            s@ == self.spec_text(),
    {
        let mut s = String::from_str("HTTP/");
        push_decimal(&mut s, self.major as u64);
        s.append(".");
        push_decimal(&mut s, self.minor as u64);
        s
    }
}

impl NumberError {
    /// What the error says.
    pub open spec fn spec_text(self) -> Seq<char> {
        match self {
            NumberError::Empty => "cannot parse integer from empty string"@,
            NumberError::InvalidDigit => "invalid digit found in string"@,
            NumberError::TooLarge => "number too large to fit in target type"@,
        }
    }

    fn text(&self) -> (s: &'static str)
        ensures
            s@ == self.spec_text(),
    {
        match self {
            NumberError::Empty => "cannot parse integer from empty string",
            NumberError::InvalidDigit => "invalid digit found in string",
            NumberError::TooLarge => "number too large to fit in target type",
        }
    }
}

impl ProtocolError {
    /// What the error says.
    pub open spec fn spec_text(self) -> Seq<char> {
        match self {
            ProtocolError::Delimiter => "missing delimiter"@,
            ProtocolError::Major(e) => e.spec_text(),
            ProtocolError::Minor(e) => e.spec_text(),
        }
    }

    fn text(&self) -> (s: &'static str)
        ensures
            s@ == self.spec_text(),
    {
        match self {
            ProtocolError::Delimiter => "missing delimiter",
            ProtocolError::Major(e) => e.text(),
            ProtocolError::Minor(e) => e.text(),
        }
    }
}

impl std::str::FromStr for Protocol {
    type Err = String;

    /// The version that `s` writes, as `Protocol::from_str` gives it: this
    /// is what `str::parse` calls.
    fn from_str(s: &str) -> (r: Result<Protocol, String>)
        ensures
            match r {
                Ok(protocol) => Protocol::spec_parse(s.spec_bytes()) == Ok::<
                    Protocol,
                    ProtocolError,
                >(protocol),
                Err(message) => Protocol::spec_parse(s.spec_bytes()) matches Err(error)
                    && message@ == Protocol::spec_invalid(s@, error),
            },
    {
        Protocol::from_str(s)
    }
}

} // verus!
