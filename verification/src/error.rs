//! The error vocabulary: a message together with a numeric code, and the
//! textual rendering `"<message> (code: <code>)"`.

use vstd::prelude::*;
use vstd::string::StringExecFns;

verus! {

/// A failure reported by or about the embedded runtime. Carries a
/// human-readable message and a numeric code; any pair is representable,
/// and a value is never mutated once built.
#[derive(Debug)]
pub struct NodeError {
    message: String,
    code: i32,
}

/// The character a single decimal digit is written as.
pub open spec fn dec_digit_char(d: int) -> char {
    if d == 0 {
        '0'
    } else if d == 1 {
        '1'
    } else if d == 2 {
        '2'
    } else if d == 3 {
        '3'
    } else if d == 4 {
        '4'
    } else if d == 5 {
        '5'
    } else if d == 6 {
        '6'
    } else if d == 7 {
        '7'
    } else if d == 8 {
        '8'
    } else {
        '9'
    }
}

/// The decimal digits of a non-negative number, most significant first,
/// with no leading zeros (a single `'0'` for zero itself).
pub open spec fn dec_seq(n: nat) -> Seq<char>
    decreases n,
{
    if n < 10 {
        seq![dec_digit_char(n as int)]
    } else {
        dec_seq(n / 10) + seq![dec_digit_char((n % 10) as int)]
    }
}

/// The decimal rendering of a signed number: a leading `'-'` before the
/// digits of the magnitude when negative.
pub open spec fn signed_dec_seq(i: int) -> Seq<char> {
    if i < 0 {
        seq!['-'] + dec_seq((-i) as nat)
    } else {
        dec_seq(i as nat)
    }
}

fn digit_str(d: u64) -> (r: &'static str)
    requires
        d < 10,
    ensures
        r@ == seq![dec_digit_char(d as int)],
{
    let r = match d {
        0 => "0",
        1 => "1",
        2 => "2",
        3 => "3",
        4 => "4",
        5 => "5",
        6 => "6",
        7 => "7",
        8 => "8",
        _ => "9",
    };
    proof {
        reveal_strlit("0");
        reveal_strlit("1");
        reveal_strlit("2");
        reveal_strlit("3");
        reveal_strlit("4");
        reveal_strlit("5");
        reveal_strlit("6");
        reveal_strlit("7");
        reveal_strlit("8");
        reveal_strlit("9");
        assert(r@ =~= seq![dec_digit_char(d as int)]);
    }
    r
}

fn u64_dec_string(n: u64) -> (r: String)
    ensures
        r@ == dec_seq(n as nat),
    decreases n,
{
    if n < 10 {
        String::from_str(digit_str(n))
    } else {
        let prefix = u64_dec_string(n / 10);
        prefix.concat(digit_str(n % 10))
    }
}

fn i32_dec_string(code: i32) -> (r: String)
    ensures
        r@ == signed_dec_seq(code as int),
{
    if code < 0 {
        let mag: u64 = (-(code as i64)) as u64;
        let sign = String::from_str("-");
        proof {
            reveal_strlit("-");
            assert(sign@ =~= seq!['-']);
        }
        let digits = u64_dec_string(mag);
        sign.concat(digits.as_str())
    } else {
        u64_dec_string(code as u64)
    }
}

impl NodeError {
    /// The message this error carries.
    pub closed spec fn spec_message(&self) -> Seq<char> {
        self.message@
    }

    /// The code this error carries.
    pub closed spec fn spec_code(&self) -> int {
        self.code as int
    }

    /// The textual rendering of this error: the message, then the code.
    pub open spec fn spec_display(&self) -> Seq<char> {
        self.spec_message() + " (code: "@ + signed_dec_seq(self.spec_code()) + ")"@
    }

    pub fn new(message: String, code: i32) -> (r: Self)
        ensures
            r.spec_message() == message@,
            r.spec_code() == code as int,
    {
        Self { message, code }
    }

    pub fn message(&self) -> (r: &str)
        ensures
            r@ == self.spec_message(),
    {
        self.message.as_str()
    }

    pub fn code(&self) -> (r: i32)
        ensures
            r as int == self.spec_code(),
    {
        self.code
    }

    /// Renders the error as `"<message> (code: <code>)"`.
    pub fn display_string(&self) -> (r: String)
        ensures
            r@ == self.spec_display(),
    {
        let mut s = self.message.clone();
        s.append(" (code: ");
        let code_s = i32_dec_string(self.code);
        s.append(code_s.as_str());
        s.append(")");
        s
    }
}

} // verus!
