//! The console lines, character for character.

use vstd::prelude::*;

verus! {

/// The character of one decimal digit.
pub open spec fn digit_char(d: nat) -> char {
    if d == 0 {
        '0'
    } else if d == 1 {
        '1'
    } else if d == 2 {
        '2'
    } else if d == 3 {
        '3'
    } else if d == 4 {
        '4'
    } else if d == 5 {
        '5'
    } else if d == 6 {
        '6'
    } else if d == 7 {
        '7'
    } else if d == 8 {
        '8'
    } else {
        '9'
    }
}

/// The decimal numeral of `n`, most significant digit first, without
/// leading zeros.
pub open spec fn decimal(n: nat) -> Seq<char>
    decreases n,
{
    if n < 10 {
        seq![digit_char(n)]
    } else {
        decimal(n / 10).push(digit_char(n % 10))
    }
}

/// The line printed for the sample with the given running index.
pub open spec fn spec_sample_line(index: nat, text: Seq<char>) -> Seq<char> {
    "Received sample no: "@ + decimal(index) + ", with content: "@ + text
}

/// The start-up line that reports the payload's size in bytes.
pub open spec fn spec_size_line(size: nat) -> Seq<char> {
    "[Rust] Size of MapApiLanesStamped: "@ + decimal(size)
}

/// The fixed notices of a run.
#[derive(Clone, Copy, PartialEq, Eq, Structural, Debug)]
pub enum Notice {
    /// Printed once the instance name is resolved, before discovery.
    ReceiveMode,
    /// Printed after every discovery attempt that found nothing.
    NoServiceFound,
    /// Printed once after the subscription is made.
    Subscribed,
    /// Printed once when consumption is over.
    Unsubscribing,
}

/// The exact text of each notice.
pub open spec fn notice_text(notice: Notice) -> Seq<char> {
    match notice {
        Notice::ReceiveMode => "Running in Recv/Proxy mode"@,
        Notice::NoServiceFound => "No service found, retrying in 0.5 seconds"@,
        Notice::Subscribed => "Subscribed!"@,
        Notice::Unsubscribing => "Unsubscribing..."@,
    }
}

impl Notice {
    /// The line to print for this notice.
    pub fn text(&self) -> (r: &'static str)
        ensures
            r@ == notice_text(*self),
    {
        match self {
            Notice::ReceiveMode => "Running in Recv/Proxy mode",
            Notice::NoServiceFound => "No service found, retrying in 0.5 seconds",
            Notice::Subscribed => "Subscribed!",
            Notice::Unsubscribing => "Unsubscribing...",
        }
    }
}

fn digit_str(d: usize) -> (r: &'static str)
    requires
        d < 10,
    ensures
        r@ == seq![digit_char(d as nat)],
{
    proof {
        reveal_strlit("0");
        reveal_strlit("1");
        reveal_strlit("2");
        reveal_strlit("3");
        reveal_strlit("4");
        reveal_strlit("5");
        reveal_strlit("6");
        reveal_strlit("7");
        reveal_strlit("8");
        reveal_strlit("9");
    }
    let r = if d == 0 {
        "0"
    } else if d == 1 {
        "1"
    } else if d == 2 {
        "2"
    } else if d == 3 {
        "3"
    } else if d == 4 {
        "4"
    } else if d == 5 {
        "5"
    } else if d == 6 {
        "6"
    } else if d == 7 {
        "7"
    } else if d == 8 {
        "8"
    } else {
        "9"
    };
    assert(r@ =~= seq![digit_char(d as nat)]);
    r
}

/// Writes `n` in decimal.
pub fn decimal_string(n: usize) -> (r: String)
    ensures
        r@ == decimal(n as nat),
    decreases n,
{
    if n < 10 {
        String::from_str(digit_str(n))
    } else {
        let mut r = decimal_string(n / 10);
        r.append(digit_str(n % 10));
        assert(r@ =~= decimal(n as nat));
        r
    }
}

/// Builds the line for one received sample.
pub fn sample_line(index: usize, text: &str) -> (r: String)
    ensures
        r@ == spec_sample_line(index as nat, text@),
{
    let number = decimal_string(index);
    let mut r = String::from_str("Received sample no: ");
    r.append(number.as_str());
    r.append(", with content: ");
    r.append(text);
    r
}

/// Builds the start-up line that reports the payload's size.
pub fn size_line(size: usize) -> (r: String)
    ensures
        r@ == spec_size_line(size as nat),
{
    let number = decimal_string(size);
    let mut r = String::from_str("[Rust] Size of MapApiLanesStamped: ");
    r.append(number.as_str());
    r
}

} // verus!
