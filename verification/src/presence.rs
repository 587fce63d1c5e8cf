//! The payload that is sent to the presence service for a tab count.

use vstd::prelude::*;
use vstd::string::StringExecFns;

verus! {

/// What kind of activity a payload reports.
#[derive(Clone, Copy, Debug, PartialEq, Eq, Structural)]
pub enum ActivityKind {
    Playing,
    Streaming,
    Listening,
    Watching,
    Custom,
    Competing,
}

/// One activity update: the status line and its kind. Every other field of the
/// presence is left unset by whoever sends it.
#[derive(Clone, Debug)]
pub struct ActivityPayload {
    pub state: String,
    pub kind: ActivityKind,
}

/// The mathematical content of an [`ActivityPayload`].
pub struct PayloadView {
    pub state: Seq<char>,
    pub kind: ActivityKind,
}

impl View for ActivityPayload {
    type V = PayloadView;

    open spec fn view(&self) -> PayloadView {
        PayloadView { state: self.state@, kind: self.kind }
    }
}

/// The character that writes the digit `d`.
pub open spec fn digit_char(d: nat) -> char
    recommends
        d < 10,
{
    if d == 0 {
        '0'
    } else if d == 1 {
        '1'
    } else if d == 2 {
        '2'
    } else if d == 3 {
        '3'
    } else if d == 4 {
        '4'
    } else if d == 5 {
        '5'
    } else if d == 6 {
        '6'
    } else if d == 7 {
        '7'
    } else if d == 8 {
        '8'
    } else {
        '9'
    }
}

/// `n` in decimal, without sign, padding or leading zeros.
pub open spec fn decimal(n: nat) -> Seq<char>
    decreases n,
{
    if n < 10 {
        seq![digit_char(n)]
    } else {
        decimal(n / 10).push(digit_char(n % 10))
    }
}

/// The words that follow the count in a status line.
pub open spec fn status_suffix() -> Seq<char> {
    seq![' ', 't', 'a', 'b', 's', ' ', 'o', 'p', 'e', 'n']
}

/// The status line for a tab count: the count in decimal, then ` tabs open`.
pub open spec fn status_text(count: u32) -> Seq<char> {
    decimal(count as nat) + status_suffix()
}

/// The payload that reports `count`.
pub open spec fn payload_for(count: u32) -> PayloadView {
    PayloadView { state: status_text(count), kind: ActivityKind::Custom }
}

/// The one-character string for a digit.
fn digit_str(d: u32) -> (s: &'static str)
    requires
        d < 10,
    ensures
        s@ == seq![digit_char(d as nat)],
{
    proof {
        reveal_strlit("0");
        reveal_strlit("1");
        reveal_strlit("2");
        reveal_strlit("3");
        reveal_strlit("4");
        reveal_strlit("5");
        reveal_strlit("6");
        reveal_strlit("7");
        reveal_strlit("8");
        reveal_strlit("9");
    }
    let s = if d == 0 {
        "0"
    } else if d == 1 {
        "1"
    } else if d == 2 {
        "2"
    } else if d == 3 {
        "3"
    } else if d == 4 {
        "4"
    } else if d == 5 {
        "5"
    } else if d == 6 {
        "6"
    } else if d == 7 {
        "7"
    } else if d == 8 {
        "8"
    } else {
        "9"
    };
    assert(s@ =~= seq![digit_char(d as nat)]);
    s
}

/// Appends `n` in decimal to `text`.
fn push_decimal(text: &mut String, n: u32)
    ensures
        final(text)@ == old(text)@ + decimal(n as nat),
    decreases n,
{
    if n >= 10 {
        push_decimal(text, n / 10);
    }
    text.append(digit_str(n % 10));
    assert(text@ =~= old(text)@ + decimal(n as nat));
}

/// Writes the status line for `count`.
pub fn format_status(count: u32) -> (text: String)
    ensures
        text@ == status_text(count),
{
    let mut text = String::new();
    push_decimal(&mut text, count);
    proof {
        reveal_strlit(" tabs open");
    }
    text.append(" tabs open");
    assert(text@ =~= status_text(count));
    text
}

impl ActivityPayload {
    /// Builds the payload for a tab count: the status line `<count> tabs open`
    /// and the kind `Custom`.
    pub fn for_count(count: u32) -> (payload: ActivityPayload)
        ensures
            payload@ == payload_for(count),
    {
        ActivityPayload { state: format_status(count), kind: ActivityKind::Custom }
    }
}

} // verus!
