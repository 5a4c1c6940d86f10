//! What the directory answers and pushes, and how each item reads on the
//! wire.

use crate::error::ProtocolError;
use vstd::prelude::*;
use vstd::string::*;

verus! {

/// An answer of the directory to a command, or an event that it pushes into
/// a mailbox.
#[derive(Debug, PartialEq, Eq)]
pub enum Response {
    Success,
    Error(ProtocolError),
    Welcome { username: String, user_count: u32 },
    Chat { from: String, body: String, is_private: bool },
    Quit { username: String },
    Join { username: String },
}

/// The model of a [`Response`]: the same item with each text as the
/// sequence of its characters.
pub enum ResponseView {
    Success,
    Error(ProtocolError),
    Welcome { username: Seq<char>, user_count: u32 },
    Chat { from: Seq<char>, body: Seq<char>, is_private: bool },
    Quit { username: Seq<char> },
    Join { username: Seq<char> },
}

impl View for Response {
    type V = ResponseView;

    open spec fn view(&self) -> ResponseView {
        match *self {
            Response::Success => ResponseView::Success,
            Response::Error(kind) => ResponseView::Error(kind),
            Response::Welcome { username, user_count } => ResponseView::Welcome {
                username: username@,
                user_count,
            },
            Response::Chat { from, body, is_private } => ResponseView::Chat {
                from: from@,
                body: body@,
                is_private,
            },
            Response::Quit { username } => ResponseView::Quit { username: username@ },
            Response::Join { username } => ResponseView::Join { username: username@ },
        }
    }
}

/// The character that stands for the digit `d`.
pub open spec fn digit(d: nat) -> char
    recommends
        d < 10,
{
    if d == 0 {
        '0'
    } else if d == 1 {
        '1'
    } else if d == 2 {
        '2'
    } else if d == 3 {
        '3'
    } else if d == 4 {
        '4'
    } else if d == 5 {
        '5'
    } else if d == 6 {
        '6'
    } else if d == 7 {
        '7'
    } else if d == 8 {
        '8'
    } else {
        '9'
    }
}

/// The decimal numeral of `n`, without leading zeros.
pub open spec fn decimal(n: nat) -> Seq<char>
    decreases n,
{
    if n < 10 {
        seq![digit(n)]
    } else {
        decimal(n / 10).push(digit(n % 10))
    }
}

/// The decimal numeral of `n`, with a leading zero where it has one digit.
pub open spec fn two_digits(n: nat) -> Seq<char> {
    if n < 10 {
        seq!['0'] + decimal(n)
    } else {
        decimal(n)
    }
}

impl ResponseView {
    /// How the item reads on the wire, without the end of the line.
    pub open spec fn text(self) -> Seq<char> {
        match self {
            ResponseView::Success => "OK | Success"@,
            ResponseView::Error(kind) => "ERROR | "@ + two_digits(kind.spec_code() as nat)
                + " | "@ + kind.spec_message(),
            ResponseView::Welcome { username, user_count } => "WELCOME | "@ + username + " | "@
                + decimal(user_count as nat),
            ResponseView::Chat { from, body, is_private } => (if is_private {
                "PRIVATE | "@
            } else {
                "CHAT | "@
            }) + from + " | "@ + body,
            ResponseView::Quit { username } => "LEFT | "@ + username,
            ResponseView::Join { username } => "JOIN | "@ + username,
        }
    }

    /// The line that carries the item: its text and a line feed.
    pub open spec fn line(self) -> Seq<char> {
        self.text().push('\n')
    }
}

fn digit_text(d: u32) -> (text: &'static str)
    requires
        d < 10,
    ensures
        text@ == seq![digit(d as nat)],
{
    proof {
        reveal_strlit("0");
        reveal_strlit("1");
        reveal_strlit("2");
        reveal_strlit("3");
        reveal_strlit("4");
        reveal_strlit("5");
        reveal_strlit("6");
        reveal_strlit("7");
        reveal_strlit("8");
        reveal_strlit("9");
    }
    if d == 0 {
        "0"
    } else if d == 1 {
        "1"
    } else if d == 2 {
        "2"
    } else if d == 3 {
        "3"
    } else if d == 4 {
        "4"
    } else if d == 5 {
        "5"
    } else if d == 6 {
        "6"
    } else if d == 7 {
        "7"
    } else if d == 8 {
        "8"
    } else {
        "9"
    }
}

/// Appends the decimal numeral of `n` to `out`.
fn push_decimal(out: &mut String, n: u32)
    ensures
        final(out)@ == old(out)@ + decimal(n as nat),
    decreases n,
{
    if n >= 10 {
        push_decimal(out, n / 10);
    }
    out.append(digit_text(n % 10));
}

/// Appends the numeral of `n` to `out`, in two digits at least.
fn push_two_digits(out: &mut String, n: u32)
    ensures
        final(out)@ == old(out)@ + two_digits(n as nat),
{
    if n < 10 {
        proof {
            reveal_strlit("0");
        }
        out.append("0");
    }
    push_decimal(out, n);
}

impl Clone for Response {
    fn clone(&self) -> (copy: Self)
        ensures
            copy == *self,
    {
        match self {
            Response::Success => Response::Success,
            Response::Error(kind) => Response::Error(*kind),
            Response::Welcome { username, user_count } => Response::Welcome {
                username: username.clone(),
                user_count: *user_count,
            },
            Response::Chat { from, body, is_private } => Response::Chat {
                from: from.clone(),
                body: body.clone(),
                is_private: *is_private,
            },
            Response::Quit { username } => Response::Quit { username: username.clone() },
            Response::Join { username } => Response::Join { username: username.clone() },
        }
    }
}

impl Response {
    /// The text of the item as it goes over the wire, without the end of
    /// the line.
    pub fn to_string(&self) -> (text: String)
        ensures
            text@ == self@.text(),
    {
        match self {
            Response::Success => String::from_str("OK | Success"),
            Response::Error(kind) => {
                let mut text = String::from_str("ERROR | ");
                push_two_digits(&mut text, kind.code());
                text.append(" | ");
                text.append(kind.message());
                text
            },
            Response::Welcome { username, user_count } => {
                let mut text = String::from_str("WELCOME | ");
                text.append(username.as_str());
                text.append(" | ");
                push_decimal(&mut text, *user_count);
                text
            },
            Response::Chat { from, body, is_private } => {
                let mut text = if *is_private {
                    String::from_str("PRIVATE | ")
                } else {
                    String::from_str("CHAT | ")
                };
                text.append(from.as_str());
                text.append(" | ");
                text.append(body.as_str());
                text
            },
            Response::Quit { username } => {
                let mut text = String::from_str("LEFT | ");
                text.append(username.as_str());
                text
            },
            Response::Join { username } => {
                let mut text = String::from_str("JOIN | ");
                text.append(username.as_str());
                text
            },
        }
    }

    /// The line that carries the item: its text and a line feed.
    pub fn to_line(&self) -> (line: String)
        ensures
            line@ == self@.line(),
    {
        let mut line = self.to_string();
        proof {
            reveal_strlit("\n");
        }
        line.append("\n");
        line
    }
}

} // verus!
