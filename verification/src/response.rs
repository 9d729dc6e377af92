//! Framing an HTTP response head.
//!
//! A response is a status line, a byte-exact `Content-Length` header, a
//! fixed `Content-Type` header, and a blank line, followed by the raw file
//! bytes. Everything up to the blank line is computed here; the hosting
//! process streams it onto the connection before any body byte.

use vstd::prelude::*;

verus! {

/// The decimal digit character for `d`.
pub open spec fn dec_digit(d: nat) -> char {
    if d == 0 {
        '0'
    } else if d == 1 {
        '1'
    } else if d == 2 {
        '2'
    } else if d == 3 {
        '3'
    } else if d == 4 {
        '4'
    } else if d == 5 {
        '5'
    } else if d == 6 {
        '6'
    } else if d == 7 {
        '7'
    } else if d == 8 {
        '8'
    } else {
        '9'
    }
}

/// The decimal rendering of `n`, most significant digit first, with no
/// leading zeros (`0` renders as `0`).
pub open spec fn dec_str(n: nat) -> Seq<char>
    decreases n,
{
    if n < 10 {
        seq![dec_digit(n)]
    } else {
        dec_str(n / 10).push(dec_digit(n % 10))
    }
}

/// The status text of a response: `200 Ok` when a file was resolved,
/// `404 NOT FOUND` otherwise.
pub open spec fn status_text(found: bool) -> Seq<char> {
    if found {
        "200 Ok"@
    } else {
        "404 NOT FOUND"@
    }
}

/// The full response head for a body of `n` bytes: status line,
/// `Content-Length`, the fixed `Content-Type`, and the blank-line
/// terminator.
pub open spec fn head_of(found: bool, n: nat) -> Seq<char> {
    "HTTP/1.1 "@ + status_text(found) + "\r\nContent-Length: "@ + dec_str(n)
        + "\r\nContent-Type: text/html; charset=utf-8\r\n\r\n"@
}

/// The one-character string for the decimal digit `d`.
fn digit_str(d: u64) -> (s: &'static str)
    requires
        d < 10,
    ensures
        s@ == seq![dec_digit(d as nat)],
{
    proof {
        reveal_strlit("0");
        reveal_strlit("1");
        reveal_strlit("2");
        reveal_strlit("3");
        reveal_strlit("4");
        reveal_strlit("5");
        reveal_strlit("6");
        reveal_strlit("7");
        reveal_strlit("8");
        reveal_strlit("9");
        assert("0"@ =~= seq!['0']);
        assert("1"@ =~= seq!['1']);
        assert("2"@ =~= seq!['2']);
        assert("3"@ =~= seq!['3']);
        assert("4"@ =~= seq!['4']);
        assert("5"@ =~= seq!['5']);
        assert("6"@ =~= seq!['6']);
        assert("7"@ =~= seq!['7']);
        assert("8"@ =~= seq!['8']);
        assert("9"@ =~= seq!['9']);
    }
    match d {
        0 => "0",
        1 => "1",
        2 => "2",
        3 => "3",
        4 => "4",
        5 => "5",
        6 => "6",
        7 => "7",
        8 => "8",
        _ => "9",
    }
}

/// Renders `n` in decimal.
pub fn u64_dec(n: u64) -> (s: String)
    ensures
        s@ == dec_str(n as nat),
    decreases n,
{
    if n < 10 {
        digit_str(n).to_owned()
    } else {
        let mut s = u64_dec(n / 10);
        s.append(digit_str(n % 10));
        proof {
            assert(s@ =~= dec_str(n as nat));
        }
        s
    }
}

/// Builds the response head for a resolved file (`found`) or the fallback
/// page, with a byte-exact `Content-Length` of `content_length`. The
/// caller must write it whole, before any body byte.
pub fn response_head(found: bool, content_length: u64) -> (h: String)
    ensures
        h@ == head_of(found, content_length as nat),
{
    let mut h = String::from_str("HTTP/1.1 ");
    if found {
        h.append("200 Ok");
    } else {
        h.append("404 NOT FOUND");
    }
    h.append("\r\nContent-Length: ");
    let num = u64_dec(content_length);
    h.append(num.as_str());
    h.append("\r\nContent-Type: text/html; charset=utf-8\r\n\r\n");
    proof {
        assert(h@ =~= head_of(found, content_length as nat));
    }
    h
}

} // verus!
