//! The server's reply: a fixed multi-line textual report naming the
//! request's origin endpoint and the number of bytes received.  The reply
//! never echoes the request body — only its size and sender.

use vstd::prelude::*;
use vstd::string::StringExecFns;

use crate::endpoint::Endpoint;

verus! {

/// The decimal digit character for a value below ten.
pub open spec fn digit_char(d: int) -> char
    recommends
        0 <= d < 10,
{
    if d == 0 {
        '0'
    } else if d == 1 {
        '1'
    } else if d == 2 {
        '2'
    } else if d == 3 {
        '3'
    } else if d == 4 {
        '4'
    } else if d == 5 {
        '5'
    } else if d == 6 {
        '6'
    } else if d == 7 {
        '7'
    } else if d == 8 {
        '8'
    } else {
        '9'
    }
}

/// The usual decimal rendering of a number: no sign, no leading zero
/// except for the number zero itself.
pub open spec fn decimal(n: nat) -> Seq<char>
    decreases n,
{
    if n < 10 {
        seq![digit_char(n as int)]
    } else {
        decimal(n / 10).push(digit_char((n % 10) as int))
    }
}

/// The single-character string for a decimal digit.
fn digit_str(d: usize) -> (r: &'static str)
    requires
        d < 10,
    ensures
        r@ == seq![digit_char(d as int)],
{
    match d {
        0 => {
            proof {
                reveal_strlit("0");
                assert(("0")@ =~= seq![digit_char(0)]);
            }
            "0"
        },
        1 => {
            proof {
                reveal_strlit("1");
                assert(("1")@ =~= seq![digit_char(1)]);
            }
            "1"
        },
        2 => {
            proof {
                reveal_strlit("2");
                assert(("2")@ =~= seq![digit_char(2)]);
            }
            "2"
        },
        3 => {
            proof {
                reveal_strlit("3");
                assert(("3")@ =~= seq![digit_char(3)]);
            }
            "3"
        },
        4 => {
            proof {
                reveal_strlit("4");
                assert(("4")@ =~= seq![digit_char(4)]);
            }
            "4"
        },
        5 => {
            proof {
                reveal_strlit("5");
                assert(("5")@ =~= seq![digit_char(5)]);
            }
            "5"
        },
        6 => {
            proof {
                reveal_strlit("6");
                assert(("6")@ =~= seq![digit_char(6)]);
            }
            "6"
        },
        7 => {
            proof {
                reveal_strlit("7");
                assert(("7")@ =~= seq![digit_char(7)]);
            }
            "7"
        },
        8 => {
            proof {
                reveal_strlit("8");
                assert(("8")@ =~= seq![digit_char(8)]);
            }
            "8"
        },
        _ => {
            proof {
                reveal_strlit("9");
                assert(("9")@ =~= seq![digit_char(9)]);
            }
            "9"
        },
    }
}

/// Append the decimal rendering of `n` to the string.
pub fn push_decimal(s: &mut String, n: usize)
    ensures
        final(s)@ == old(s)@ + decimal(n as nat),
    decreases n,
{
    let ghost entry: Seq<char> = s@;
    if n >= 10 {
        push_decimal(s, n / 10);
    }
    let d = digit_str(n % 10);
    s.append(d);
    proof {
        if n >= 10 {
            assert(s@ =~= entry + decimal((n / 10) as nat).push(digit_char((n % 10) as int)));
        } else {
            assert(s@ =~= entry + decimal(n as nat));
        }
    }
}

/// The server's reply for a request of `count` bytes received from
/// `origin`: the fixed report template with the origin endpoint and the
/// byte count filled in.
pub open spec fn server_answer(origin: Seq<char>, count: nat) -> Seq<char> {
    ("\n        /// THIS IS ANSWER FROM SERVER ///\n\n          - Request origin: ")@ + origin
        + ("\n          - Bytes received: ")@ + decimal(count)
        + ("\n\n        /// END OF ANSWER FROM SERVER  ///\n    ")@
}

/// Construct the server's reply message for a request received from
/// `origin` with `count` bytes.
pub fn make_server_answer(origin: &Endpoint, count: usize) -> (a: String)
    ensures
        a@ == server_answer(origin@, count as nat),
{
    let mut a = String::new();
    a.append("\n        /// THIS IS ANSWER FROM SERVER ///\n\n          - Request origin: ");
    a.append(origin.as_str());
    a.append("\n          - Bytes received: ");
    push_decimal(&mut a, count);
    a.append("\n\n        /// END OF ANSWER FROM SERVER  ///\n    ");
    proof {
        assert(a@ =~= server_answer(origin@, count as nat));
    }
    a
}

} // verus!
