//! Rendering of log lines.
//!
//! A rendered line is `<timestamp> [<LEVEL>] <message>` with the timestamp
//! written as `YYYY-MM-DD HH:MM:SS`. For the console the whole line is
//! wrapped in an ANSI color escape keyed by the level; the file sink gets
//! the unstyled line.

use vstd::prelude::*;
use vstd::string::StringExecFns;

use crate::clock::Timestamp;
use crate::level::Level;

verus! {

/// The decimal digit character for `d`.
pub open spec fn spec_digit(d: int) -> char
    recommends
        0 <= d <= 9,
{
    if d == 0 {
        '0'
    } else if d == 1 {
        '1'
    } else if d == 2 {
        '2'
    } else if d == 3 {
        '3'
    } else if d == 4 {
        '4'
    } else if d == 5 {
        '5'
    } else if d == 6 {
        '6'
    } else if d == 7 {
        '7'
    } else if d == 8 {
        '8'
    } else {
        '9'
    }
}

/// `n` written with exactly two digits, zero-padded.
pub open spec fn spec_two_digits(n: int) -> Seq<char>
    recommends
        0 <= n <= 99,
{
    seq![spec_digit(n / 10), spec_digit(n % 10)]
}

/// `n` written with exactly four digits, zero-padded.
pub open spec fn spec_four_digits(n: int) -> Seq<char>
    recommends
        0 <= n <= 9999,
{
    seq![
        spec_digit(n / 1000),
        spec_digit(n / 100 % 10),
        spec_digit(n / 10 % 10),
        spec_digit(n % 10),
    ]
}

/// A timestamp rendered as `YYYY-MM-DD HH:MM:SS`.
pub open spec fn spec_timestamp(ts: Timestamp) -> Seq<char> {
    spec_four_digits(ts.year as int) + "-"@ + spec_two_digits(ts.month as int) + "-"@
        + spec_two_digits(ts.day as int) + " "@ + spec_two_digits(ts.hour as int) + ":"@
        + spec_two_digits(ts.minute as int) + ":"@ + spec_two_digits(ts.second as int)
}

/// The unstyled line `<timestamp> [<LEVEL>] <message>` that both sinks share.
pub open spec fn spec_render(ts: Timestamp, level: Level, message: Seq<char>) -> Seq<char> {
    spec_timestamp(ts) + " ["@ + level.spec_label() + "] "@ + message
}

/// `line` wrapped in the ANSI color escape for `level`:
/// `ESC [ <code> m <line> ESC [ 0 m`.
pub open spec fn spec_styled(level: Level, line: Seq<char>) -> Seq<char> {
    "\x1b["@ + level.spec_color() + "m"@ + line + "\x1b[0m"@
}

/// The decimal digit character for `d`.
fn digit_char(d: u32) -> (c: char)
    requires
        d <= 9,
    ensures
        c == spec_digit(d as int),
{
    if d == 0 {
        '0'
    } else if d == 1 {
        '1'
    } else if d == 2 {
        '2'
    } else if d == 3 {
        '3'
    } else if d == 4 {
        '4'
    } else if d == 5 {
        '5'
    } else if d == 6 {
        '6'
    } else if d == 7 {
        '7'
    } else if d == 8 {
        '8'
    } else {
        '9'
    }
}

/// A single decimal digit as a string slice.
fn digit_str(d: u32) -> (r: &'static str)
    requires
        d <= 9,
    ensures
        r@ == seq![spec_digit(d as int)],
{
    if d == 0 {
        proof {
            reveal_strlit("0");
            assert("0"@ =~= seq![spec_digit(0int)]);
        }
        "0"
    } else if d == 1 {
        proof {
            reveal_strlit("1");
            assert("1"@ =~= seq![spec_digit(1int)]);
        }
        "1"
    } else if d == 2 {
        proof {
            reveal_strlit("2");
            assert("2"@ =~= seq![spec_digit(2int)]);
        }
        "2"
    } else if d == 3 {
        proof {
            reveal_strlit("3");
            assert("3"@ =~= seq![spec_digit(3int)]);
        }
        "3"
    } else if d == 4 {
        proof {
            reveal_strlit("4");
            assert("4"@ =~= seq![spec_digit(4int)]);
        }
        "4"
    } else if d == 5 {
        proof {
            reveal_strlit("5");
            assert("5"@ =~= seq![spec_digit(5int)]);
        }
        "5"
    } else if d == 6 {
        proof {
            reveal_strlit("6");
            assert("6"@ =~= seq![spec_digit(6int)]);
        }
        "6"
    } else if d == 7 {
        proof {
            reveal_strlit("7");
            assert("7"@ =~= seq![spec_digit(7int)]);
        }
        "7"
    } else if d == 8 {
        proof {
            reveal_strlit("8");
            assert("8"@ =~= seq![spec_digit(8int)]);
        }
        "8"
    } else {
        proof {
            reveal_strlit("9");
            assert("9"@ =~= seq![spec_digit(9int)]);
        }
        "9"
    }
}

/// Appends `n` to `out`, zero-padded to two digits.
fn push_two_digits(out: &mut String, n: u32)
    requires
        n <= 99,
    ensures
        final(out)@ == old(out)@ + spec_two_digits(n as int),
{
    out.append(digit_str(n / 10));
    out.append(digit_str(n % 10));
    proof {
        assert(out@ =~= old(out)@ + spec_two_digits(n as int));
    }
}

/// Appends `n` to `out`, zero-padded to four digits.
fn push_four_digits(out: &mut String, n: u32)
    requires
        n <= 9999,
    ensures
        final(out)@ == old(out)@ + spec_four_digits(n as int),
{
    out.append(digit_str(n / 1000));
    out.append(digit_str(n / 100 % 10));
    out.append(digit_str(n / 10 % 10));
    out.append(digit_str(n % 10));
    proof {
        assert(out@ =~= old(out)@ + spec_four_digits(n as int));
    }
}

/// A timestamp rendered as `YYYY-MM-DD HH:MM:SS`.
pub fn format_timestamp(ts: &Timestamp) -> (r: String)
    requires
        ts.wf(),
    ensures
        r@ == spec_timestamp(*ts),
{
    let mut out = String::new();
    push_four_digits(&mut out, ts.year);
    out.append("-");
    push_two_digits(&mut out, ts.month);
    out.append("-");
    push_two_digits(&mut out, ts.day);
    out.append(" ");
    push_two_digits(&mut out, ts.hour);
    out.append(":");
    push_two_digits(&mut out, ts.minute);
    out.append(":");
    push_two_digits(&mut out, ts.second);
    proof {
        assert(out@ =~= spec_timestamp(*ts));
    }
    out
}

/// The unstyled line `<timestamp> [<LEVEL>] <message>`.
pub fn render_line(ts: &Timestamp, level: &Level, message: &str) -> (r: String)
    requires
        ts.wf(),
    ensures
        r@ == spec_render(*ts, *level, message@),
{
    let mut out = format_timestamp(ts);
    out.append(" [");
    let label = level.label();
    out.append(label.as_str());
    out.append("] ");
    out.append(message);
    proof {
        assert(out@ =~= spec_render(*ts, *level, message@));
    }
    out
}

/// `line` wrapped in the ANSI color escape for `level`.
pub fn styled_line(level: &Level, line: &str) -> (r: String)
    ensures
        r@ == spec_styled(*level, line@),
{
    let mut out = String::new();
    out.append("\x1b[");
    let color = level.ansi_color();
    out.append(color.as_str());
    out.append("m");
    out.append(line);
    out.append("\x1b[0m");
    proof {
        assert(out@ =~= spec_styled(*level, line@));
    }
    out
}

} // verus!
