//! Verified builders for the display strings the presentation layer
//! shows: clock-style and human-readable durations, and the big
//! seven-segment countdown.

use vstd::prelude::*;
use vstd::string::StringExecFns;

use crate::text::string_of_chars;

verus! {

/// The decimal digit character for a value below ten.
pub open spec fn digit_char(d: int) -> char {
    if d == 0 {
        '0'
    } else if d == 1 {
        '1'
    } else if d == 2 {
        '2'
    } else if d == 3 {
        '3'
    } else if d == 4 {
        '4'
    } else if d == 5 {
        '5'
    } else if d == 6 {
        '6'
    } else if d == 7 {
        '7'
    } else if d == 8 {
        '8'
    } else {
        '9'
    }
}

/// The decimal digits of a number, most significant first, with no
/// leading zeros (a lone zero for zero).
pub open spec fn dec_chars(n: int) -> Seq<char>
    decreases n,
{
    if n < 10 {
        seq![digit_char(n)]
    } else {
        dec_chars(n / 10).push(digit_char(n % 10))
    }
}

/// The decimal digits of a number, zero-padded on the left to at least
/// two places.
pub open spec fn dec_chars_pad2(n: int) -> Seq<char> {
    if n < 10 {
        seq!['0', digit_char(n)]
    } else {
        dec_chars(n)
    }
}

/// The decimal digit character for a value below ten.
fn digit_char_exec(d: u32) -> (c: char)
    requires
        d < 10,
    ensures
        c == digit_char(d as int),
{
    match d {
        0 => '0',
        1 => '1',
        2 => '2',
        3 => '3',
        4 => '4',
        5 => '5',
        6 => '6',
        7 => '7',
        8 => '8',
        _ => '9',
    }
}

/// Append the decimal digits of `n`.
fn push_decimal(out: &mut Vec<char>, n: u32)
    ensures
        final(out)@ == old(out)@ + dec_chars(n as int),
    decreases n,
{
    if n < 10 {
        out.push(digit_char_exec(n));
        proof {
            assert(final(out)@ =~= old(out)@ + dec_chars(n as int));
        }
    } else {
        push_decimal(out, n / 10);
        out.push(digit_char_exec(n % 10));
        proof {
            assert(final(out)@ =~= old(out)@ + dec_chars(n as int));
        }
    }
}

/// Append the decimal digits of `n`, zero-padded to at least two places.
fn push_decimal_pad2(out: &mut Vec<char>, n: u32)
    ensures
        final(out)@ == old(out)@ + dec_chars_pad2(n as int),
{
    if n < 10 {
        out.push('0');
        out.push(digit_char_exec(n));
        proof {
            assert(final(out)@ =~= old(out)@ + dec_chars_pad2(n as int));
        }
    } else {
        push_decimal(out, n);
    }
}

/// A duration as `minutes:seconds` with the seconds zero-padded to two
/// places.
pub open spec fn duration_clock_spec(secs: int) -> Seq<char> {
    dec_chars(secs / 60) + seq![':'] + dec_chars_pad2(secs % 60)
}

/// Format duration in seconds to human readable format
pub fn format_duration(secs: u32) -> (r: String)
    ensures
        r@ == duration_clock_spec(secs as int),
{
    let mut out: Vec<char> = Vec::new();
    push_decimal(&mut out, secs / 60);
    out.push(':');
    push_decimal_pad2(&mut out, secs % 60);
    proof {
        assert(out@ =~= duration_clock_spec(secs as int));
    }
    string_of_chars(&out)
}

/// A duration in short form: `NhMm` when there are whole hours, `Mm`
/// when only whole minutes, `0m` otherwise.
pub open spec fn duration_short_spec(secs: int) -> Seq<char> {
    let hours = secs / 3600;
    let minutes = (secs % 3600) / 60;
    if hours > 0 {
        dec_chars(hours) + seq!['h'] + dec_chars(minutes) + seq!['m']
    } else if minutes > 0 {
        dec_chars(minutes) + seq!['m']
    } else {
        seq!['0', 'm']
    }
}

/// Format duration to short format (e.g., "2h15m" or "45m")
pub fn format_duration_short(secs: u32) -> (r: String)
    ensures
        r@ == duration_short_spec(secs as int),
{
    let hours = secs / 3600;
    let minutes = (secs % 3600) / 60;
    let mut out: Vec<char> = Vec::new();
    if hours > 0 {
        push_decimal(&mut out, hours);
        out.push('h');
        push_decimal(&mut out, minutes);
        out.push('m');
    } else if minutes > 0 {
        push_decimal(&mut out, minutes);
        out.push('m');
    } else {
        out.push('0');
        out.push('m');
    }
    proof {
        assert(out@ =~= duration_short_spec(secs as int));
    }
    string_of_chars(&out)
}

/// A duration in long form: hours, minutes and seconds, dropping the
/// leading units that are zero.
pub open spec fn duration_long_spec(secs: int) -> Seq<char> {
    let hours = secs / 3600;
    let minutes = (secs % 3600) / 60;
    let seconds = secs % 60;
    if hours > 0 {
        dec_chars(hours) + seq!['h', ' '] + dec_chars(minutes) + seq!['m', ' '] + dec_chars(seconds)
            + seq!['s']
    } else if minutes > 0 {
        dec_chars(minutes) + seq!['m', ' '] + dec_chars(seconds) + seq!['s']
    } else {
        dec_chars(seconds) + seq!['s']
    }
}

/// Format duration for CLI output
pub fn format_duration_long(secs: u32) -> (r: String)
    ensures
        r@ == duration_long_spec(secs as int),
{
    let hours = secs / 3600;
    let minutes = (secs % 3600) / 60;
    let seconds = secs % 60;
    let mut out: Vec<char> = Vec::new();
    if hours > 0 {
        push_decimal(&mut out, hours);
        out.push('h');
        out.push(' ');
        push_decimal(&mut out, minutes);
        out.push('m');
        out.push(' ');
        push_decimal(&mut out, seconds);
        out.push('s');
    } else if minutes > 0 {
        push_decimal(&mut out, minutes);
        out.push('m');
        out.push(' ');
        push_decimal(&mut out, seconds);
        out.push('s');
    } else {
        push_decimal(&mut out, seconds);
        out.push('s');
    }
    proof {
        assert(out@ =~= duration_long_spec(secs as int));
    }
    string_of_chars(&out)
}

/// One row of the five-row glyph for a clock character: block art for
/// the ten digits, a two-dot column for the colon.
pub open spec fn glyph_row(c: char, row: int) -> Seq<char> {
    if c == ':' {
        if row == 1 || row == 3 {
            "█"@
        } else {
            " "@
        }
    } else if c == '0' {
        if row == 0 {
            " ███ "@
        } else if row == 4 {
            " ███ "@
        } else {
            "█   █"@
        }
    } else if c == '1' {
        if row == 0 {
            "  █  "@
        } else if row == 1 {
            " ██  "@
        } else if row == 4 {
            " ███ "@
        } else {
            "  █  "@
        }
    } else if c == '2' {
        if row == 0 {
            " ███ "@
        } else if row == 1 {
            "    █"@
        } else if row == 2 {
            " ███ "@
        } else if row == 3 {
            "█    "@
        } else {
            "█████"@
        }
    } else if c == '3' {
        if row == 0 {
            "█████"@
        } else if row == 1 {
            "    █"@
        } else if row == 2 {
            " ███ "@
        } else if row == 3 {
            "    █"@
        } else {
            "█████"@
        }
    } else if c == '4' {
        if row == 0 {
            "█   █"@
        } else if row == 1 {
            "█   █"@
        } else if row == 2 {
            "█████"@
        } else {
            "    █"@
        }
    } else if c == '5' {
        if row == 0 {
            "█████"@
        } else if row == 1 {
            "█    "@
        } else if row == 2 {
            "█████"@
        } else if row == 3 {
            "    █"@
        } else {
            "█████"@
        }
    } else if c == '6' {
        if row == 0 {
            " ███ "@
        } else if row == 1 {
            "█    "@
        } else if row == 2 {
            "█████"@
        } else if row == 3 {
            "█   █"@
        } else {
            " ███ "@
        }
    } else if c == '7' {
        if row == 0 {
            "█████"@
        } else if row == 1 {
            "    █"@
        } else if row == 2 {
            "   █ "@
        } else if row == 3 {
            "  █  "@
        } else {
            "  █  "@
        }
    } else if c == '8' {
        if row == 0 {
            " ███ "@
        } else if row == 1 {
            "█   █"@
        } else if row == 2 {
            " ███ "@
        } else if row == 3 {
            "█   █"@
        } else {
            " ███ "@
        }
    } else if c == '9' {
        if row == 0 {
            " ███ "@
        } else if row == 1 {
            "█   █"@
        } else if row == 2 {
            "█████"@
        } else if row == 3 {
            "    █"@
        } else {
            " ███ "@
        }
    } else {
        ""@
    }
}

/// One row of the glyph for a clock character.
fn glyph_row_str(c: char, row: usize) -> (r: &'static str)
    requires
        row < 5,
    ensures
        r@ == glyph_row(c, row as int),
{
    if c == ':' {
        if row == 1 || row == 3 {
            "█"
        } else {
            " "
        }
    } else if c == '0' {
        if row == 0 {
            " ███ "
        } else if row == 4 {
            " ███ "
        } else {
            "█   █"
        }
    } else if c == '1' {
        if row == 0 {
            "  █  "
        } else if row == 1 {
            " ██  "
        } else if row == 4 {
            " ███ "
        } else {
            "  █  "
        }
    } else if c == '2' {
        if row == 0 {
            " ███ "
        } else if row == 1 {
            "    █"
        } else if row == 2 {
            " ███ "
        } else if row == 3 {
            "█    "
        } else {
            "█████"
        }
    } else if c == '3' {
        if row == 0 {
            "█████"
        } else if row == 1 {
            "    █"
        } else if row == 2 {
            " ███ "
        } else if row == 3 {
            "    █"
        } else {
            "█████"
        }
    } else if c == '4' {
        if row == 0 {
            "█   █"
        } else if row == 1 {
            "█   █"
        } else if row == 2 {
            "█████"
        } else {
            "    █"
        }
    } else if c == '5' {
        if row == 0 {
            "█████"
        } else if row == 1 {
            "█    "
        } else if row == 2 {
            "█████"
        } else if row == 3 {
            "    █"
        } else {
            "█████"
        }
    } else if c == '6' {
        if row == 0 {
            " ███ "
        } else if row == 1 {
            "█    "
        } else if row == 2 {
            "█████"
        } else if row == 3 {
            "█   █"
        } else {
            " ███ "
        }
    } else if c == '7' {
        if row == 0 {
            "█████"
        } else if row == 1 {
            "    █"
        } else if row == 2 {
            "   █ "
        } else if row == 3 {
            "  █  "
        } else {
            "  █  "
        }
    } else if c == '8' {
        if row == 0 {
            " ███ "
        } else if row == 1 {
            "█   █"
        } else if row == 2 {
            " ███ "
        } else if row == 3 {
            "█   █"
        } else {
            " ███ "
        }
    } else if c == '9' {
        if row == 0 {
            " ███ "
        } else if row == 1 {
            "█   █"
        } else if row == 2 {
            "█████"
        } else if row == 3 {
            "    █"
        } else {
            " ███ "
        }
    } else {
        ""
    }
}

/// The characters of the `MM:SS` clock reading.
pub open spec fn time_chars_spec(minutes: int, seconds: int) -> Seq<char> {
    dec_chars_pad2(minutes) + seq![':'] + dec_chars_pad2(seconds)
}

/// One row of the big clock: the glyph rows of the clock characters,
/// separated by single spaces.
pub open spec fn big_row(ts: Seq<char>, row: int) -> Seq<char>
    decreases ts.len(),
{
    if ts.len() == 0 {
        Seq::empty()
    } else if ts.len() == 1 {
        glyph_row(ts[0], row)
    } else {
        big_row(ts.drop_last(), row) + " "@ + glyph_row(ts.last(), row)
    }
}

/// The whole five-row block-art clock reading, rows joined by newlines.
pub open spec fn big_time_spec(minutes: int, seconds: int) -> Seq<char> {
    let ts = time_chars_spec(minutes, seconds);
    big_row(ts, 0) + "\n"@ + big_row(ts, 1) + "\n"@ + big_row(ts, 2) + "\n"@ + big_row(ts, 3)
        + "\n"@ + big_row(ts, 4)
}

/// Create big ASCII art time display
pub fn create_big_time(minutes: u32, seconds: u32) -> (r: String)
    ensures
        r@ == big_time_spec(minutes as int, seconds as int),
{
    let mut ts: Vec<char> = Vec::new();
    push_decimal_pad2(&mut ts, minutes);
    ts.push(':');
    push_decimal_pad2(&mut ts, seconds);
    proof {
        assert(ts@ =~= time_chars_spec(minutes as int, seconds as int));
    }
    let mut out = String::new();
    let mut row: usize = 0;
    while row < 5
        invariant
            row <= 5,
            ts@ == time_chars_spec(minutes as int, seconds as int),
            ts@.len() >= 1,
            out@ == partial_rows(ts@, row as int),
        decreases 5 - row,
    {
        if row > 0 {
            out.append("\n");
        }
        let mut i: usize = 0;
        while i < ts.len()
            invariant
                row < 5,
                i <= ts@.len(),
                ts@ == time_chars_spec(minutes as int, seconds as int),
                ts@.len() >= 1,
                out@ == partial_rows(ts@, row as int) + (if row > 0 {
                    "\n"@
                } else {
                    Seq::<char>::empty()
                }) + big_row(ts@.take(i as int), row as int),
            decreases ts@.len() - i,
        {
            if i > 0 {
                out.append(" ");
            }
            let g = glyph_row_str(ts[i], row);
            out.append(g);
            proof {
                assert(ts@.take(i + 1).drop_last() =~= ts@.take(i as int));
                assert(ts@.take(i + 1).last() == ts@[i as int]);
                if i == 0 {
                    assert(big_row(ts@.take(1), row as int) == glyph_row(ts@[0], row as int));
                }
            }
            i = i + 1;
        }
        proof {
            assert(ts@.take(ts@.len() as int) =~= ts@);
            assert(partial_rows(ts@, row + 1) =~= partial_rows(ts@, row as int) + (if row > 0 {
                "\n"@
            } else {
                Seq::<char>::empty()
            }) + big_row(ts@, row as int));
        }
        row = row + 1;
    }
    proof {
        assert(partial_rows(ts@, 1) == big_row(ts@, 0));
        assert(partial_rows(ts@, 2) == partial_rows(ts@, 1) + "\n"@ + big_row(ts@, 1));
        assert(partial_rows(ts@, 3) == partial_rows(ts@, 2) + "\n"@ + big_row(ts@, 2));
        assert(partial_rows(ts@, 4) == partial_rows(ts@, 3) + "\n"@ + big_row(ts@, 3));
        assert(partial_rows(ts@, 5) == partial_rows(ts@, 4) + "\n"@ + big_row(ts@, 4));
        assert(partial_rows(ts@, 5) =~= big_time_spec(minutes as int, seconds as int));
    }
    out
}

/// The first `rows` rows of the big clock, joined by newlines.
pub open spec fn partial_rows(ts: Seq<char>, rows: int) -> Seq<char>
    decreases rows,
{
    if rows <= 0 {
        Seq::empty()
    } else if rows == 1 {
        big_row(ts, 0)
    } else {
        partial_rows(ts, rows - 1) + "\n"@ + big_row(ts, rows - 1)
    }
}

} // verus!
