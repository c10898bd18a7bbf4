//! Plain-text rendering: base-ten integers (for HTTP status codes and line
//! numbers inside error messages) and the numbered listing of a response
//! body that failed to parse.

use vstd::prelude::*;

verus! {

/// The decimal digit character for `d` (meaningful for `0 <= d <= 9`).
pub open spec fn spec_digit_char(d: nat) -> char {
    if d == 0 {
        '0'
    } else if d == 1 {
        '1'
    } else if d == 2 {
        '2'
    } else if d == 3 {
        '3'
    } else if d == 4 {
        '4'
    } else if d == 5 {
        '5'
    } else if d == 6 {
        '6'
    } else if d == 7 {
        '7'
    } else if d == 8 {
        '8'
    } else {
        '9'
    }
}

/// The usual base-ten rendering of `n`: most significant digit first, no
/// leading zeros (`0` itself renders as "0").
pub open spec fn spec_decimal(n: nat) -> Seq<char>
    decreases n,
{
    if n < 10 {
        seq![spec_digit_char(n)]
    } else {
        spec_decimal(n / 10) + seq![spec_digit_char(n % 10)]
    }
}

/// The one-character string for a single decimal digit.
fn digit_str(d: u64) -> (r: &'static str)
    requires
        d <= 9,
    ensures
        r@ == seq![spec_digit_char(d as nat)],
{
    let r: &'static str = if d == 0 {
        "0"
    } else if d == 1 {
        "1"
    } else if d == 2 {
        "2"
    } else if d == 3 {
        "3"
    } else if d == 4 {
        "4"
    } else if d == 5 {
        "5"
    } else if d == 6 {
        "6"
    } else if d == 7 {
        "7"
    } else if d == 8 {
        "8"
    } else {
        "9"
    };
    proof {
        reveal_strlit("0");
        reveal_strlit("1");
        reveal_strlit("2");
        reveal_strlit("3");
        reveal_strlit("4");
        reveal_strlit("5");
        reveal_strlit("6");
        reveal_strlit("7");
        reveal_strlit("8");
        reveal_strlit("9");
        assert(r@ =~= seq![spec_digit_char(d as nat)]);
    }
    r
}

/// Renders `n` in base ten.
pub fn decimal_string(n: u64) -> (r: String)
    ensures
        r@ == spec_decimal(n as nat),
    decreases n,
{
    let d: u64 = n % 10;
    let ds = digit_str(d);
    if n < 10 {
        let r = ds.to_owned();
        proof {
            assert(r@ =~= spec_decimal(n as nat));
        }
        r
    } else {
        let mut s = decimal_string(n / 10);
        s.append(ds);
        proof {
            assert(s@ =~= spec_decimal(n as nat));
        }
        s
    }
}

/// A line with its terminating `\n` and a preceding `\r` removed; a `\r`
/// not followed by `\n` stays.
pub open spec fn spec_strip_cr(line: Seq<char>) -> Seq<char> {
    if line.len() > 0 && line.last() == '\r' {
        line.drop_last()
    } else {
        line
    }
}

/// The position of the first `\n` in `s`, or at least `s.len()` if there
/// is none.
pub open spec fn spec_first_newline(s: Seq<char>) -> nat
    decreases s.len(),
{
    if s.len() == 0 {
        0
    } else if s[0] == '\n' {
        0
    } else {
        (1 + spec_first_newline(s.drop_first())) as nat
    }
}

/// The lines of `s`, as `str::lines` yields them: split at each `\n`, a
/// `\r` directly before the `\n` stripped, and no final empty line after a
/// terminating newline.
pub open spec fn spec_lines(s: Seq<char>) -> Seq<Seq<char>>
    decreases s.len(),
{
    if s.len() == 0 {
        Seq::empty()
    } else {
        let k = spec_first_newline(s) as int;
        if k >= s.len() {
            seq![s]
        } else {
            seq![spec_strip_cr(s.subrange(0, k))] + spec_lines(
                s.subrange(k + 1, s.len() as int),
            )
        }
    }
}

/// Relies on `str::lines`: it splits at `\n`, strips a `\r` directly
/// before each `\n`, and yields no final empty line after a terminating
/// newline.
#[verifier::external_body]
fn split_lines(s: &str) -> (r: Vec<String>)
    ensures
        r.deep_view() == spec_lines(s@),
{
    s.lines().map(str::to_owned).collect()
}

/// The spaces that right-align the base-ten rendering of `n` in a field of
/// width four (none once the rendering is that wide itself).
pub open spec fn spec_pad4(n: nat) -> Seq<char> {
    if n < 10 {
        "   "@
    } else if n < 100 {
        "  "@
    } else if n < 1000 {
        " "@
    } else {
        Seq::empty()
    }
}

/// Line `i` (zero-based) of a numbered listing: a `>` marker when its
/// one-based number is `err_line` (a space otherwise), the number right-
/// aligned in a field of four, ` | `, the line, and a newline.
pub open spec fn spec_numbered_line(lines: Seq<Seq<char>>, err_line: nat, i: nat) -> Seq<char> {
    (if i + 1 == err_line {
        ">"@
    } else {
        " "@
    }) + spec_pad4((i + 1) as nat) + spec_decimal((i + 1) as nat) + " | "@ + lines[i as int]
        + "\n"@
}

/// The first `n` lines of the numbered listing, concatenated.
pub open spec fn spec_numbered_upto(lines: Seq<Seq<char>>, err_line: nat, n: nat) -> Seq<char>
    decreases n,
{
    if n == 0 {
        Seq::empty()
    } else {
        spec_numbered_upto(lines, err_line, (n - 1) as nat) + spec_numbered_line(
            lines,
            err_line,
            (n - 1) as nat,
        )
    }
}

/// The whole numbered listing of `body`, with the marker at `err_line`.
pub open spec fn spec_numbered_listing(body: Seq<char>, err_line: nat) -> Seq<char> {
    spec_numbered_upto(spec_lines(body), err_line, spec_lines(body).len())
}

/// Renders `body` line by line, each line numbered from one and the one
/// numbered `err_line` marked with `>`.
pub fn numbered_listing(body: &str, err_line: usize) -> (r: String)
    ensures
        r@ == spec_numbered_listing(body@, err_line as nat),
{
    let lines = split_lines(body);
    let n = lines.len();
    let mut s = String::new();
    proof {
        assert(lines.deep_view().len() == lines@.len());
    }
    for i in 0..n
        invariant
            lines.deep_view() == spec_lines(body@),
            n == lines@.len(),
            n == lines.deep_view().len(),
            s@ == spec_numbered_upto(spec_lines(body@), err_line as nat, i as nat),
    {
        let line_no = i + 1;
        if line_no == err_line {
            s.append(">");
        } else {
            s.append(" ");
        }
        if line_no < 10 {
            s.append("   ");
        } else if line_no < 100 {
            s.append("  ");
        } else if line_no < 1000 {
            s.append(" ");
        }
        let d = decimal_string(line_no as u64);
        s.append(d.as_str());
        s.append(" | ");
        s.append(lines[i].as_str());
        s.append("\n");
        proof {
            assert(lines@[i as int]@ == lines.deep_view()[i as int]);
            assert(s@ =~= spec_numbered_upto(
                spec_lines(body@),
                err_line as nat,
                (i + 1) as nat,
            ));
        }
    }
    s
}

} // verus!
