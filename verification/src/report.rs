//! The text of a report: decimal numbers, aligned columns, and the lines that
//! a benchmark prints.

use vstd::prelude::*;
use vstd::string::*;

verus! {

/// The character for the decimal digit `d`.
pub open spec fn digit(d: int) -> char {
    if d == 0 {
        '0'
    } else if d == 1 {
        '1'
    } else if d == 2 {
        '2'
    } else if d == 3 {
        '3'
    } else if d == 4 {
        '4'
    } else if d == 5 {
        '5'
    } else if d == 6 {
        '6'
    } else if d == 7 {
        '7'
    } else if d == 8 {
        '8'
    } else {
        '9'
    }
}

/// The decimal numeral of `n`, without leading zeros.
pub open spec fn decimal(n: nat) -> Seq<char>
    decreases n,
{
    if n < 10 {
        seq![digit(n as int)]
    } else {
        decimal(n / 10).push(digit((n % 10) as int))
    }
}

/// `count` copies of `fill`; nothing if `count` is not positive.
pub open spec fn filler(fill: char, count: int) -> Seq<char> {
    Seq::new(
        if count > 0 {
            count as nat
        } else {
            0
        },
        |i: int| fill,
    )
}

/// `text` with `fill` in front of it up to `width` characters; a longer text
/// stays whole.
pub open spec fn right_aligned(text: Seq<char>, width: nat, fill: char) -> Seq<char> {
    filler(fill, width - text.len()) + text
}

/// `text` with spaces behind it up to `width` characters; a longer text stays
/// whole.
pub open spec fn left_aligned(text: Seq<char>, width: nat) -> Seq<char> {
    text + filler(' ', width - text.len())
}

/// A throughput figure in thousands, written as whole units, a point and
/// three decimals, the whole part at least `width` characters wide.
pub open spec fn figure_text(kilo: nat, width: nat) -> Seq<char> {
    right_aligned(decimal(kilo / 1000), width, ' ') + seq!['.'] + right_aligned(
        decimal(kilo % 1000),
        3,
        '0',
    )
}

/// The line that reports one benchmark: its name behind `label`, the number
/// of iterations, the nanoseconds per iteration and the megabytes per second.
pub open spec fn report_text(
    label: Seq<char>,
    name: Seq<char>,
    iters: nat,
    nanos_per_op: nat,
    kb_per_s: nat,
) -> Seq<char> {
    "Benchmark"@ + label + left_aligned(name, 16) + "   "@ + right_aligned(
        decimal(iters),
        8,
        ' ',
    ) + "   "@ + right_aligned(decimal(nanos_per_op), 12, ' ') + " ns/op   "@ + figure_text(
        kb_per_s,
        3,
    ) + " MB/s\n"@
}

/// The line that reports a pixel rate and nothing else.
pub open spec fn megapixels_text(kp_per_s: nat) -> Seq<char> {
    figure_text(kp_per_s, 0) + " megapixels/second\n"@
}

/// The line that reports a pixel rate under the decoder's name.
pub open spec fn labelled_megapixels_text(kp_per_s: nat) -> Seq<char> {
    "gif.rs  "@ + figure_text(kp_per_s, 3) + " megapixels/second  github.com/Geal/gif.rs\n"@
}

/// The header of a report: the compiler's version and a note on the format,
/// which names the `go` subcommand `verb` for installing the tool that reads
/// it.
pub open spec fn banner_text(major: nat, minor: nat, patch: nat, verb: Seq<char>) -> Seq<char> {
    "# Rust "@ + decimal(major) + seq!['.'] + decimal(minor) + seq!['.'] + decimal(patch)
        + "\n#\n# The output format, including the \"Benchmark\" prefixes, is compatible with the\n# https://godoc.org/golang.org/x/perf/cmd/benchstat tool. To install it, first\n# install Go, then run \"go "@
        + verb + " golang.org/x/perf/cmd/benchstat\".\n"@
}

fn digit_text(d: u64) -> (s: &'static str)
    requires
        d < 10,
    ensures
        s@ == seq![digit(d as int)],
{
    proof {
        reveal_strlit("0");
        reveal_strlit("1");
        reveal_strlit("2");
        reveal_strlit("3");
        reveal_strlit("4");
        reveal_strlit("5");
        reveal_strlit("6");
        reveal_strlit("7");
        reveal_strlit("8");
        reveal_strlit("9");
    }
    let s = if d == 0 {
        "0"
    } else if d == 1 {
        "1"
    } else if d == 2 {
        "2"
    } else if d == 3 {
        "3"
    } else if d == 4 {
        "4"
    } else if d == 5 {
        "5"
    } else if d == 6 {
        "6"
    } else if d == 7 {
        "7"
    } else if d == 8 {
        "8"
    } else {
        "9"
    };
    assert(s@ =~= seq![digit(d as int)]);
    s
}

/// The number of digits in the decimal numeral of `n`.
pub fn decimal_width(n: u64) -> (w: u64)
    ensures
        w == decimal(n as nat).len(),
{
    let mut w: u64 = 1;
    let mut rest: u64 = n;
    while rest >= 10
        invariant
            w + rest <= n + 1,
            1 <= w,
            decimal(n as nat).len() == decimal(rest as nat).len() + w - 1,
        decreases rest,
    {
        rest = rest / 10;
        w = w + 1;
    }
    w
}

/// Appends the decimal numeral of `n` to `out`.
pub fn append_decimal(out: &mut String, n: u64)
    ensures
        final(out)@ == old(out)@ + decimal(n as nat),
    decreases n,
{
    if n >= 10 {
        append_decimal(out, n / 10);
    }
    out.append(digit_text(n % 10));
    assert(out@ =~= old(out)@ + decimal(n as nat));
}

fn append_filler(out: &mut String, fill: &str, count: u64)
    requires
        fill@.len() == 1,
    ensures
        final(out)@ == old(out)@ + filler(fill@[0], count as int),
{
    let mut i: u64 = 0;
    while i < count
        invariant
            i <= count,
            fill@.len() == 1,
            out@ == old(out)@ + filler(fill@[0], i as int),
        decreases count - i,
    {
        out.append(fill);
        i = i + 1;
        assert(out@ =~= old(out)@ + filler(fill@[0], i as int));
    }
}

/// Appends the decimal numeral of `n` to `out`, with spaces, or with zeros if
/// `zeros` is set, in front of it up to `width` characters.
pub fn append_right_aligned(out: &mut String, n: u64, width: u64, zeros: bool)
    ensures
        final(out)@ == old(out)@ + right_aligned(
            decimal(n as nat),
            width as nat,
            if zeros {
                '0'
            } else {
                ' '
            },
        ),
{
    let w = decimal_width(n);
    let missing: u64 = if w < width {
        width - w
    } else {
        0
    };
    proof {
        reveal_strlit("0");
        reveal_strlit(" ");
    }
    if zeros {
        append_filler(out, "0", missing);
    } else {
        append_filler(out, " ", missing);
    }
    append_decimal(out, n);
    assert(out@ =~= old(out)@ + right_aligned(
        decimal(n as nat),
        width as nat,
        if zeros {
            '0'
        } else {
            ' '
        },
    ));
}

/// Appends `text` to `out`, with spaces behind it up to `width` characters.
pub fn append_left_aligned(out: &mut String, text: &str, width: u64)
    ensures
        final(out)@ == old(out)@ + left_aligned(text@, width as nat),
{
    let len: u64 = text.unicode_len() as u64;
    let missing: u64 = if len < width {
        width - len
    } else {
        0
    };
    out.append(text);
    proof {
        reveal_strlit(" ");
    }
    append_filler(out, " ", missing);
    assert(out@ =~= old(out)@ + left_aligned(text@, width as nat));
}

/// Appends a throughput figure in thousands to `out`: the whole units, at
/// least `width` characters wide, a point and three decimals.
pub fn append_figure(out: &mut String, kilo: u64, width: u64)
    ensures
        final(out)@ == old(out)@ + figure_text(kilo as nat, width as nat),
{
    append_right_aligned(out, kilo / 1000, width, false);
    proof {
        reveal_strlit(".");
    }
    out.append(".");
    append_right_aligned(out, kilo % 1000, 3, true);
    assert("."@ =~= seq!['.']);
    assert(out@ =~= old(out)@ + figure_text(kilo as nat, width as nat));
}

/// Formats the line that reports one benchmark.
pub fn report_line(label: &str, name: &str, iters: u64, nanos_per_op: u64, kb_per_s: u64) -> (line:
    String)
    ensures
        line@ == report_text(label@, name@, iters as nat, nanos_per_op as nat, kb_per_s as nat),
{
    let mut line = String::new();
    line.append("Benchmark");
    line.append(label);
    append_left_aligned(&mut line, name, 16);
    line.append("   ");
    append_right_aligned(&mut line, iters, 8, false);
    line.append("   ");
    append_right_aligned(&mut line, nanos_per_op, 12, false);
    line.append(" ns/op   ");
    append_figure(&mut line, kb_per_s, 3);
    line.append(" MB/s\n");
    assert(line@ =~= report_text(
        label@,
        name@,
        iters as nat,
        nanos_per_op as nat,
        kb_per_s as nat,
    ));
    line
}

/// Formats the line that reports a pixel rate and nothing else.
pub fn megapixels_line(kp_per_s: u64) -> (line: String)
    ensures
        line@ == megapixels_text(kp_per_s as nat),
{
    let mut line = String::new();
    append_figure(&mut line, kp_per_s, 0);
    line.append(" megapixels/second\n");
    assert(line@ =~= megapixels_text(kp_per_s as nat));
    line
}

/// Formats the line that reports a pixel rate under the decoder's name.
pub fn labelled_megapixels_line(kp_per_s: u64) -> (line: String)
    ensures
        line@ == labelled_megapixels_text(kp_per_s as nat),
{
    let mut line = String::new();
    line.append("gif.rs  ");
    append_figure(&mut line, kp_per_s, 3);
    line.append(" megapixels/second  github.com/Geal/gif.rs\n");
    assert(line@ =~= labelled_megapixels_text(kp_per_s as nat));
    line
}

/// Formats the header of a report for the compiler version
/// `major.minor.patch`, with `verb` as the `go` subcommand that installs the
/// tool.
pub fn banner(major: u64, minor: u64, patch: u64, verb: &str) -> (text: String)
    ensures
        text@ == banner_text(major as nat, minor as nat, patch as nat, verb@),
{
    let mut text = String::new();
    text.append("# Rust ");
    append_decimal(&mut text, major);
    proof {
        reveal_strlit(".");
    }
    text.append(".");
    append_decimal(&mut text, minor);
    text.append(".");
    append_decimal(&mut text, patch);
    text.append(
        "\n#\n# The output format, including the \"Benchmark\" prefixes, is compatible with the\n# https://godoc.org/golang.org/x/perf/cmd/benchstat tool. To install it, first\n# install Go, then run \"go ",
    );
    text.append(verb);
    text.append(" golang.org/x/perf/cmd/benchstat\".\n");
    assert("."@ =~= seq!['.']);
    assert(text@ =~= banner_text(major as nat, minor as nat, patch as nat, verb@));
    text
}

} // verus!
