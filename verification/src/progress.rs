//! The progress bar of a rendering.
//!
//! One line, redrawn in place: the label in bold, a bar between square
//! brackets, and the share of the work that is done.

use vstd::prelude::*;
use vstd::string::StringExecFns;
use vstd::utf8::encode_utf8;
use crate::text::decimal;

verus! {

/// The columns assumed where the terminal gives no width.
pub const DEFAULT_COLUMNS: usize = 80;

/// The columns that are not the bar's, the label apart: the indent, the
/// percentage, the brackets, the spaces around them, and a margin.
pub const RESERVED_COLUMNS: usize = 38;

/// The share of the work that is done, in percent, rounded down.
pub open spec fn percent(current: usize, total: usize) -> nat {
    (current * 100 / (total as int)) as nat
}

/// The length of the label in bytes.
pub open spec fn label_bytes(label: Seq<char>) -> usize {
    encode_utf8(label).len() as usize
}

/// The columns of the bar: what the terminal has beyond the reserved
/// columns and the bytes of the label.
pub open spec fn bar_width(label: Seq<char>, columns: usize) -> nat {
    let taken = RESERVED_COLUMNS + label_bytes(label);
    if columns >= taken {
        (columns - taken) as nat
    } else {
        0
    }
}

/// `n` times the character `c`.
pub open spec fn repeated(c: char, n: nat) -> Seq<char> {
    Seq::new(n, |i: int| c)
}

/// The columns of the bar that are filled.
pub open spec fn filled(current: usize, total: usize, width: nat) -> nat {
    (current * width / (total as int)) as nat
}

/// The bar. A finished bar is all `=`. An unfinished one is a run of `=`
/// with a `>` at its head, then spaces; it shows the head even where no
/// column is filled, or where the bar has no column.
pub open spec fn bar(current: usize, total: usize, width: nat) -> Seq<char> {
    let done = filled(current, total, width);
    if current == total {
        repeated('=', width)
    } else if done > 0 {
        repeated('=', (done - 1) as nat) + seq!['>'] + repeated(' ', (width - done) as nat)
    } else {
        seq!['>'] + repeated(' ', if width >= 1 { (width - 1) as nat } else { 0 })
    }
}

/// The share of the work that is done, written on three columns or more
/// with spaces before it.
pub open spec fn padded_percent(current: usize, total: usize) -> Seq<char> {
    let digits = decimal(percent(current, total));
    repeated(' ', if digits.len() < 3 { (3 - digits.len()) as nat } else { 0 }) + digits
}

/// The line on a terminal of the given width.
pub open spec fn line(current: usize, total: usize, label: Seq<char>, columns: usize) -> Seq<char> {
    "\r     \x1b[1m"@ + label + "\x1b[0m ["@ + bar(current, total, bar_width(label, columns)) + "] "@
        + padded_percent(current, total) + "%"@
}

/// The bar fills its columns: a bar of one column or more is as long as it
/// is wide, and a finished bar always is. The share shown is at most a
/// hundred.
pub proof fn lemma_bar_fits(current: usize, total: usize, width: nat)
    requires
        0 < total,
        current <= total,
    ensures
        width >= 1 || current == total ==> bar(current, total, width).len() == width,
        bar(current, total, width).len() == (if width == 0 && current != total { 1nat } else { width }),
        filled(current, total, width) <= width,
        current == total ==> filled(current, total, width) == width,
        percent(current, total) <= 100,
        current == total <==> percent(current, total) == 100,
{
    assert(current * width <= total * width) by (nonlinear_arith)
        requires
            current <= total,
            0 <= width,
    ;
    assert((current * width) / (total as int) <= width) by (nonlinear_arith)
        requires
            current * width <= total * width,
            0 < total,
    ;
    assert(current == total ==> (current * width) / (total as int) == width) by (nonlinear_arith)
        requires
            0 < total,
    ;
    assert((current * 100) / (total as int) <= 100) by (nonlinear_arith)
        requires
            current <= total,
            0 < total,
    ;
    assert(current == total ==> (current * 100) / (total as int) == 100) by (nonlinear_arith)
        requires
            0 < total,
    ;
    assert(current < total ==> (current * 100) / (total as int) < 100) by (nonlinear_arith)
        requires
            0 <= current,
            0 < total,
    ;
    assert((current * width) / (total as int) >= 0) by (nonlinear_arith)
        requires
            0 <= current,
            0 <= width,
            0 < total,
    ;
}

/// The columns on which the line is composed: those that the terminal
/// reports, or eighty where the process has no terminal.
pub open spec fn spec_columns_of(reported: Option<u16>) -> usize {
    match reported {
        Some(width) => width as usize,
        None => DEFAULT_COLUMNS,
    }
}

/// The columns on which the line is composed.
#[verifier::when_used_as_spec(spec_columns_of)]
pub fn columns_of(reported: Option<u16>) -> (columns: usize)
    ensures
        columns == spec_columns_of(reported),
{
    match reported {
        Some(width) => width as usize,
        None => DEFAULT_COLUMNS,
    }
}

/// The width of the terminal in columns, where the process has one. This
/// is what `terminal_size::terminal_size` reports of the terminal at the
/// moment of the call; nothing is known of it beforehand.
#[verifier::external_body]
fn terminal_columns() -> (columns: Option<u16>) {
    match terminal_size::terminal_size() {
        Some((terminal_size::Width(w), _)) => Some(w),
        None => None,
    }
}

/// Appends `n` times the one-character string `piece` to `out`.
fn push_repeated(out: &mut String, piece: &str, n: usize)
    requires
        piece@.len() == 1,
    ensures
        final(out)@ == old(out)@ + repeated(piece@[0], n as nat),
{
    let ghost before = out@;
    let mut i: usize = 0;
    assert(out@ =~= before + repeated(piece@[0], 0));
    while i < n
        invariant
            i <= n,
            piece@.len() == 1,
            out@ == before + repeated(piece@[0], i as nat),
        decreases n - i,
    {
        out.append(piece);
        assert(out@ =~= before + repeated(piece@[0], (i + 1) as nat));
        i += 1;
    }
}

/// The line on a terminal of the given width, when `current` of `total`
/// pieces of work are done.
pub fn compose(current: usize, total: usize, label: &str, columns: usize) -> (text: String)
    requires
        0 < total,
        current <= total,
    ensures
        text@ == line(current, total, label@, columns),
{
    proof {
        reveal_strlit("=");
        reveal_strlit(">");
        reveal_strlit(" ");
    }
    let hundredths: u128 = (current as u128) * 100 / (total as u128);
    assert(hundredths == percent(current, total)) by {
        assert(current * 100 <= total * 100);
    }
    assert(hundredths <= 100) by {
        assert(current * 100 <= total * 100);
        assert((current as int) * 100 / (total as int) <= 100) by (nonlinear_arith)
            requires
                current <= total,
                0 < total,
        ;
    }
    let width: usize = if columns >= RESERVED_COLUMNS && columns - RESERVED_COLUMNS >= label.len() {
        columns - RESERVED_COLUMNS - label.len()
    } else {
        0
    };
    assert(width == bar_width(label@, columns));
    assert(current * width <= total * width) by (nonlinear_arith)
        requires
            current <= total,
            0 <= width,
    ;
    assert(total * width <= 0xFFFF_FFFF_FFFF_FFFF * 0xFFFF_FFFF_FFFF_FFFF) by (nonlinear_arith)
        requires
            0 <= total <= 0xFFFF_FFFF_FFFF_FFFF,
            0 <= width <= 0xFFFF_FFFF_FFFF_FFFF,
    ;
    let done_wide: u128 = (current as u128) * (width as u128) / (total as u128);
    assert(done_wide <= width) by {
        assert((current as int) * (width as int) / (total as int) <= width) by (nonlinear_arith)
            requires
                current * width <= total * width,
                0 < total,
        ;
    }
    let done: usize = done_wide as usize;
    assert(done == filled(current, total, width as nat));

    let mut text = String::from_str("\r     \x1b[1m");
    text.append(label);
    text.append("\x1b[0m [");
    let ghost head = text@;
    if current == total {
        push_repeated(&mut text, "=", width);
    } else if done > 0 {
        push_repeated(&mut text, "=", done - 1);
        text.append(">");
        push_repeated(&mut text, " ", width - done);
    } else {
        text.append(">");
        push_repeated(&mut text, " ", if width >= 1 { width - 1 } else { 0 });
    }
    assert(text@ =~= head + bar(current, total, width as nat));
    text.append("] ");
    let ghost before_percent = text@;
    let digits = crate::text::to_decimal(hundredths as u64);
    let shown: usize = digits.as_str().unicode_len();
    push_repeated(&mut text, " ", if shown < 3 { 3 - shown } else { 0 });
    text.append(digits.as_str());
    assert(text@ =~= before_percent + padded_percent(current, total));
    text.append("%");
    assert(text@ =~= line(current, total, label@, columns));
    text
}

/// The line on the terminal of the process, or on eighty columns where the
/// process has no terminal.
pub fn show(current: usize, total: usize, label: &str) -> (text: String)
    requires
        0 < total,
        current <= total,
    ensures
        exists|reported: Option<u16>| text@ == line(current, total, label@, columns_of(reported)),
{
    let reported = terminal_columns();
    compose(current, total, label, columns_of(reported))
}

} // verus!
