//! The renderer: formats transactions back to the ledger's textual
//! convention. This is a display contract; it is not guaranteed to
//! round-trip through the external parser.

use vstd::prelude::*;
use vstd::string::StringExecFns;

use crate::account::spec_render_account;
use crate::amount::{pow10, pow10_u128, Decimal, IncompleteAmount, IncompleteAmountV};
use crate::model::{Posting, PostingV, Transaction, TransactionV};

verus! {

/// The decimal digit character for `d` (taken modulo ten).
pub open spec fn digit_char(d: nat) -> char {
    if d % 10 == 0 {
        '0'
    } else if d % 10 == 1 {
        '1'
    } else if d % 10 == 2 {
        '2'
    } else if d % 10 == 3 {
        '3'
    } else if d % 10 == 4 {
        '4'
    } else if d % 10 == 5 {
        '5'
    } else if d % 10 == 6 {
        '6'
    } else if d % 10 == 7 {
        '7'
    } else if d % 10 == 8 {
        '8'
    } else {
        '9'
    }
}

/// The decimal digits of `n`, most significant first, without leading
/// zeros (a single zero for `n == 0`).
pub open spec fn dec_digits(n: nat) -> Seq<char>
    decreases n,
{
    if n < 10 {
        seq![digit_char(n)]
    } else {
        dec_digits(n / 10).push(digit_char(n % 10))
    }
}

/// The lowest `w` decimal digits of `n`, zero-padded to exactly `w` digits.
pub open spec fn dec_digits_padded(n: nat, w: nat) -> Seq<char>
    decreases w,
{
    if w == 0 {
        Seq::empty()
    } else {
        dec_digits_padded(n / 10, (w - 1) as nat).push(digit_char(n % 10))
    }
}

/// The one-character string for a decimal digit.
fn digit_literal(d: u128) -> (r: &'static str)
    requires
        d < 10,
    ensures
        r@ == seq![digit_char(d as nat)],
{
    proof {
        reveal_strlit("0");
        reveal_strlit("1");
        reveal_strlit("2");
        reveal_strlit("3");
        reveal_strlit("4");
        reveal_strlit("5");
        reveal_strlit("6");
        reveal_strlit("7");
        reveal_strlit("8");
        reveal_strlit("9");
    }
    if d == 0 {
        "0"
    } else if d == 1 {
        "1"
    } else if d == 2 {
        "2"
    } else if d == 3 {
        "3"
    } else if d == 4 {
        "4"
    } else if d == 5 {
        "5"
    } else if d == 6 {
        "6"
    } else if d == 7 {
        "7"
    } else if d == 8 {
        "8"
    } else {
        "9"
    }
}

/// Append the decimal digits of `n` to `s`.
fn append_dec(s: &mut String, n: u128)
    ensures
        final(s)@ == old(s)@ + dec_digits(n as nat),
    decreases n,
{
    if n < 10 {
        s.append(digit_literal(n));
        proof {
            assert(final(s)@ =~= old(s)@ + dec_digits(n as nat));
        }
    } else {
        append_dec(s, n / 10);
        s.append(digit_literal(n % 10));
        proof {
            assert(dec_digits(n as nat) == dec_digits(n as nat / 10).push(
                digit_char(n as nat % 10),
            ));
            assert(final(s)@ =~= old(s)@ + dec_digits(n as nat));
        }
    }
}

/// Append the lowest `w` decimal digits of `n` to `s`, zero-padded.
fn append_dec_padded(s: &mut String, n: u128, w: u32)
    ensures
        final(s)@ == old(s)@ + dec_digits_padded(n as nat, w as nat),
    decreases w,
{
    if w == 0 {
        proof {
            assert(final(s)@ =~= old(s)@ + dec_digits_padded(n as nat, 0));
        }
    } else {
        append_dec_padded(s, n / 10, w - 1);
        s.append(digit_literal(n % 10));
        proof {
            assert(final(s)@ =~= old(s)@ + dec_digits_padded(n as nat, w as nat));
        }
    }
}

/// Relies on `String::push`: it appends exactly the given character to the
/// end of the string.
#[verifier::external_body]
fn push_char(s: &mut String, c: char)
    ensures
        final(s)@ == old(s)@.push(c),
{
    s.push(c);
}

/// The magnitude of a decimal's mantissa.
pub open spec fn dec_magnitude(d: Decimal) -> nat {
    if d.mantissa < 0 {
        (-d.mantissa) as nat
    } else {
        d.mantissa as nat
    }
}

/// The textual form of an exact decimal: optional minus sign, the integer
/// digits, and, when the scale is positive, a point followed by exactly
/// `scale` fractional digits.
pub open spec fn spec_render_decimal(d: Decimal) -> Seq<char> {
    let sign: Seq<char> = if d.mantissa < 0 {
        "-"@
    } else {
        Seq::empty()
    };
    if d.scale == 0 {
        sign + dec_digits(dec_magnitude(d))
    } else {
        sign + dec_digits(dec_magnitude(d) / pow10(d.scale as nat)) + "."@ + dec_digits_padded(
            dec_magnitude(d) % pow10(d.scale as nat),
            d.scale as nat,
        )
    }
}

/// Render an exact decimal, e.g. `-16.67`.
pub fn render_decimal(d: &Decimal) -> (r: String)
    requires
        d.wf(),
    ensures
        r@ == spec_render_decimal(*d),
{
    let mag: u128 = if d.mantissa < 0 {
        (-d.mantissa) as u128
    } else {
        d.mantissa as u128
    };
    let mut s = String::new();
    if d.mantissa < 0 {
        s.append("-");
    }
    if d.scale == 0 {
        append_dec(&mut s, mag);
    } else {
        let p = pow10_u128(d.scale);
        append_dec(&mut s, mag / p);
        s.append(".");
        append_dec_padded(&mut s, mag % p, d.scale);
    }
    proof {
        assert(s@ =~= spec_render_decimal(*d));
    }
    s
}

/// The textual form of a possibly incomplete amount: the quantity and the
/// currency, separated by one space, each omitted when absent.
pub open spec fn spec_render_units(a: IncompleteAmountV) -> Seq<char> {
    match (a.num, a.currency) {
        (Some(d), Some(c)) => spec_render_decimal(d) + " "@ + c,
        (Some(d), None) => spec_render_decimal(d),
        (None, Some(c)) => c,
        (None, None) => Seq::empty(),
    }
}

impl IncompleteAmountV {
    /// The quantity, if present, lies in the representable domain.
    pub open spec fn renderable(self) -> bool {
        match self.num {
            Some(d) => d.wf(),
            None => true,
        }
    }
}

/// Render a possibly incomplete amount, e.g. `-500.00 USD`.
pub fn render_units(a: &IncompleteAmount) -> (r: String)
    requires
        a@.renderable(),
    ensures
        r@ == spec_render_units(a@),
{
    let mut s = match &a.num {
        Some(d) => render_decimal(d),
        None => String::new(),
    };
    match (&a.num, &a.currency) {
        (Some(_), Some(c)) => {
            s.append(" ");
            s.append(c.as_str());
        },
        (None, Some(c)) => {
            s.append(c.as_str());
        },
        _ => {},
    }
    proof {
        assert(s@ =~= spec_render_units(a@));
    }
    s
}

/// The textual form of a date: `YYYY-MM-DD`.
pub open spec fn spec_render_date(d: crate::date::Date) -> Seq<char> {
    dec_digits_padded(d.year as nat, 4) + "-"@ + dec_digits_padded(d.month as nat, 2) + "-"@
        + dec_digits_padded(d.day as nat, 2)
}

/// Render a date as `YYYY-MM-DD`.
pub fn render_date(d: &crate::date::Date) -> (r: String)
    ensures
        r@ == spec_render_date(*d),
{
    let mut s = String::new();
    append_dec_padded(&mut s, d.year as u128, 4);
    s.append("-");
    append_dec_padded(&mut s, d.month as u128, 2);
    s.append("-");
    append_dec_padded(&mut s, d.day as u128, 2);
    proof {
        assert(s@ =~= spec_render_date(*d));
    }
    s
}

/// The flag printed on the transaction's first line: the transaction's own
/// flag when present, else `*`.
pub open spec fn spec_flag_char(flag: Option<char>) -> char {
    match flag {
        Some(c) => c,
        None => '*',
    }
}

/// The first line of a rendered transaction:
/// `{date} {flag} "{payee}" "{narration}"` when a payee is present, else
/// `{date} {flag} "{narration}"`.
pub open spec fn spec_render_header(t: TransactionV) -> Seq<char> {
    spec_render_date(t.date) + " "@ + seq![spec_flag_char(t.flag)] + " "@ + (match t.payee {
        Some(p) => "\""@ + p + "\""@ + " "@,
        None => Seq::empty(),
    }) + "\""@ + t.narration + "\""@
}

/// One rendered posting line: a four-space indent, the account, one space,
/// the units.
pub open spec fn spec_render_posting_line(p: PostingV) -> Seq<char> {
    "    "@ + spec_render_account(p.account) + " "@ + spec_render_units(p.units)
}

/// The rendered posting lines, in posting order.
pub open spec fn spec_posting_lines(ps: Seq<PostingV>) -> Seq<Seq<char>>
    decreases ps.len(),
{
    if ps.len() == 0 {
        Seq::empty()
    } else {
        spec_posting_lines(ps.drop_last()).push(spec_render_posting_line(ps.last()))
    }
}

impl TransactionV {
    /// Every posting's quantity lies in the representable domain.
    pub open spec fn renderable(self) -> bool {
        forall|i: int| 0 <= i < self.postings.len() ==> (#[trigger] self.postings[i]).units.renderable()
    }
}

/// The full rendered block of a transaction: the header line, one line per
/// posting in posting order, and a trailing blank line.
pub open spec fn spec_render_transaction(t: TransactionV) -> Seq<Seq<char>> {
    seq![spec_render_header(t)] + spec_posting_lines(t.postings) + seq![Seq::<char>::empty()]
}

/// Render the first line of a transaction.
pub fn render_header(t: &Transaction) -> (r: String)
    ensures
        r@ == spec_render_header(t@),
{
    let mut s = render_date(&t.date);
    s.append(" ");
    match t.flag {
        Some(c) => push_char(&mut s, c),
        None => push_char(&mut s, '*'),
    }
    s.append(" ");
    match &t.payee {
        Some(p) => {
            s.append("\"");
            s.append(p.as_str());
            s.append("\"");
            s.append(" ");
        },
        None => {},
    }
    s.append("\"");
    s.append(t.narration.as_str());
    s.append("\"");
    proof {
        assert(s@ =~= spec_render_header(t@));
    }
    s
}

/// Render one posting line.
pub fn render_posting_line(p: &Posting) -> (r: String)
    requires
        p@.units.renderable(),
    ensures
        r@ == spec_render_posting_line(p@),
{
    let mut s = String::from_str("    ");
    let acc = p.account.render();
    s.append(acc.as_str());
    s.append(" ");
    let units = render_units(&p.units);
    s.append(units.as_str());
    proof {
        assert(s@ =~= spec_render_posting_line(p@));
    }
    s
}

/// Render a transaction to its block of lines: the header, one line per
/// posting in posting order, and a trailing blank line.
pub fn render_transaction(t: &Transaction) -> (r: Vec<String>)
    requires
        t@.renderable(),
    ensures
        r.deep_view() == spec_render_transaction(t@),
{
    let mut lines: Vec<String> = Vec::new();
    lines.push(render_header(t));
    let n = t.postings.len();
    for i in 0..n
        invariant
            n == t.postings.len(),
            t@.renderable(),
            lines.deep_view() =~= seq![spec_render_header(t@)] + spec_posting_lines(
                t.postings.deep_view().take(i as int),
            ),
    {
        proof {
            assert(t.postings.deep_view()[i as int] == t.postings@[i as int]@);
            assert(t@.postings[i as int] == t.postings.deep_view()[i as int]);
        }
        let line = render_posting_line(&t.postings[i]);
        let ghost before: Seq<Seq<char>> = lines.deep_view();
        lines.push(line);
        proof {
            let pv = t.postings.deep_view();
            assert(lines.deep_view() =~= before.push(line@));
            assert(pv.take(i + 1).drop_last() =~= pv.take(i as int));
            assert(pv.take(i + 1).last() == pv[i as int]);
            assert(spec_posting_lines(pv.take(i + 1)) == spec_posting_lines(pv.take(i as int)).push(
                spec_render_posting_line(pv[i as int]),
            ));
            assert(lines.deep_view() =~= seq![spec_render_header(t@)] + spec_posting_lines(
                pv.take(i + 1),
            ));
        }
    }
    lines.push(String::new());
    proof {
        assert(t.postings.deep_view().take(n as int) =~= t.postings.deep_view());
        assert(lines.deep_view() =~= spec_render_transaction(t@));
    }
    lines
}

} // verus!
