//! The persistence gateway's statement builder.
//!
//! The store appends a batch of usage records with one parameterized
//! multi-row insert.  This module decides whether an insert happens at all
//! — an empty batch is a guaranteed no-op, the store's insert path is never
//! reached with zero rows — and builds the statement text, one `(?i, ?j,
//! ?k, ?l)` placeholder row per record, specified here character by
//! character.  Binding the record fields and executing the statement is
//! the store adapter's work.

use vstd::prelude::*;

use crate::records::Window;
use vstd::string::StringExecFns;

verus! {

/// The character for one decimal digit.
pub open spec fn spec_digit_char(d: nat) -> char {
    if d == 0 {
        '0'
    } else if d == 1 {
        '1'
    } else if d == 2 {
        '2'
    } else if d == 3 {
        '3'
    } else if d == 4 {
        '4'
    } else if d == 5 {
        '5'
    } else if d == 6 {
        '6'
    } else if d == 7 {
        '7'
    } else if d == 8 {
        '8'
    } else {
        '9'
    }
}

/// The decimal digits of `n`, most significant first.
pub open spec fn spec_decimal(n: nat) -> Seq<char>
    decreases n,
{
    if n < 10 {
        seq![spec_digit_char(n)]
    } else {
        spec_decimal(n / 10).push(spec_digit_char(n % 10))
    }
}

/// The fixed head of the batch-insert statement.
pub open spec fn spec_insert_header() -> Seq<char> {
    "INSERT INTO windows_log (datetime, class, title, duration) VALUES"@
}

/// The placeholder row for the record at 0-based position `i`: its four
/// parameters are numbered `4*i + 1` through `4*i + 4`.
pub open spec fn spec_row_body(i: nat) -> Seq<char> {
    "\n(?"@ + spec_decimal(4 * i + 1) + ", ?"@ + spec_decimal(4 * i + 2) + ", ?"@ + spec_decimal(
        4 * i + 3,
    ) + ", ?"@ + spec_decimal(4 * i + 4) + ")"@
}

/// The first `n` placeholder rows, each followed by the `,` separator.
pub open spec fn spec_rows(n: nat) -> Seq<char>
    decreases n,
{
    if n == 0 {
        Seq::empty()
    } else {
        spec_rows((n - 1) as nat) + spec_row_body((n - 1) as nat) + ","@
    }
}

/// The whole statement for `n` records: header, `n` comma-separated rows,
/// and the trailing separator replaced by the closing `;`.
pub open spec fn spec_insert_query(n: nat) -> Seq<char>
    recommends
        n >= 1,
{
    (spec_insert_header() + spec_rows(n)).drop_last().push(';')
}

/// Append the character of one decimal digit.
fn append_digit(s: &mut String, d: u64)
    requires
        d < 10,
    ensures
        final(s)@ == old(s)@.push(spec_digit_char(d as nat)),
{
    if d == 0 {
        s.append("0");
        proof {
            reveal_strlit("0");
            assert(s@ =~= old(s)@.push('0'));
        }
    } else if d == 1 {
        s.append("1");
        proof {
            reveal_strlit("1");
            assert(s@ =~= old(s)@.push('1'));
        }
    } else if d == 2 {
        s.append("2");
        proof {
            reveal_strlit("2");
            assert(s@ =~= old(s)@.push('2'));
        }
    } else if d == 3 {
        s.append("3");
        proof {
            reveal_strlit("3");
            assert(s@ =~= old(s)@.push('3'));
        }
    } else if d == 4 {
        s.append("4");
        proof {
            reveal_strlit("4");
            assert(s@ =~= old(s)@.push('4'));
        }
    } else if d == 5 {
        s.append("5");
        proof {
            reveal_strlit("5");
            assert(s@ =~= old(s)@.push('5'));
        }
    } else if d == 6 {
        s.append("6");
        proof {
            reveal_strlit("6");
            assert(s@ =~= old(s)@.push('6'));
        }
    } else if d == 7 {
        s.append("7");
        proof {
            reveal_strlit("7");
            assert(s@ =~= old(s)@.push('7'));
        }
    } else if d == 8 {
        s.append("8");
        proof {
            reveal_strlit("8");
            assert(s@ =~= old(s)@.push('8'));
        }
    } else {
        s.append("9");
        proof {
            reveal_strlit("9");
            assert(s@ =~= old(s)@.push('9'));
        }
    }
}

/// Append the decimal form of `n`, most significant digit first.
fn append_decimal(s: &mut String, n: u64)
    ensures
        final(s)@ == old(s)@ + spec_decimal(n as nat),
    decreases n,
{
    if n < 10 {
        append_digit(s, n);
        proof {
            assert(s@ =~= old(s)@ + spec_decimal(n as nat));
        }
    } else {
        append_decimal(s, n / 10);
        append_digit(s, n % 10);
        proof {
            assert(s@ =~= old(s)@ + spec_decimal(n as nat));
        }
    }
}

/// Append the placeholder row for the record at position `i`.
fn append_row_body(s: &mut String, i: usize)
    requires
        i <= 0xFFFF_FFFF,
    ensures
        final(s)@ == old(s)@ + spec_row_body(i as nat),
{
    let base: u64 = 4 * (i as u64);
    s.append("\n(?");
    append_decimal(s, base + 1);
    s.append(", ?");
    append_decimal(s, base + 2);
    s.append(", ?");
    append_decimal(s, base + 3);
    s.append(", ?");
    append_decimal(s, base + 4);
    s.append(")");
    proof {
        assert(s@ =~= old(s)@ + spec_row_body(i as nat));
    }
}

/// Build the parameterized multi-row insert statement for `n` records.
pub fn build_insert_query(n: usize) -> (q: String)
    requires
        1 <= n,
        n <= 0xFFFF_FFFF,
    ensures
        q@ == spec_insert_query(n as nat),
{
    let mut s = "INSERT INTO windows_log (datetime, class, title, duration) VALUES".to_owned();
    let mut i: usize = 0;
    while i < n - 1
        invariant
            i <= n - 1,
            n <= 0xFFFF_FFFF,
            s@ == spec_insert_header() + spec_rows(i as nat),
        decreases n - 1 - i,
    {
        append_row_body(&mut s, i);
        s.append(",");
        i += 1;
        proof {
            assert(s@ =~= spec_insert_header() + spec_rows(i as nat));
        }
    }
    append_row_body(&mut s, n - 1);
    s.append(";");
    proof {
        reveal_strlit(",");
        reveal_strlit(";");
        assert(spec_rows(n as nat) == spec_rows((n - 1) as nat) + spec_row_body((n - 1) as nat)
            + ","@);
        assert(s@ =~= spec_insert_query(n as nat));
    }
    s
}

/// The persistence gateway's decision for one batch: nothing at all for an
/// empty batch — never an error, never an insert with zero rows — and the
/// insert statement to bind and execute otherwise.
pub fn append_batch_plan(records: &Vec<Window>) -> (plan: Option<String>)
    requires
        records@.len() <= 0xFFFF_FFFF,
    ensures
        (plan is None) <==> records@.len() == 0,
        plan matches Some(q) ==> q@ == spec_insert_query(records@.len()),
{
    if records.len() == 0 {
        None
    } else {
        Some(build_insert_query(records.len()))
    }
}

} // verus!
