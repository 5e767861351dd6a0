//! Presentational helpers for the table renderer: the fixed header, the
//! rendered height of a row, and the sign-based coloring of a row. The
//! drawing itself is the terminal collaborator's job.

use vstd::prelude::*;
use vstd::string::StrSliceExecFns;
use vstd::string::StringExecFns;

use crate::api::{row_matches, CryptoAPIData, DisplayRow};

verus! {

/// Number of newline characters in a text.
pub open spec fn newline_count(s: Seq<char>) -> nat
    decreases s.len(),
{
    if s.len() == 0 {
        0
    } else {
        newline_count(s.drop_last()) + if s.last() == '\n' {
            1nat
        } else {
            0nat
        }
    }
}

/// The largest newline count among the four cells of a row.
pub open spec fn max_newlines(r: DisplayRow) -> int {
    vstd::math::max(
        vstd::math::max(newline_count(r.symbol@) as int, newline_count(r.name@) as int),
        vstd::math::max(newline_count(r.price@) as int, newline_count(r.change@) as int),
    )
}

/// A row is rendered as "down" when its change cell starts with a minus
/// sign; the renderer colors it accordingly.
pub open spec fn is_down_spec(r: DisplayRow) -> bool {
    r.change@.len() > 0 && r.change@[0] == '-'
}

fn count_newlines(s: &str) -> (n: usize)
    ensures
        n as nat == newline_count(s@),
{
    let len = s.unicode_len();
    let mut n: usize = 0;
    let mut k: usize = 0;
    while k < len
        invariant
            k <= len,
            len as nat == s@.len(),
            n <= k,
            n as nat == newline_count(s@.take(k as int)),
        decreases len - k,
    {
        let c = s.get_char(k);
        if c == '\n' {
            n = n + 1;
        }
        k = k + 1;
        proof {
            assert(s@.take(k as int).drop_last() =~= s@.take(k as int - 1));
            assert(s@.take(k as int).last() == s@[k as int - 1]);
        }
    }
    proof {
        assert(s@.take(len as int) =~= s@);
    }
    n
}

/// The rendered height of one row: one more than the largest newline count
/// among its cells (saturating at the machine limit).
pub fn row_height(r: &DisplayRow) -> (h: usize)
    ensures
        h == if max_newlines(*r) + 1 <= usize::MAX {
            max_newlines(*r) + 1
        } else {
            usize::MAX as int
        },
{
    let a = count_newlines(r.symbol.as_str());
    let b = count_newlines(r.name.as_str());
    let c = count_newlines(r.price.as_str());
    let d = count_newlines(r.change.as_str());
    let mut m = a;
    if b > m {
        m = b;
    }
    if c > m {
        m = c;
    }
    if d > m {
        m = d;
    }
    if m < usize::MAX {
        m + 1
    } else {
        m
    }
}

/// Whether the renderer colors this row as "down".
pub fn row_is_down(r: &DisplayRow) -> (down: bool)
    ensures
        down == is_down_spec(*r),
{
    let s = r.change.as_str();
    if s.unicode_len() == 0 {
        false
    } else {
        s.get_char(0) == '-'
    }
}

/// A row projected from an asset record is colored "down" exactly when the
/// upstream 24h change text starts with a minus sign: truncation and the
/// `%` suffix never change the leading character.
pub proof fn lemma_down_follows_change_sign(r: DisplayRow, x: CryptoAPIData)
    requires
        row_matches(r, x),
    ensures
        is_down_spec(r) == (x.change_percent24_hr@.len() > 0 && x.change_percent24_hr@[0] == '-'),
{
    let c = x.change_percent24_hr@;
    if c.len() == 0 {
        assert(r.change@ =~= seq!['%']);
    } else {
        assert(r.change@[0] == c[0]);
    }
}

/// The fixed four-column header of the table.
pub fn header_titles() -> (h: Vec<String>)
    ensures
        h@.len() == 4,
        h@[0]@ == "Symbol"@,
        h@[1]@ == "Name"@,
        h@[2]@ == "Price(USD)"@,
        h@[3]@ == "Price Change 24h"@,
{
    let mut h: Vec<String> = Vec::new();
    h.push(String::from_str("Symbol"));
    h.push(String::from_str("Name"));
    h.push(String::from_str("Price(USD)"));
    h.push(String::from_str("Price Change 24h"));
    h
}

} // verus!
