//! Asset records and their projection into display rows.

use vstd::prelude::*;
use vstd::string::StringExecFns;
use vstd::string::StrSliceExecFns;

verus! {

/// Number of characters the 24h change percentage is truncated to
/// before the `%` suffix is appended.
pub const CHANGE_WIDTH: usize = 6;

/// One upstream asset record. All numeric quantities are kept as decimal
/// text until display time.
pub struct CryptoAPIData {
    pub id: String,
    pub symbol: String,
    pub name: String,
    pub market_cap_usd: String,
    pub price_usd: String,
    pub change_percent24_hr: String,
}

/// The envelope the upstream endpoint answers with: a list of asset records.
pub struct CryptoAPIStruct {
    pub data: Vec<CryptoAPIData>,
}

/// Why a fetch failed: the transport (network or HTTP status), or the
/// decoding of the response body.
pub enum FetchError {
    Transport,
    Decode,
}

/// One rendered table row: symbol, name, formatted price, formatted change.
pub struct DisplayRow {
    pub symbol: String,
    pub name: String,
    pub price: String,
    pub change: String,
}

/// The formatted price: the price text with a leading dollar sign.
pub open spec fn price_text(price: Seq<char>) -> Seq<char> {
    seq!['$'] + price
}

/// The formatted 24h change: the change text truncated to
/// `CHANGE_WIDTH` characters (clamped, so shorter inputs pass through
/// whole), with a `%` suffix.
pub open spec fn change_text(change: Seq<char>) -> Seq<char> {
    if change.len() <= CHANGE_WIDTH {
        change + seq!['%']
    } else {
        change.take(CHANGE_WIDTH as int) + seq!['%']
    }
}

/// The row `r` is the display projection of the record `x`.
pub open spec fn row_matches(r: DisplayRow, x: CryptoAPIData) -> bool {
    &&& r.symbol@ == x.symbol@
    &&& r.name@ == x.name@
    &&& r.price@ == price_text(x.price_usd@)
    &&& r.change@ == change_text(x.change_percent24_hr@)
}

/// Projects one asset record into its display row.
pub fn to_display_row(x: &CryptoAPIData) -> (r: DisplayRow)
    ensures
        row_matches(r, *x),
{
    let mut price = String::from_str("$");
    proof {
        reveal_strlit("$");
        assert(price@ =~= seq!['$']);
    }
    price.append(x.price_usd.as_str());

    let change_str = x.change_percent24_hr.as_str();
    let n = change_str.unicode_len();
    let cut = if n <= CHANGE_WIDTH {
        n
    } else {
        CHANGE_WIDTH
    };
    let mut change = change_str.substring_char(0, cut).to_owned();
    proof {
        reveal_strlit("%");
        assert("%"@ =~= seq!['%']);
        if x.change_percent24_hr@.len() <= CHANGE_WIDTH {
            assert(change@ =~= x.change_percent24_hr@);
        }
    }
    change.append("%");

    DisplayRow {
        symbol: x.symbol.clone(),
        name: x.name.clone(),
        price,
        change,
    }
}

/// Projects a list of asset records into display rows, in order.
pub fn get_data(records: &Vec<CryptoAPIData>) -> (rows: Vec<DisplayRow>)
    ensures
        rows@.len() == records@.len(),
        forall|i: int| 0 <= i < records@.len() ==> row_matches(#[trigger] rows@[i], records@[i]),
{
    let mut rows: Vec<DisplayRow> = Vec::new();
    let mut k: usize = 0;
    while k < records.len()
        invariant
            k <= records@.len(),
            rows@.len() == k,
            forall|i: int| 0 <= i < k ==> row_matches(#[trigger] rows@[i], records@[i]),
        decreases records@.len() - k,
    {
        rows.push(to_display_row(&records[k]));
        k = k + 1;
    }
    rows
}

/// A change string shorter than the truncation width is not truncated:
/// its formatted form is the whole string with the `%` suffix.
pub proof fn lemma_short_change_not_truncated(change: Seq<char>)
    requires
        change.len() < CHANGE_WIDTH,
    ensures
        change_text(change) == change + seq!['%'],
{
}

} // verus!
