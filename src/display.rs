use vstd::prelude::*;

verus! {

/// Number of placeholder rows in the central list.
pub const PLACEHOLDER_ROWS: usize = 5;

/// One line of the asset list in the side panel: a token symbol and an amount.
pub struct AssetRow {
    pub symbol: String,
    pub amount: u64,
}

/// The fixed asset list shown in the side panel, as (symbol, amount) pairs.
pub open spec fn placeholder_assets_model() -> Seq<(Seq<char>, u64)> {
    seq![("scrt"@, 20u64), ("SHD"@, 30u64)]
}

/// The asset rows shown in the side panel. No query stands behind them.
pub fn placeholder_assets() -> (r: Vec<AssetRow>)
    ensures
        r@.map_values(|a: AssetRow| (a.symbol@, a.amount)) == placeholder_assets_model(),
{
    let r = vec![
        AssetRow { symbol: "scrt".to_owned(), amount: 20 },
        AssetRow { symbol: "SHD".to_owned(), amount: 30 },
    ];
    assert(r@.map_values(|a: AssetRow| (a.symbol@, a.amount)) =~= placeholder_assets_model());
    r
}

} // verus!
