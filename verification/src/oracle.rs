use vstd::prelude::*;

verus! {

/// What the pyth price-account parser yields for a given account image:
/// the aggregate price when the bytes form a well-formed price account,
/// `None` otherwise. The image is taken as 64-bit little-endian words —
/// the alignment on-chain account data has — so that the parse is a
/// function of the words alone.
pub uninterp spec fn pyth_aggregate_price_of(words: Seq<u64>) -> Option<i64>;

/// Relies on `pyth_client::load_price`: it views the leading bytes of the
/// image as a price account, answers `Err` when the image is too short or
/// its magic, version or account-type field is wrong, and otherwise hands
/// back the account, whose `agg.price` field is the aggregate price. The
/// words are widened to bytes with `bytemuck::cast_slice`, which keeps
/// their values and gives `load_price` the alignment it needs, so the call
/// cannot panic and its result depends on the words alone.
#[verifier::external_body]
pub(crate) fn pyth_aggregate_price(words: &[u64]) -> (r: Option<i64>)
    ensures
        r == pyth_aggregate_price_of(words@),
{
    match pyth_client::load_price(bytemuck::cast_slice(words)) {
        Ok(price_account) => Some(price_account.agg.price),
        Err(_) => None,
    }
}

} // verus!
