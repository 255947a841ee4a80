use vstd::prelude::*;

use crate::errors::ErrorCode;
use crate::state::{Asset, AssetView, Pubkey};

verus! {

/// Replace a listing's price. Only the listing authority may do so; open
/// payments keep the price stored at their purchase time, so in-flight
/// purchases are unaffected.
pub fn edit_asset_price(asset: &mut Asset, authority: &Pubkey, token_price: u32) -> (r: Result<
    (),
    ErrorCode,
>)
    ensures
        (r is Ok) <==> old(asset)@.authority == *authority,
        r is Ok ==> final(asset)@ == (AssetView { price: token_price, ..old(asset)@ }),
        r matches Err(e) ==> e == ErrorCode::IncorrectAssetAuthority && final(asset)@ == old(
            asset,
        )@,
        old(asset)@.wf() ==> final(asset)@.wf(),
{
    if !(asset.authority == *authority) {
        return Err(ErrorCode::IncorrectAssetAuthority);
    }
    asset.price = token_price;
    Ok(())
}

} // verus!
