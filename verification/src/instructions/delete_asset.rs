use vstd::prelude::*;

use crate::errors::ErrorCode;
use crate::state::{Asset, Pubkey};

verus! {

/// Allow a listing account to be closed. Only the listing authority may do so,
/// and only once no unconsumed access token is outstanding: every sold or
/// shared exemplar must have been used. On success the host reclaims the
/// account and its rent; the record itself is not mutated here.
pub fn delete_asset(asset: &Asset, authority: &Pubkey) -> (r: Result<(), ErrorCode>)
    ensures
        (r is Ok) <==> (asset@.authority == *authority && asset@.sold + asset@.shared
            <= asset@.used),
        r matches Err(e) ==> (if asset@.authority != *authority {
            e == ErrorCode::IncorrectAssetAuthority
        } else {
            e == ErrorCode::UsersStillHoldUnusedTokens
        }),
{
    if !(asset.authority == *authority) {
        return Err(ErrorCode::IncorrectAssetAuthority);
    }
    if (asset.sold as u64) + (asset.shared as u64) > (asset.used as u64) {
        return Err(ErrorCode::UsersStillHoldUnusedTokens);
    }
    Ok(())
}

} // verus!
