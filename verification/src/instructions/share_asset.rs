use vstd::prelude::*;

use crate::errors::ErrorCode;
use crate::ops::TokenOp;
use crate::state::{Asset, AssetView, Pubkey, TokenAccount};

verus! {

/// The account graph a free distribution runs against.
#[derive(Clone, Copy, Debug, PartialEq, Eq, Structural)]
pub struct ShareAssetAccounts {
    /// Address of the listing account; mint authority of the access token.
    pub asset_key: Pubkey,
    /// The signer; must be the listing authority.
    pub authority: Pubkey,
    /// Token account that receives the shared access tokens.
    pub receiver_vault: TokenAccount,
}

/// The first check a share fails, if any: only the seller may share, and the
/// recipient account must hold the access-token mint.
pub open spec fn share_check(asset: AssetView, accs: ShareAssetAccounts) -> Option<ErrorCode> {
    if asset.authority != accs.authority {
        Some(ErrorCode::IncorrectAssetAuthority)
    } else if accs.receiver_vault.mint != asset.asset_mint {
        Some(ErrorCode::IncorrectReceiverTokenAccount)
    } else {
        None
    }
}

/// The listing state after a successful share.
pub open spec fn share_asset_after(asset: AssetView, exemplars: u32) -> AssetView {
    AssetView { shared: (asset.shared + exemplars) as u32, ..asset }
}

/// The token operations a successful share performs: mint the given number of
/// access tokens straight to the recipient under the listing's signature.
pub open spec fn share_ops(asset: AssetView, accs: ShareAssetAccounts, exemplars: u32) -> Seq<
    TokenOp,
> {
    seq![
        TokenOp::MintTo {
            mint: asset.asset_mint,
            to: accs.receiver_vault.key,
            authority: accs.asset_key,
            amount: exemplars as u64,
        },
    ]
}

/// Give away `exemplars` access tokens for free: the shared counter rises and
/// the tokens are minted straight to the recipient under the listing's
/// signature. No payment, price, or escrow is involved, and the sold counter
/// and supply cap are untouched.
pub fn share_asset(asset: &mut Asset, accs: &ShareAssetAccounts, exemplars: u32) -> (r: Result<
    Vec<TokenOp>,
    ErrorCode,
>)
    requires
        old(asset)@.wf(),
        old(asset).shared + exemplars <= u32::MAX,
    ensures
        (r is Err) <==> share_check(old(asset)@, *accs) is Some,
        r matches Err(e) ==> Some(e) == share_check(old(asset)@, *accs) && final(asset)@ == old(
            asset,
        )@,
        r matches Ok(ops) ==> {
            &&& final(asset)@ == share_asset_after(old(asset)@, exemplars)
            &&& ops@ == share_ops(old(asset)@, *accs, exemplars)
        },
        final(asset)@.wf(),
{
    if !(asset.authority == accs.authority) {
        return Err(ErrorCode::IncorrectAssetAuthority);
    }
    if !(accs.receiver_vault.mint == asset.asset_mint) {
        return Err(ErrorCode::IncorrectReceiverTokenAccount);
    }
    asset.shared = asset.shared + exemplars;
    let mut ops: Vec<TokenOp> = Vec::new();
    ops.push(
        TokenOp::MintTo {
            mint: asset.asset_mint,
            to: accs.receiver_vault.key,
            authority: accs.asset_key,
            amount: exemplars as u64,
        },
    );
    assert(ops@ =~= share_ops(old(asset)@, *accs, exemplars));
    Ok(ops)
}

} // verus!
