use vstd::prelude::*;

use crate::errors::ErrorCode;
use crate::ops::TokenOp;
use crate::state::{Asset, AssetView, Pubkey, TokenAccount};

verus! {

/// The account graph a redemption runs against.
#[derive(Clone, Copy, Debug, PartialEq, Eq, Structural)]
pub struct UseAssetAccounts {
    /// The holder redeeming tokens, who signs the transaction.
    pub authority: Pubkey,
    /// The holder's token account the redeemed tokens are burned from.
    pub holder_token_vault: TokenAccount,
}

/// The first check a redemption fails, if any: the vault must hold the
/// access-token mint and belong to the signer.
pub open spec fn use_check(asset: AssetView, accs: UseAssetAccounts) -> Option<ErrorCode> {
    if accs.holder_token_vault.mint != asset.asset_mint {
        Some(ErrorCode::IncorrectBuyerTokenAccountToStorePurchasedToken)
    } else if accs.holder_token_vault.owner != accs.authority {
        Some(ErrorCode::IncorrectBuyerTokenAccountToStorePurchasedToken)
    } else {
        None
    }
}

/// The listing state after a successful redemption.
pub open spec fn use_asset_after(asset: AssetView, exemplars: u32) -> AssetView {
    AssetView { used: (asset.used + exemplars) as u32, ..asset }
}

/// The token operations a successful redemption performs: burn the redeemed
/// tokens from the holder's vault.
pub open spec fn use_ops(asset: AssetView, accs: UseAssetAccounts, exemplars: u32) -> Seq<
    TokenOp,
> {
    seq![
        TokenOp::Burn {
            mint: asset.asset_mint,
            from: accs.holder_token_vault.key,
            authority: accs.authority,
            amount: exemplars as u64,
        },
    ]
}

/// Redeem `exemplars` access tokens: the used counter rises and the tokens are
/// burned from the holder's vault (the host rejects the burn if the balance is
/// short). Redemption is deliberately decoupled from fund settlement: it never
/// moves escrowed funds, it only feeds the counter that later gates deletion.
pub fn use_asset(asset: &mut Asset, accs: &UseAssetAccounts, exemplars: u32) -> (r: Result<
    Vec<TokenOp>,
    ErrorCode,
>)
    requires
        old(asset)@.wf(),
        old(asset).used + exemplars <= u32::MAX,
    ensures
        (r is Err) <==> use_check(old(asset)@, *accs) is Some,
        r matches Err(e) ==> Some(e) == use_check(old(asset)@, *accs) && final(asset)@ == old(
            asset,
        )@,
        r matches Ok(ops) ==> {
            &&& final(asset)@ == use_asset_after(old(asset)@, exemplars)
            &&& ops@ == use_ops(old(asset)@, *accs, exemplars)
        },
        final(asset)@.wf(),
{
    if !(accs.holder_token_vault.mint == asset.asset_mint) {
        return Err(ErrorCode::IncorrectBuyerTokenAccountToStorePurchasedToken);
    }
    if !(accs.holder_token_vault.owner == accs.authority) {
        return Err(ErrorCode::IncorrectBuyerTokenAccountToStorePurchasedToken);
    }
    asset.used = asset.used + exemplars;
    let mut ops: Vec<TokenOp> = Vec::new();
    ops.push(
        TokenOp::Burn {
            mint: asset.asset_mint,
            from: accs.holder_token_vault.key,
            authority: accs.authority,
            amount: exemplars as u64,
        },
    );
    assert(ops@ =~= use_ops(old(asset)@, *accs, exemplars));
    Ok(ops)
}

} // verus!
