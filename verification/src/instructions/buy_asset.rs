use vstd::prelude::*;

use crate::errors::ErrorCode;
use crate::ops::TokenOp;
use crate::state::{Asset, AssetView, Payment, Pubkey, TokenAccount};

verus! {

/// The account graph a purchase runs against, beyond the listing itself. The
/// payment and vault addresses and bumps come from the derivation scheme; the
/// handler validates the token accounts' linkage and records the bumps.
#[derive(Clone, Copy, Debug, PartialEq, Eq, Structural)]
pub struct BuyAssetAccounts {
    /// Address of the listing account; mint authority of the access token.
    pub asset_key: Pubkey,
    /// The buyer, who signs the transaction.
    pub authority: Pubkey,
    /// Buyer's token account the price is paid from.
    pub buyer_transfer_vault: TokenAccount,
    /// The mint the buyer pays with; must be the listing's accepted mint.
    pub accepted_mint: Pubkey,
    /// Buyer's token account that receives the access token.
    pub buyer_token_vault: TokenAccount,
    /// Derived address of the new escrow record.
    pub payment_key: Pubkey,
    /// Derived address of the new escrow vault.
    pub payment_vault_key: Pubkey,
    pub payment_bump: u8,
    pub payment_vault_bump: u8,
}

/// The first check a purchase fails, if any: the funding account must hold the
/// accepted mint, the supplied mint must be the accepted one, the receiving
/// account must hold the access-token mint, and under a finite supply cap
/// there must be an exemplar left to sell.
pub open spec fn buy_check(asset: AssetView, accs: BuyAssetAccounts) -> Option<ErrorCode> {
    if accs.buyer_transfer_vault.mint != asset.accepted_mint {
        Some(ErrorCode::IncorrectBuyerTokenAccountOnTransfer)
    } else if accs.accepted_mint != asset.accepted_mint {
        Some(ErrorCode::IncorrectPaymentToken)
    } else if accs.buyer_token_vault.mint != asset.asset_mint {
        Some(ErrorCode::IncorrectBuyerTokenAccountToStorePurchasedToken)
    } else if asset.exemplars >= 0 && asset.sold + 1 > asset.exemplars {
        Some(ErrorCode::NotEnoughTokensAvailable)
    } else {
        None
    }
}

/// The listing state after a successful purchase: one more exemplar sold.
pub open spec fn buy_asset_after(asset: AssetView) -> AssetView {
    AssetView { sold: (asset.sold + 1) as u32, ..asset }
}

/// The escrow record a successful purchase creates: it fixes the price at
/// purchase time and forecloses refund `refund_timespan` seconds after the
/// purchase timestamp.
pub open spec fn buy_payment(asset: AssetView, accs: BuyAssetAccounts, timestamp: u64) -> Payment {
    Payment {
        asset_mint: asset.asset_mint,
        seller: asset.authority,
        buyer: accs.authority,
        price: asset.price,
        payment_timestamp: timestamp,
        refund_consumed_at: (timestamp + asset.refund_timespan) as u64,
        bump: accs.payment_bump,
        bump_vault: accs.payment_vault_bump,
    }
}

/// The token operations a successful purchase performs: escrow the price, then
/// mint one access token to the buyer under the listing's signature.
pub open spec fn buy_ops(asset: AssetView, accs: BuyAssetAccounts) -> Seq<TokenOp> {
    seq![
        TokenOp::Transfer {
            from: accs.buyer_transfer_vault.key,
            to: accs.payment_vault_key,
            authority: accs.authority,
            amount: asset.price as u64,
        },
        TokenOp::MintTo {
            mint: asset.asset_mint,
            to: accs.buyer_token_vault.key,
            authority: accs.asset_key,
            amount: 1u64,
        },
    ]
}

/// Purchase one exemplar. On success the sold counter rises by one, a fresh
/// escrow record is created, the price moves from the buyer's funding account
/// into the new escrow vault, and one access token is minted to the buyer. A
/// rejected purchase leaves the listing unchanged. The timestamp is
/// client-supplied and serves as a derivation-seed disambiguator so the same
/// buyer can hold several open payments for one listing.
pub fn buy_asset(asset: &mut Asset, accs: &BuyAssetAccounts, timestamp: u64) -> (r: Result<
    (Payment, Vec<TokenOp>),
    ErrorCode,
>)
    requires
        old(asset)@.wf(),
        old(asset).sold < u32::MAX,
        timestamp + old(asset).refund_timespan <= u64::MAX,
    ensures
        (r is Err) <==> buy_check(old(asset)@, *accs) is Some,
        r matches Err(e) ==> Some(e) == buy_check(old(asset)@, *accs) && final(asset)@ == old(
            asset,
        )@,
        r matches Ok(out) ==> {
            &&& final(asset)@ == buy_asset_after(old(asset)@)
            &&& out.0 == buy_payment(old(asset)@, *accs, timestamp)
            &&& out.1@ == buy_ops(old(asset)@, *accs)
            &&& out.0.wf()
        },
        final(asset)@.wf(),
{
    if !(accs.buyer_transfer_vault.mint == asset.accepted_mint) {
        return Err(ErrorCode::IncorrectBuyerTokenAccountOnTransfer);
    }
    if !(accs.accepted_mint == asset.accepted_mint) {
        return Err(ErrorCode::IncorrectPaymentToken);
    }
    if !(accs.buyer_token_vault.mint == asset.asset_mint) {
        return Err(ErrorCode::IncorrectBuyerTokenAccountToStorePurchasedToken);
    }
    if asset.exemplars >= 0 && asset.sold >= asset.exemplars as u32 {
        return Err(ErrorCode::NotEnoughTokensAvailable);
    }
    asset.sold = asset.sold + 1;
    let payment = Payment {
        asset_mint: asset.asset_mint,
        seller: asset.authority,
        buyer: accs.authority,
        price: asset.price,
        payment_timestamp: timestamp,
        refund_consumed_at: timestamp + asset.refund_timespan,
        bump: accs.payment_bump,
        bump_vault: accs.payment_vault_bump,
    };
    let mut ops: Vec<TokenOp> = Vec::new();
    ops.push(
        TokenOp::Transfer {
            from: accs.buyer_transfer_vault.key,
            to: accs.payment_vault_key,
            authority: accs.authority,
            amount: asset.price as u64,
        },
    );
    ops.push(
        TokenOp::MintTo {
            mint: asset.asset_mint,
            to: accs.buyer_token_vault.key,
            authority: accs.asset_key,
            amount: 1,
        },
    );
    assert(ops@ =~= buy_ops(old(asset)@, *accs));
    Ok((payment, ops))
}

} // verus!
