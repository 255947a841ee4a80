use vstd::prelude::*;

use crate::errors::ErrorCode;
use crate::ops::{Settlement, TokenOp};
use crate::state::{Asset, AssetView, Payment, Pubkey, TokenAccount};

verus! {

/// The account graph a refund runs against, beyond the listing and the escrow
/// record being settled.
#[derive(Clone, Copy, Debug, PartialEq, Eq, Structural)]
pub struct RefundAccounts {
    /// The signer; must be the payment's buyer.
    pub authority: Pubkey,
    /// Token account the escrowed funds return to.
    pub receiver_vault: TokenAccount,
    /// Address of the escrow record; authority of its vault.
    pub payment_key: Pubkey,
    /// The escrow vault holding the paid amount.
    pub payment_vault: TokenAccount,
    /// Buyer's token account still holding the access token to burn.
    pub buyer_token_vault: TokenAccount,
}

/// The first check a refund fails, if any. The deadline check is strict: a
/// refund is possible only before `refund_consumed_at`; from that instant on
/// it is permanently foreclosed and withdrawal opens instead.
pub open spec fn refund_check(
    asset: AssetView,
    payment: Payment,
    accs: RefundAccounts,
    now: u64,
) -> Option<ErrorCode> {
    if accs.receiver_vault.mint != asset.accepted_mint {
        Some(ErrorCode::IncorrectReceiverTokenAccount)
    } else if accs.authority != payment.buyer {
        Some(ErrorCode::IncorrectPaymentAuthority)
    } else if accs.payment_vault.owner != accs.payment_key || accs.payment_vault.mint
        != asset.accepted_mint {
        Some(ErrorCode::IncorrectPaymentVault)
    } else if accs.buyer_token_vault.mint != asset.asset_mint {
        Some(ErrorCode::IncorrectBuyerTokenAccountToStorePurchasedToken)
    } else if now >= payment.refund_consumed_at {
        Some(ErrorCode::TimeForRefundHasConsumed)
    } else {
        None
    }
}

/// The listing state after a successful refund: the sale is undone and
/// recorded as refunded.
pub open spec fn refund_asset_after(asset: AssetView) -> AssetView {
    AssetView { sold: (asset.sold - 1) as u32, refunded: (asset.refunded + 1) as u32, ..asset }
}

/// The token operations a successful refund performs, signed by the escrow
/// record: return the full escrowed price, burn the buyer's access token (the
/// host rejects the burn if the buyer no longer holds one), and close the
/// emptied vault with its rent going to the buyer.
pub open spec fn refund_ops(asset: AssetView, payment: Payment, accs: RefundAccounts) -> Seq<
    TokenOp,
> {
    seq![
        TokenOp::Transfer {
            from: accs.payment_vault.key,
            to: accs.receiver_vault.key,
            authority: accs.payment_key,
            amount: payment.price as u64,
        },
        TokenOp::Burn {
            mint: asset.asset_mint,
            from: accs.buyer_token_vault.key,
            authority: accs.authority,
            amount: 1u64,
        },
        TokenOp::CloseAccount {
            account: accs.payment_vault.key,
            destination: accs.authority,
            authority: accs.payment_key,
        },
    ]
}

/// Reverse one purchase while its refund window is still open. Only the buyer
/// may invoke it, strictly before `refund_consumed_at`. On success the sold
/// counter drops by one, the refunded counter rises by one, the escrowed funds
/// return to the buyer, the access token is burned, and both the vault and the
/// escrow record are closed with their rent going to the buyer — after which
/// no second settlement of this payment can exist.
///
/// The preconditions are account-graph facts the host establishes before the
/// instruction runs: the payment belongs to this listing, and an open payment
/// implies at least one outstanding sale, so the sold counter cannot
/// underflow.
pub fn refund(asset: &mut Asset, payment: &Payment, accs: &RefundAccounts, now: u64) -> (r: Result<
    Settlement,
    ErrorCode,
>)
    requires
        old(asset)@.wf(),
        old(asset).sold >= 1,
        old(asset).refunded < u32::MAX,
        payment.asset_mint == old(asset)@.asset_mint,
    ensures
        (r is Err) <==> refund_check(old(asset)@, *payment, *accs, now) is Some,
        r matches Err(e) ==> Some(e) == refund_check(old(asset)@, *payment, *accs, now)
            && final(asset)@ == old(asset)@,
        r matches Ok(settlement) ==> {
            &&& final(asset)@ == refund_asset_after(old(asset)@)
            &&& settlement.ops@ == refund_ops(old(asset)@, *payment, *accs)
            &&& settlement.payment_rent_to == accs.authority
        },
        final(asset)@.wf(),
{
    if !(accs.receiver_vault.mint == asset.accepted_mint) {
        return Err(ErrorCode::IncorrectReceiverTokenAccount);
    }
    if !(accs.authority == payment.buyer) {
        return Err(ErrorCode::IncorrectPaymentAuthority);
    }
    if !(accs.payment_vault.owner == accs.payment_key) || !(accs.payment_vault.mint
        == asset.accepted_mint) {
        return Err(ErrorCode::IncorrectPaymentVault);
    }
    if !(accs.buyer_token_vault.mint == asset.asset_mint) {
        return Err(ErrorCode::IncorrectBuyerTokenAccountToStorePurchasedToken);
    }
    if now >= payment.refund_consumed_at {
        return Err(ErrorCode::TimeForRefundHasConsumed);
    }
    asset.sold = asset.sold - 1;
    asset.refunded = asset.refunded + 1;
    let mut ops: Vec<TokenOp> = Vec::new();
    ops.push(
        TokenOp::Transfer {
            from: accs.payment_vault.key,
            to: accs.receiver_vault.key,
            authority: accs.payment_key,
            amount: payment.price as u64,
        },
    );
    ops.push(
        TokenOp::Burn {
            mint: asset.asset_mint,
            from: accs.buyer_token_vault.key,
            authority: accs.authority,
            amount: 1,
        },
    );
    ops.push(
        TokenOp::CloseAccount {
            account: accs.payment_vault.key,
            destination: accs.authority,
            authority: accs.payment_key,
        },
    );
    assert(ops@ =~= refund_ops(old(asset)@, *payment, *accs));
    Ok(Settlement { ops, payment_rent_to: accs.authority })
}

} // verus!
