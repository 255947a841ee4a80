use vstd::prelude::*;

use crate::errors::ErrorCode;
use crate::ops::{Settlement, TokenOp};
use crate::state::{App, AppView, Asset, AssetView, Payment, Pubkey, TokenAccount};
use crate::utils::{get_withdraw_amounts, lemma_fee_within_price, spec_total_fee};

verus! {

/// The account graph a withdrawal runs against, beyond the listing, its
/// platform, and the escrow record being settled.
#[derive(Clone, Copy, Debug, PartialEq, Eq, Structural)]
pub struct WithdrawFundsAccounts {
    /// The signer; must be the payment's seller.
    pub authority: Pubkey,
    /// The platform's token account the fee share goes to.
    pub app_creator_vault: TokenAccount,
    /// The seller's token account the remainder goes to.
    pub receiver_vault: TokenAccount,
    /// The payment's buyer, who funded the escrow record's rent and receives
    /// it back when the record closes.
    pub buyer: Pubkey,
    /// Address of the escrow record; authority of its vault.
    pub payment_key: Pubkey,
    /// The escrow vault holding the paid amount.
    pub payment_vault: TokenAccount,
}

/// The first check a withdrawal fails, if any. The deadline check mirrors the
/// refund's exactly: withdrawal opens at `refund_consumed_at`, the first
/// instant at which refund is foreclosed, so for any moment exactly one of the
/// two settlements is possible.
pub open spec fn withdraw_check(
    asset: AssetView,
    payment: Payment,
    accs: WithdrawFundsAccounts,
    now: u64,
) -> Option<ErrorCode> {
    if accs.app_creator_vault.mint != asset.accepted_mint {
        Some(ErrorCode::IncorrectReceiverTokenAccount)
    } else if accs.receiver_vault.mint != asset.accepted_mint {
        Some(ErrorCode::IncorrectReceiverTokenAccount)
    } else if accs.authority != payment.seller {
        Some(ErrorCode::IncorrectPaymentAuthority)
    } else if accs.payment_vault.owner != accs.payment_key || accs.payment_vault.mint
        != asset.accepted_mint {
        Some(ErrorCode::IncorrectPaymentVault)
    } else if now < payment.refund_consumed_at {
        Some(ErrorCode::CannotWithdrawYet)
    } else {
        None
    }
}

/// The token operations a successful withdrawal performs, signed by the escrow
/// record. Under a platform with a positive fee the escrowed price splits into
/// the fee (rounded down) and the seller's remainder, which together equal the
/// price exactly; otherwise the full price goes to the seller. The emptied
/// vault closes with its rent going back to the buyer.
pub open spec fn withdraw_ops(
    app: AppView,
    payment: Payment,
    accs: WithdrawFundsAccounts,
) -> Seq<TokenOp> {
    let close = TokenOp::CloseAccount {
        account: accs.payment_vault.key,
        destination: accs.buyer,
        authority: accs.payment_key,
    };
    if app.fee_basis_points > 0 {
        seq![
            TokenOp::Transfer {
                from: accs.payment_vault.key,
                to: accs.app_creator_vault.key,
                authority: accs.payment_key,
                amount: spec_total_fee(app.fee_basis_points, payment.price) as u64,
            },
            TokenOp::Transfer {
                from: accs.payment_vault.key,
                to: accs.receiver_vault.key,
                authority: accs.payment_key,
                amount: (payment.price - spec_total_fee(app.fee_basis_points, payment.price)) as u64,
            },
            close,
        ]
    } else {
        seq![
            TokenOp::Transfer {
                from: accs.payment_vault.key,
                to: accs.receiver_vault.key,
                authority: accs.payment_key,
                amount: payment.price as u64,
            },
            close,
        ]
    }
}

/// Collect one escrowed payment once its refund window has closed. Only the
/// seller may invoke it, at or after `refund_consumed_at`. On success the
/// escrowed price moves to the seller — less the platform fee when the listing
/// belongs to a platform with a positive fee — and the vault and escrow record
/// close, with their rent returned to the buyer who paid it at purchase time.
/// The listing's counters are untouched: settlement and redemption are
/// independent.
///
/// The preconditions are account-graph facts the host establishes before the
/// instruction runs: the platform is the one the listing names, its fee policy
/// is well formed (so the split below cannot fail), the payment belongs to
/// this listing, and the supplied buyer is the payment's buyer.
pub fn withdraw_funds(
    asset: &Asset,
    app: &App,
    payment: &Payment,
    accs: &WithdrawFundsAccounts,
    now: u64,
) -> (r: Result<Settlement, ErrorCode>)
    requires
        app@.wf(),
        app@.app_name == asset@.app_name,
        payment.asset_mint == asset@.asset_mint,
        accs.buyer == payment.buyer,
    ensures
        (r is Err) <==> withdraw_check(asset@, *payment, *accs, now) is Some,
        r matches Err(e) ==> Some(e) == withdraw_check(asset@, *payment, *accs, now),
        r matches Ok(settlement) ==> {
            &&& settlement.ops@ == withdraw_ops(app@, *payment, *accs)
            &&& settlement.payment_rent_to == accs.buyer
        },
{
    if !(accs.app_creator_vault.mint == asset.accepted_mint) {
        return Err(ErrorCode::IncorrectReceiverTokenAccount);
    }
    if !(accs.receiver_vault.mint == asset.accepted_mint) {
        return Err(ErrorCode::IncorrectReceiverTokenAccount);
    }
    if !(accs.authority == payment.seller) {
        return Err(ErrorCode::IncorrectPaymentAuthority);
    }
    if !(accs.payment_vault.owner == accs.payment_key) || !(accs.payment_vault.mint
        == asset.accepted_mint) {
        return Err(ErrorCode::IncorrectPaymentVault);
    }
    if now < payment.refund_consumed_at {
        return Err(ErrorCode::CannotWithdrawYet);
    }
    let mut ops: Vec<TokenOp> = Vec::new();
    if app.fee_basis_points > 0 {
        proof {
            lemma_fee_within_price(app.fee_basis_points, payment.price);
        }
        match get_withdraw_amounts(app.fee_basis_points, payment.price) {
            Ok(amounts) => {
                ops.push(
                    TokenOp::Transfer {
                        from: accs.payment_vault.key,
                        to: accs.app_creator_vault.key,
                        authority: accs.payment_key,
                        amount: amounts.0,
                    },
                );
                ops.push(
                    TokenOp::Transfer {
                        from: accs.payment_vault.key,
                        to: accs.receiver_vault.key,
                        authority: accs.payment_key,
                        amount: amounts.1,
                    },
                );
            },
            Err(e) => {
                assert(false);
                return Err(e);
            },
        }
    } else {
        ops.push(
            TokenOp::Transfer {
                from: accs.payment_vault.key,
                to: accs.receiver_vault.key,
                authority: accs.payment_key,
                amount: payment.price as u64,
            },
        );
    }
    ops.push(
        TokenOp::CloseAccount {
            account: accs.payment_vault.key,
            destination: accs.buyer,
            authority: accs.payment_key,
        },
    );
    assert(ops@ =~= withdraw_ops(app@, *payment, *accs));
    Ok(Settlement { ops, payment_rent_to: accs.buyer })
}

} // verus!
