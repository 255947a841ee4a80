use vstd::prelude::*;

use crate::errors::ErrorCode;
use crate::instructions::buy_asset::{
    buy_asset_after, buy_check, buy_ops, buy_payment, BuyAssetAccounts,
};
use crate::instructions::refund::{refund_asset_after, refund_check, refund_ops, RefundAccounts};
use crate::instructions::share_asset::{share_asset_after, share_ops, ShareAssetAccounts};
use crate::instructions::use_asset::{use_asset_after, use_ops, UseAssetAccounts};
use crate::instructions::withdraw_funds::{withdraw_check, withdraw_ops, WithdrawFundsAccounts};
use crate::ops::{net_minted, transferred_in, transferred_out, TokenOp};
use crate::state::{AppView, AssetView, Payment};
use crate::utils::lemma_fee_within_price;

verus! {

/// The listing state and the number of successful purchases after a sequence
/// of purchase attempts, each judged by the purchase checks against the state
/// the previous attempts left behind.
pub open spec fn run_buys(asset: AssetView, attempts: Seq<BuyAssetAccounts>) -> (AssetView, nat)
    decreases attempts.len(),
{
    if attempts.len() == 0 {
        (asset, 0)
    } else {
        let prev = run_buys(asset, attempts.drop_last());
        match buy_check(prev.0, attempts.last()) {
            Some(e) => prev,
            None => (buy_asset_after(prev.0), prev.1 + 1),
        }
    }
}

/// Supply-cap law: on a listing with a finite supply cap, no sequence of
/// purchase attempts ever sells more than the cap. Each success raises the
/// sold counter by exactly one, so the number of successes is bounded by the
/// exemplars still unsold at the start.
pub proof fn lemma_supply_cap(asset: AssetView, attempts: Seq<BuyAssetAccounts>)
    requires
        asset.wf(),
        asset.exemplars >= 0,
    ensures
        run_buys(asset, attempts).0.wf(),
        run_buys(asset, attempts).0 == (AssetView {
            sold: run_buys(asset, attempts).0.sold,
            ..asset
        }),
        run_buys(asset, attempts).0.sold == asset.sold + run_buys(asset, attempts).1,
        run_buys(asset, attempts).1 <= asset.exemplars - asset.sold,
    decreases attempts.len(),
{
    if attempts.len() > 0 {
        lemma_supply_cap(asset, attempts.drop_last());
    }
}

/// Exhaustion law: once the sold counter has reached the supply cap, a further
/// purchase whose account checks pass is rejected for supply and nothing else.
pub proof fn lemma_buy_sold_out(asset: AssetView, accs: BuyAssetAccounts)
    requires
        asset.wf(),
        asset.exemplars >= 0,
        asset.sold == asset.exemplars,
        accs.buyer_transfer_vault.mint == asset.accepted_mint,
        accs.accepted_mint == asset.accepted_mint,
        accs.buyer_token_vault.mint == asset.asset_mint,
    ensures
        buy_check(asset, accs) == Some(ErrorCode::NotEnoughTokensAvailable),
{
}

/// Sequence-level exhaustion law: after any sequence of purchase attempts has
/// used up the supply cap, the next attempt whose account checks pass is
/// rejected for supply — the attempt past the cap cannot succeed.
pub proof fn lemma_attempt_past_cap_fails(
    asset: AssetView,
    attempts: Seq<BuyAssetAccounts>,
    next: BuyAssetAccounts,
)
    requires
        asset.wf(),
        asset.exemplars >= 0,
        run_buys(asset, attempts).1 == asset.exemplars - asset.sold,
        next.buyer_transfer_vault.mint == asset.accepted_mint,
        next.accepted_mint == asset.accepted_mint,
        next.buyer_token_vault.mint == asset.asset_mint,
    ensures
        buy_check(run_buys(asset, attempts).0, next) == Some(ErrorCode::NotEnoughTokensAvailable),
{
    lemma_supply_cap(asset, attempts);
}

/// Unlimited-supply law: on a listing with exemplars of -1, a purchase is
/// never rejected for supply, whatever the rest of the account graph looks
/// like.
pub proof fn lemma_unlimited_supply(asset: AssetView, accs: BuyAssetAccounts)
    requires
        asset.exemplars == -1,
    ensures
        buy_check(asset, accs) != Some(ErrorCode::NotEnoughTokensAvailable),
{
}

/// Round-trip law: a purchase followed by a refund inside the refund window
/// restores the sold counter to its value before the purchase, raises the
/// refunded counter by one, and changes nothing else about the listing. The
/// settlement also closes the escrow record and its vault, so no second
/// settlement of that payment has anything left to run against.
pub proof fn lemma_buy_refund_round_trip(
    asset: AssetView,
    buy_accs: BuyAssetAccounts,
    timestamp: u64,
    refund_accs: RefundAccounts,
    now: u64,
)
    requires
        asset.wf(),
        asset.sold < u32::MAX,
        asset.refunded < u32::MAX,
        buy_check(asset, buy_accs) is None,
        refund_check(
            buy_asset_after(asset),
            buy_payment(asset, buy_accs, timestamp),
            refund_accs,
            now,
        ) is None,
    ensures
        refund_asset_after(buy_asset_after(asset)) == (AssetView {
            refunded: (asset.refunded + 1) as u32,
            ..asset
        }),
        refund_asset_after(buy_asset_after(asset)).sold == asset.sold,
        now < buy_payment(asset, buy_accs, timestamp).refund_consumed_at,
{
}

/// Mutual-exclusion law: for one payment whose account graphs are valid for
/// both settlements, refund passes its checks exactly when the current time is
/// strictly before the deadline and withdrawal exactly from the deadline on —
/// there is no moment at which both are possible and none at which neither is.
pub proof fn lemma_settlement_mutually_exclusive(
    asset: AssetView,
    payment: Payment,
    refund_accs: RefundAccounts,
    withdraw_accs: WithdrawFundsAccounts,
    now: u64,
)
    requires
        refund_accs.receiver_vault.mint == asset.accepted_mint,
        refund_accs.authority == payment.buyer,
        refund_accs.payment_vault.owner == refund_accs.payment_key,
        refund_accs.payment_vault.mint == asset.accepted_mint,
        refund_accs.buyer_token_vault.mint == asset.asset_mint,
        withdraw_accs.app_creator_vault.mint == asset.accepted_mint,
        withdraw_accs.receiver_vault.mint == asset.accepted_mint,
        withdraw_accs.authority == payment.seller,
        withdraw_accs.payment_vault.owner == withdraw_accs.payment_key,
        withdraw_accs.payment_vault.mint == asset.accepted_mint,
    ensures
        now < payment.refund_consumed_at ==> refund_check(asset, payment, refund_accs, now) is None
            && withdraw_check(asset, payment, withdraw_accs, now) == Some(
            ErrorCode::CannotWithdrawYet,
        ),
        now >= payment.refund_consumed_at ==> refund_check(asset, payment, refund_accs, now)
            == Some(ErrorCode::TimeForRefundHasConsumed) && withdraw_check(
            asset,
            payment,
            withdraw_accs,
            now,
        ) is None,
        (refund_check(asset, payment, refund_accs, now) is None) <==> !(withdraw_check(
            asset,
            payment,
            withdraw_accs,
            now,
        ) is None),
{
}

/// Supply-conservation law, purchase: the operations a purchase emits mint
/// exactly as many access tokens as the counters say entered circulation.
pub proof fn lemma_buy_conserves_supply(asset: AssetView, accs: BuyAssetAccounts)
    requires
        asset.sold < u32::MAX,
    ensures
        net_minted(buy_ops(asset, accs), asset.asset_mint) == buy_asset_after(
            asset,
        ).outstanding() - asset.outstanding(),
{
    reveal_with_fuel(net_minted, 3);
    let ops = buy_ops(asset, accs);
    assert(ops.drop_last() =~= seq![ops[0]]);
    assert(seq![ops[0]].drop_last() =~= Seq::<TokenOp>::empty());
}

/// Supply-conservation law, share: a share mints exactly as many access
/// tokens as the shared counter rises by.
pub proof fn lemma_share_conserves_supply(
    asset: AssetView,
    accs: ShareAssetAccounts,
    exemplars: u32,
)
    requires
        asset.shared + exemplars <= u32::MAX,
    ensures
        net_minted(share_ops(asset, accs, exemplars), asset.asset_mint) == share_asset_after(
            asset,
            exemplars,
        ).outstanding() - asset.outstanding(),
{
    reveal_with_fuel(net_minted, 2);
    let ops = share_ops(asset, accs, exemplars);
    assert(ops.drop_last() =~= Seq::<TokenOp>::empty());
}

/// Supply-conservation law, redemption: a redemption burns exactly as many
/// access tokens as the used counter rises by.
pub proof fn lemma_use_conserves_supply(asset: AssetView, accs: UseAssetAccounts, exemplars: u32)
    requires
        asset.used + exemplars <= u32::MAX,
    ensures
        net_minted(use_ops(asset, accs, exemplars), asset.asset_mint) == use_asset_after(
            asset,
            exemplars,
        ).outstanding() - asset.outstanding(),
{
    reveal_with_fuel(net_minted, 2);
    let ops = use_ops(asset, accs, exemplars);
    assert(ops.drop_last() =~= Seq::<TokenOp>::empty());
}

/// Counter-invariant law: on the host, the used counter never overtakes
/// sold plus shared. A redemption's burn succeeds only while the holder's
/// balance covers it, and no balance can exceed the outstanding supply, which
/// the conservation laws keep equal to sold plus shared minus used; under
/// those two facts a redemption leaves the outstanding count non-negative.
pub proof fn lemma_use_keeps_outstanding_nonnegative(
    asset: AssetView,
    accs: UseAssetAccounts,
    exemplars: u32,
)
    requires
        asset.used + exemplars <= u32::MAX,
        exemplars <= accs.holder_token_vault.amount,
        accs.holder_token_vault.amount <= asset.outstanding(),
    ensures
        use_asset_after(asset, exemplars).outstanding() >= 0,
        use_asset_after(asset, exemplars).outstanding() == asset.outstanding() - exemplars,
{
}

/// Supply-conservation law, refund: a refund burns the one access token whose
/// sale it reverses.
pub proof fn lemma_refund_conserves_supply(
    asset: AssetView,
    payment: Payment,
    accs: RefundAccounts,
)
    requires
        asset.sold >= 1,
        asset.refunded < u32::MAX,
    ensures
        net_minted(refund_ops(asset, payment, accs), asset.asset_mint) == refund_asset_after(
            asset,
        ).outstanding() - asset.outstanding(),
{
    reveal_with_fuel(net_minted, 4);
    let ops = refund_ops(asset, payment, accs);
    assert(ops.drop_last() =~= seq![ops[0], ops[1]]);
    assert(seq![ops[0], ops[1]].drop_last() =~= seq![ops[0]]);
    assert(seq![ops[0]].drop_last() =~= Seq::<TokenOp>::empty());
}

/// Escrow law, purchase: a purchase moves exactly the listing price into the
/// fresh escrow vault and nothing out of it.
pub proof fn lemma_buy_escrows_price(asset: AssetView, accs: BuyAssetAccounts)
    requires
        accs.payment_vault_key != accs.buyer_transfer_vault.key,
    ensures
        transferred_in(buy_ops(asset, accs), accs.payment_vault_key) == asset.price,
        transferred_out(buy_ops(asset, accs), accs.payment_vault_key) == 0,
{
    reveal_with_fuel(transferred_in, 3);
    reveal_with_fuel(transferred_out, 3);
    let ops = buy_ops(asset, accs);
    assert(ops.drop_last() =~= seq![ops[0]]);
    assert(seq![ops[0]].drop_last() =~= Seq::<TokenOp>::empty());
}

/// Escrow law, refund: a refund drains exactly the escrowed price from the
/// vault, back to the buyer's receiver account.
pub proof fn lemma_refund_returns_price(asset: AssetView, payment: Payment, accs: RefundAccounts)
    ensures
        transferred_out(refund_ops(asset, payment, accs), accs.payment_vault.key)
            == payment.price,
{
    reveal_with_fuel(transferred_out, 4);
    let ops = refund_ops(asset, payment, accs);
    assert(ops.drop_last() =~= seq![ops[0], ops[1]]);
    assert(seq![ops[0], ops[1]].drop_last() =~= seq![ops[0]]);
    assert(seq![ops[0]].drop_last() =~= Seq::<TokenOp>::empty());
}

/// Escrow law, withdrawal: whatever the platform's fee policy, a withdrawal
/// drains exactly the escrowed price from the vault — the fee share and the
/// seller's share always sum to the price, with no rounding leakage.
pub proof fn lemma_withdraw_disburses_price(
    app: AppView,
    payment: Payment,
    accs: WithdrawFundsAccounts,
)
    requires
        app.wf(),
    ensures
        transferred_out(withdraw_ops(app, payment, accs), accs.payment_vault.key)
            == payment.price,
{
    reveal_with_fuel(transferred_out, 4);
    lemma_fee_within_price(app.fee_basis_points, payment.price);
    let ops = withdraw_ops(app, payment, accs);
    if app.fee_basis_points > 0 {
        assert(ops.drop_last() =~= seq![ops[0], ops[1]]);
        assert(seq![ops[0], ops[1]].drop_last() =~= seq![ops[0]]);
        assert(seq![ops[0]].drop_last() =~= Seq::<TokenOp>::empty());
    } else {
        assert(ops.drop_last() =~= seq![ops[0]]);
        assert(seq![ops[0]].drop_last() =~= Seq::<TokenOp>::empty());
    }
}

} // verus!
