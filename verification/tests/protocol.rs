use brick::instructions::buy_asset::{buy_asset, BuyAssetAccounts};
use brick::instructions::create_app::create_app;
use brick::instructions::create_asset::create_asset;
use brick::instructions::delete_asset::delete_asset;
use brick::instructions::edit_asset_price::edit_asset_price;
use brick::instructions::refund::{refund, RefundAccounts};
use brick::instructions::share_asset::{share_asset, ShareAssetAccounts};
use brick::instructions::use_asset::{use_asset, UseAssetAccounts};
use brick::instructions::withdraw_funds::{withdraw_funds, WithdrawFundsAccounts};
use brick::ops::TokenOp;
use brick::{Asset, ErrorCode, Pubkey, TokenAccount};

fn pk(n: u128) -> Pubkey {
    Pubkey { hi: n, lo: n }
}

fn seller() -> Pubkey {
    pk(1)
}

fn buyer() -> Pubkey {
    pk(2)
}

fn pay_mint() -> Pubkey {
    pk(3)
}

fn access_mint() -> Pubkey {
    pk(4)
}

fn sample_asset(exemplars: i32, price: u32, refund_timespan: u64) -> Asset {
    create_asset(
        &seller(),
        &pay_mint(),
        &access_mint(),
        "item-1".to_string(),
        "platform".to_string(),
        "ipfs://metadata".to_string(),
        refund_timespan,
        price,
        exemplars,
        251,
        252,
        253,
    )
    .unwrap()
}

fn buy_accounts() -> BuyAssetAccounts {
    BuyAssetAccounts {
        asset_key: pk(9),
        authority: buyer(),
        buyer_transfer_vault: TokenAccount { key: pk(10), mint: pay_mint(), owner: buyer(), amount: 100_000 },
        accepted_mint: pay_mint(),
        buyer_token_vault: TokenAccount { key: pk(11), mint: access_mint(), owner: buyer(), amount: 0 },
        payment_key: pk(12),
        payment_vault_key: pk(13),
        payment_bump: 254,
        payment_vault_bump: 253,
    }
}

fn refund_accounts() -> RefundAccounts {
    RefundAccounts {
        authority: buyer(),
        receiver_vault: TokenAccount { key: pk(10), mint: pay_mint(), owner: buyer(), amount: 0 },
        payment_key: pk(12),
        payment_vault: TokenAccount { key: pk(13), mint: pay_mint(), owner: pk(12), amount: 100 },
        buyer_token_vault: TokenAccount { key: pk(11), mint: access_mint(), owner: buyer(), amount: 1 },
    }
}

fn withdraw_accounts() -> WithdrawFundsAccounts {
    WithdrawFundsAccounts {
        authority: seller(),
        app_creator_vault: TokenAccount { key: pk(20), mint: pay_mint(), owner: pk(21), amount: 0 },
        receiver_vault: TokenAccount { key: pk(22), mint: pay_mint(), owner: seller(), amount: 0 },
        buyer: buyer(),
        payment_key: pk(12),
        payment_vault: TokenAccount { key: pk(13), mint: pay_mint(), owner: pk(12), amount: 100 },
    }
}

#[test]
fn create_app_ok() {
    let app = create_app(&pk(1), "platform".to_string(), 250, 255).unwrap();
    assert_eq!(app.authority, pk(1));
    assert_eq!(app.fee_basis_points, 250);
    assert_eq!(app.bump, 255);
    assert_eq!(app.app_name.len(), 32);
    assert_eq!(&app.app_name[..8], b"platform");
    assert!(app.app_name[8..].iter().all(|&b| b == b' '));
}

#[test]
fn create_app_fee_too_high() {
    let r = create_app(&pk(1), "platform".to_string(), 10001, 255);
    assert_eq!(r.unwrap_err(), ErrorCode::IncorrectFee);
}

#[test]
fn create_app_name_too_long() {
    let long = "x".repeat(33);
    let r = create_app(&pk(1), long, 250, 255);
    assert_eq!(r.unwrap_err(), ErrorCode::StringTooLong);
}

#[test]
fn create_asset_initializes_counters() {
    let asset = sample_asset(5, 100, 3600);
    assert_eq!(asset.sold, 0);
    assert_eq!(asset.used, 0);
    assert_eq!(asset.shared, 0);
    assert_eq!(asset.refunded, 0);
    assert_eq!(asset.exemplars, 5);
    assert_eq!(asset.price, 100);
    assert_eq!(asset.refund_timespan, 3600);
    assert_eq!(asset.authority, seller());
    assert_eq!(asset.accepted_mint, pay_mint());
    assert_eq!(asset.asset_mint, access_mint());
    assert_eq!(asset.off_chain_id.len(), 32);
    assert_eq!(asset.app_name.len(), 32);
    assert_eq!(asset.off_chain_metadata.len(), 64);
    assert_eq!(&asset.off_chain_id[..6], b"item-1");
}

#[test]
fn create_asset_metadata_too_long() {
    let r = create_asset(
        &seller(),
        &pay_mint(),
        &access_mint(),
        "item-1".to_string(),
        "platform".to_string(),
        "m".repeat(65),
        3600,
        100,
        5,
        251,
        252,
        253,
    );
    assert_eq!(r.unwrap_err(), ErrorCode::StringTooLong);
}

#[test]
fn create_asset_id_too_long() {
    let r = create_asset(
        &seller(),
        &pay_mint(),
        &access_mint(),
        "i".repeat(33),
        "platform".to_string(),
        "meta".to_string(),
        3600,
        100,
        5,
        251,
        252,
        253,
    );
    assert_eq!(r.unwrap_err(), ErrorCode::StringTooLong);
}

#[test]
fn edit_price_by_authority() {
    let mut asset = sample_asset(5, 100, 3600);
    edit_asset_price(&mut asset, &seller(), 777).unwrap();
    assert_eq!(asset.price, 777);
}

#[test]
fn edit_price_wrong_signer() {
    let mut asset = sample_asset(5, 100, 3600);
    let r = edit_asset_price(&mut asset, &buyer(), 777);
    assert_eq!(r.unwrap_err(), ErrorCode::IncorrectAssetAuthority);
    assert_eq!(asset.price, 100);
}

#[test]
fn buy_respects_supply_cap() {
    let mut asset = sample_asset(2, 100, 3600);
    let accs = buy_accounts();
    assert!(buy_asset(&mut asset, &accs, 1).is_ok());
    assert!(buy_asset(&mut asset, &accs, 2).is_ok());
    assert_eq!(asset.sold, 2);
    let r = buy_asset(&mut asset, &accs, 3);
    assert_eq!(r.unwrap_err(), ErrorCode::NotEnoughTokensAvailable);
    assert_eq!(asset.sold, 2);
}

#[test]
fn buy_unlimited_never_fails_for_supply() {
    let mut asset = sample_asset(-1, 100, 3600);
    let accs = buy_accounts();
    for ts in 0..50u64 {
        assert!(buy_asset(&mut asset, &accs, ts).is_ok());
    }
    assert_eq!(asset.sold, 50);
}

#[test]
fn buy_wrong_funding_mint() {
    let mut asset = sample_asset(5, 100, 3600);
    let mut accs = buy_accounts();
    accs.buyer_transfer_vault.mint = pk(99);
    let r = buy_asset(&mut asset, &accs, 1);
    assert_eq!(r.unwrap_err(), ErrorCode::IncorrectBuyerTokenAccountOnTransfer);
    assert_eq!(asset.sold, 0);
}

#[test]
fn buy_wrong_accepted_mint() {
    let mut asset = sample_asset(5, 100, 3600);
    let mut accs = buy_accounts();
    accs.accepted_mint = pk(99);
    let r = buy_asset(&mut asset, &accs, 1);
    assert_eq!(r.unwrap_err(), ErrorCode::IncorrectPaymentToken);
}

#[test]
fn buy_wrong_receiver_mint() {
    let mut asset = sample_asset(5, 100, 3600);
    let mut accs = buy_accounts();
    accs.buyer_token_vault.mint = pk(99);
    let r = buy_asset(&mut asset, &accs, 1);
    assert_eq!(r.unwrap_err(), ErrorCode::IncorrectBuyerTokenAccountToStorePurchasedToken);
}

#[test]
fn buy_escrows_price_and_mints_one_token() {
    let mut asset = sample_asset(5, 100, 3600);
    let accs = buy_accounts();
    let (payment, ops) = buy_asset(&mut asset, &accs, 1000).unwrap();
    assert_eq!(payment.asset_mint, access_mint());
    assert_eq!(payment.seller, seller());
    assert_eq!(payment.buyer, buyer());
    assert_eq!(payment.price, 100);
    assert_eq!(payment.payment_timestamp, 1000);
    assert_eq!(payment.refund_consumed_at, 4600);
    assert_eq!(payment.bump, 254);
    assert_eq!(payment.bump_vault, 253);
    assert_eq!(ops.len(), 2);
    assert_eq!(
        ops[0],
        TokenOp::Transfer {
            from: accs.buyer_transfer_vault.key,
            to: accs.payment_vault_key,
            authority: buyer(),
            amount: 100,
        }
    );
    assert_eq!(
        ops[1],
        TokenOp::MintTo {
            mint: access_mint(),
            to: accs.buyer_token_vault.key,
            authority: accs.asset_key,
            amount: 1,
        }
    );
}

#[test]
fn share_by_authority() {
    let mut asset = sample_asset(1, 100, 3600);
    let accs = ShareAssetAccounts {
        asset_key: pk(9),
        authority: seller(),
        receiver_vault: TokenAccount { key: pk(30), mint: access_mint(), owner: pk(31), amount: 0 },
    };
    let ops = share_asset(&mut asset, &accs, 7).unwrap();
    assert_eq!(asset.shared, 7);
    assert_eq!(asset.sold, 0);
    assert_eq!(
        ops,
        vec![TokenOp::MintTo { mint: access_mint(), to: pk(30), authority: pk(9), amount: 7 }]
    );
}

#[test]
fn share_wrong_signer() {
    let mut asset = sample_asset(1, 100, 3600);
    let accs = ShareAssetAccounts {
        asset_key: pk(9),
        authority: buyer(),
        receiver_vault: TokenAccount { key: pk(30), mint: access_mint(), owner: pk(31), amount: 0 },
    };
    let r = share_asset(&mut asset, &accs, 7);
    assert_eq!(r.unwrap_err(), ErrorCode::IncorrectAssetAuthority);
    assert_eq!(asset.shared, 0);
}

#[test]
fn share_wrong_receiver_mint() {
    let mut asset = sample_asset(1, 100, 3600);
    let accs = ShareAssetAccounts {
        asset_key: pk(9),
        authority: seller(),
        receiver_vault: TokenAccount { key: pk(30), mint: pk(99), owner: pk(31), amount: 0 },
    };
    let r = share_asset(&mut asset, &accs, 7);
    assert_eq!(r.unwrap_err(), ErrorCode::IncorrectReceiverTokenAccount);
}

#[test]
fn use_burns_from_holder() {
    let mut asset = sample_asset(5, 100, 3600);
    let accs = UseAssetAccounts {
        authority: buyer(),
        holder_token_vault: TokenAccount { key: pk(11), mint: access_mint(), owner: buyer(), amount: 3 },
    };
    let ops = use_asset(&mut asset, &accs, 2).unwrap();
    assert_eq!(asset.used, 2);
    assert_eq!(
        ops,
        vec![TokenOp::Burn { mint: access_mint(), from: pk(11), authority: buyer(), amount: 2 }]
    );
}

#[test]
fn use_wrong_owner() {
    let mut asset = sample_asset(5, 100, 3600);
    let accs = UseAssetAccounts {
        authority: buyer(),
        holder_token_vault: TokenAccount { key: pk(11), mint: access_mint(), owner: pk(99), amount: 3 },
    };
    let r = use_asset(&mut asset, &accs, 2);
    assert_eq!(r.unwrap_err(), ErrorCode::IncorrectBuyerTokenAccountToStorePurchasedToken);
    assert_eq!(asset.used, 0);
}

#[test]
fn refund_before_deadline_restores_sold() {
    let mut asset = sample_asset(5, 100, 3600);
    let (payment, _) = buy_asset(&mut asset, &buy_accounts(), 1000).unwrap();
    assert_eq!(asset.sold, 1);
    let settlement = refund(&mut asset, &payment, &refund_accounts(), 4599).unwrap();
    assert_eq!(asset.sold, 0);
    assert_eq!(asset.refunded, 1);
    assert_eq!(settlement.payment_rent_to, buyer());
    assert_eq!(settlement.ops.len(), 3);
    assert_eq!(
        settlement.ops[0],
        TokenOp::Transfer { from: pk(13), to: pk(10), authority: pk(12), amount: 100 }
    );
    assert_eq!(
        settlement.ops[1],
        TokenOp::Burn { mint: access_mint(), from: pk(11), authority: buyer(), amount: 1 }
    );
    assert_eq!(
        settlement.ops[2],
        TokenOp::CloseAccount { account: pk(13), destination: buyer(), authority: pk(12) }
    );
}

#[test]
fn refund_at_deadline_fails() {
    let mut asset = sample_asset(5, 100, 3600);
    let (payment, _) = buy_asset(&mut asset, &buy_accounts(), 1000).unwrap();
    let r = refund(&mut asset, &payment, &refund_accounts(), 4600);
    assert_eq!(r.unwrap_err(), ErrorCode::TimeForRefundHasConsumed);
    assert_eq!(asset.sold, 1);
    assert_eq!(asset.refunded, 0);
}

#[test]
fn refund_wrong_buyer() {
    let mut asset = sample_asset(5, 100, 3600);
    let (payment, _) = buy_asset(&mut asset, &buy_accounts(), 1000).unwrap();
    let mut accs = refund_accounts();
    accs.authority = pk(99);
    let r = refund(&mut asset, &payment, &accs, 2000);
    assert_eq!(r.unwrap_err(), ErrorCode::IncorrectPaymentAuthority);
}

#[test]
fn refund_wrong_vault() {
    let mut asset = sample_asset(5, 100, 3600);
    let (payment, _) = buy_asset(&mut asset, &buy_accounts(), 1000).unwrap();
    let mut accs = refund_accounts();
    accs.payment_vault.owner = pk(99);
    let r = refund(&mut asset, &payment, &accs, 2000);
    assert_eq!(r.unwrap_err(), ErrorCode::IncorrectPaymentVault);
}

#[test]
fn withdraw_before_deadline_fails() {
    let mut asset = sample_asset(5, 100, 3600);
    let (payment, _) = buy_asset(&mut asset, &buy_accounts(), 1000).unwrap();
    let app = create_app(&pk(21), "platform".to_string(), 250, 255).unwrap();
    let r = withdraw_funds(&asset, &app, &payment, &withdraw_accounts(), 4599);
    assert_eq!(r.unwrap_err(), ErrorCode::CannotWithdrawYet);
}

#[test]
fn withdraw_at_deadline_splits_fee() {
    let mut asset = sample_asset(5, 10000, 3600);
    let (payment, _) = buy_asset(&mut asset, &buy_accounts(), 1000).unwrap();
    let app = create_app(&pk(21), "platform".to_string(), 250, 255).unwrap();
    let accs = withdraw_accounts();
    let settlement = withdraw_funds(&asset, &app, &payment, &accs, 4600).unwrap();
    assert_eq!(settlement.payment_rent_to, buyer());
    assert_eq!(settlement.ops.len(), 3);
    assert_eq!(
        settlement.ops[0],
        TokenOp::Transfer { from: pk(13), to: pk(20), authority: pk(12), amount: 250 }
    );
    assert_eq!(
        settlement.ops[1],
        TokenOp::Transfer { from: pk(13), to: pk(22), authority: pk(12), amount: 9750 }
    );
    assert_eq!(
        settlement.ops[2],
        TokenOp::CloseAccount { account: pk(13), destination: buyer(), authority: pk(12) }
    );
}

#[test]
fn withdraw_without_fee_pays_full_price() {
    let mut asset = sample_asset(5, 10000, 3600);
    let (payment, _) = buy_asset(&mut asset, &buy_accounts(), 1000).unwrap();
    let app = create_app(&pk(21), "platform".to_string(), 0, 255).unwrap();
    let settlement = withdraw_funds(&asset, &app, &payment, &withdraw_accounts(), 9000).unwrap();
    assert_eq!(settlement.ops.len(), 2);
    assert_eq!(
        settlement.ops[0],
        TokenOp::Transfer { from: pk(13), to: pk(22), authority: pk(12), amount: 10000 }
    );
}

#[test]
fn withdraw_wrong_seller() {
    let mut asset = sample_asset(5, 100, 3600);
    let (payment, _) = buy_asset(&mut asset, &buy_accounts(), 1000).unwrap();
    let app = create_app(&pk(21), "platform".to_string(), 250, 255).unwrap();
    let mut accs = withdraw_accounts();
    accs.authority = pk(99);
    let r = withdraw_funds(&asset, &app, &payment, &accs, 9000);
    assert_eq!(r.unwrap_err(), ErrorCode::IncorrectPaymentAuthority);
}

#[test]
fn delete_blocked_while_tokens_outstanding() {
    let mut asset = sample_asset(5, 100, 3600);
    buy_asset(&mut asset, &buy_accounts(), 1).unwrap();
    let r = delete_asset(&asset, &seller());
    assert_eq!(r.unwrap_err(), ErrorCode::UsersStillHoldUnusedTokens);
}

#[test]
fn delete_after_all_tokens_used() {
    let mut asset = sample_asset(5, 100, 3600);
    buy_asset(&mut asset, &buy_accounts(), 1).unwrap();
    let use_accs = UseAssetAccounts {
        authority: buyer(),
        holder_token_vault: TokenAccount { key: pk(11), mint: access_mint(), owner: buyer(), amount: 1 },
    };
    use_asset(&mut asset, &use_accs, 1).unwrap();
    assert!(delete_asset(&asset, &seller()).is_ok());
}

#[test]
fn delete_wrong_signer() {
    let asset = sample_asset(5, 100, 3600);
    let r = delete_asset(&asset, &buyer());
    assert_eq!(r.unwrap_err(), ErrorCode::IncorrectAssetAuthority);
}
