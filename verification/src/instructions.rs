pub mod buy_asset;
pub mod create_app;
pub mod create_asset;
pub mod delete_asset;
pub mod edit_asset_price;
pub mod share_asset;
pub mod use_asset;
pub mod refund;
pub mod withdraw_funds;
