use vstd::prelude::*;

verus! {

/// Number of bytes a platform name or off-chain identifier may occupy once
/// padded for use as a derivation seed.
pub const NAME_WIDTH: usize = 32;

/// Number of bytes the opaque off-chain metadata blob occupies once padded.
pub const METADATA_WIDTH: usize = 64;

/// An account address: the 32 bytes of a public key, held as two little-endian
/// 128-bit halves so that equality and copying are plain field operations.
#[derive(Clone, Copy, Debug, PartialEq, Eq, Structural)]
pub struct Pubkey {
    pub hi: u128,
    pub lo: u128,
}

/// A fungible-token account, as far as the protocol reads it: its own address,
/// the mint it holds, its owner, and its balance.
#[derive(Clone, Copy, Debug, PartialEq, Eq, Structural)]
pub struct TokenAccount {
    pub key: Pubkey,
    pub mint: Pubkey,
    pub owner: Pubkey,
    pub amount: u64,
}

/// A platform account grouping listings under a named operator with a fee
/// policy applied on withdrawal.
#[derive(Debug)]
pub struct App {
    pub authority: Pubkey,
    /// Fee charged on withdrawal, in basis points (250 means 2.5%).
    pub fee_basis_points: u16,
    pub bump: u8,
    /// Platform name, padded to `NAME_WIDTH` bytes; a derivation seed.
    pub app_name: Vec<u8>,
}

/// Mathematical value of an `App`.
pub ghost struct AppView {
    pub authority: Pubkey,
    pub fee_basis_points: u16,
    pub bump: u8,
    pub app_name: Seq<u8>,
}

impl View for App {
    type V = AppView;

    open spec fn view(&self) -> AppView {
        AppView {
            authority: self.authority,
            fee_basis_points: self.fee_basis_points,
            bump: self.bump,
            app_name: self.app_name@,
        }
    }
}

impl AppView {
    /// Well-formedness: the name fills its seed budget exactly and the fee
    /// never exceeds the basis-point denominator.
    pub open spec fn wf(self) -> bool {
        &&& self.app_name.len() == NAME_WIDTH
        &&& self.fee_basis_points <= 10000
    }
}

/// A listing: the seller's configuration together with the sale counters.
#[derive(Debug)]
pub struct Asset {
    /// Name of the platform this listing belongs to, padded to `NAME_WIDTH`.
    pub app_name: Vec<u8>,
    /// Opaque off-chain blob, padded to `METADATA_WIDTH`.
    pub off_chain_metadata: Vec<u8>,
    /// Mint of the token buyers pay with.
    pub accepted_mint: Pubkey,
    /// Mint of the access token this listing controls.
    pub asset_mint: Pubkey,
    /// The seller.
    pub authority: Pubkey,
    /// Seconds a buyer has to claim a refund after purchase.
    pub refund_timespan: u64,
    /// Price of one exemplar in the smallest unit of `accepted_mint`.
    pub price: u32,
    pub sold: u32,
    pub used: u32,
    pub shared: u32,
    pub refunded: u32,
    /// Supply cap; -1 means unlimited.
    pub exemplars: i32,
    pub bump: u8,
    pub mint_bump: u8,
    pub metadata_bump: u8,
    /// Off-chain identifier, padded to `NAME_WIDTH`; seed of the asset mint.
    pub off_chain_id: Vec<u8>,
}

/// Mathematical value of an `Asset`.
pub ghost struct AssetView {
    pub app_name: Seq<u8>,
    pub off_chain_metadata: Seq<u8>,
    pub accepted_mint: Pubkey,
    pub asset_mint: Pubkey,
    pub authority: Pubkey,
    pub refund_timespan: u64,
    pub price: u32,
    pub sold: u32,
    pub used: u32,
    pub shared: u32,
    pub refunded: u32,
    pub exemplars: i32,
    pub bump: u8,
    pub mint_bump: u8,
    pub metadata_bump: u8,
    pub off_chain_id: Seq<u8>,
}

impl View for Asset {
    type V = AssetView;

    open spec fn view(&self) -> AssetView {
        AssetView {
            app_name: self.app_name@,
            off_chain_metadata: self.off_chain_metadata@,
            accepted_mint: self.accepted_mint,
            asset_mint: self.asset_mint,
            authority: self.authority,
            refund_timespan: self.refund_timespan,
            price: self.price,
            sold: self.sold,
            used: self.used,
            shared: self.shared,
            refunded: self.refunded,
            exemplars: self.exemplars,
            bump: self.bump,
            mint_bump: self.mint_bump,
            metadata_bump: self.metadata_bump,
            off_chain_id: self.off_chain_id@,
        }
    }
}

impl AssetView {
    /// Well-formedness: the padded strings fill their budgets and, under a
    /// finite supply cap, the sold counter never exceeds the cap.
    pub open spec fn wf(self) -> bool {
        &&& self.app_name.len() == NAME_WIDTH
        &&& self.off_chain_metadata.len() == METADATA_WIDTH
        &&& self.off_chain_id.len() == NAME_WIDTH
        &&& self.exemplars >= 0 ==> self.sold <= self.exemplars
    }

    /// Access tokens still in circulation according to the counters: every
    /// sale or share minted one, every redemption burned one. Deletion is
    /// gated on this reaching zero (or below, never reached in honest
    /// histories).
    pub open spec fn outstanding(self) -> int {
        self.sold + self.shared - self.used
    }
}

/// An escrow record for one purchase. It exists exactly while the paid amount
/// sits in the escrow vault; it is consumed by exactly one of refund or
/// withdrawal.
#[derive(Clone, Copy, Debug, PartialEq, Eq, Structural)]
pub struct Payment {
    /// Access-token mint of the listing this payment belongs to.
    pub asset_mint: Pubkey,
    pub seller: Pubkey,
    pub buyer: Pubkey,
    /// Amount escrowed, fixed at purchase time.
    pub price: u32,
    /// Client-supplied purchase timestamp; a derivation seed, so one buyer can
    /// hold many concurrent payments for the same listing.
    pub payment_timestamp: u64,
    /// First instant at which refund is foreclosed and withdrawal opens.
    pub refund_consumed_at: u64,
    pub bump: u8,
    pub bump_vault: u8,
}

impl Payment {
    /// Well-formedness: the settlement deadline does not precede the purchase.
    pub open spec fn wf(self) -> bool {
        self.payment_timestamp <= self.refund_consumed_at
    }
}

} // verus!
