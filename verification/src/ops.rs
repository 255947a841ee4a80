use vstd::prelude::*;

use crate::state::Pubkey;

verus! {

/// One call into the host's fungible-token program. Instruction handlers
/// return the exact sequence of these that the host must perform; each is
/// signed by the stated authority (a program-derived address where the listing
/// or payment record owns the funds).
#[derive(Clone, Copy, Debug, PartialEq, Eq, Structural)]
pub enum TokenOp {
    /// Move `amount` from one token account to another; the host rejects it if
    /// the balance is insufficient or the mints mismatch.
    Transfer { from: Pubkey, to: Pubkey, authority: Pubkey, amount: u64 },
    /// Mint `amount` new tokens; the host requires `authority` to be the
    /// mint's configured mint authority.
    MintTo { mint: Pubkey, to: Pubkey, authority: Pubkey, amount: u64 },
    /// Burn `amount` tokens from `from`; the host requires the account's owner
    /// to be `authority` and its balance to cover the amount.
    Burn { mint: Pubkey, from: Pubkey, authority: Pubkey, amount: u64 },
    /// Zero a token account and return its rent to `destination`; only the
    /// account's authority may do so.
    CloseAccount { account: Pubkey, destination: Pubkey, authority: Pubkey },
}

/// Net number of tokens of `mint` that a sequence of operations creates:
/// mints count positive, burns negative.
pub open spec fn net_minted(ops: Seq<TokenOp>, mint: Pubkey) -> int
    decreases ops.len(),
{
    if ops.len() == 0 {
        0
    } else {
        net_minted(ops.drop_last(), mint) + (match ops.last() {
            TokenOp::MintTo { mint: m, amount, .. } => if m == mint {
                amount as int
            } else {
                0
            },
            TokenOp::Burn { mint: m, amount, .. } => if m == mint {
                -(amount as int)
            } else {
                0
            },
            _ => 0,
        })
    }
}

/// Total amount a sequence of operations transfers into `account`.
pub open spec fn transferred_in(ops: Seq<TokenOp>, account: Pubkey) -> int
    decreases ops.len(),
{
    if ops.len() == 0 {
        0
    } else {
        transferred_in(ops.drop_last(), account) + (match ops.last() {
            TokenOp::Transfer { to, amount, .. } => if to == account {
                amount as int
            } else {
                0
            },
            _ => 0,
        })
    }
}

/// Total amount a sequence of operations transfers out of `account`.
pub open spec fn transferred_out(ops: Seq<TokenOp>, account: Pubkey) -> int
    decreases ops.len(),
{
    if ops.len() == 0 {
        0
    } else {
        transferred_out(ops.drop_last(), account) + (match ops.last() {
            TokenOp::Transfer { from, amount, .. } => if from == account {
                amount as int
            } else {
                0
            },
            _ => 0,
        })
    }
}

/// The terminal effect of settling one payment, by refund or by withdrawal:
/// the token operations to perform, and where the escrow record's rent goes
/// when the host closes it. After settlement the payment and its vault no
/// longer exist, so no second settlement of the same payment can run.
#[derive(Debug)]
pub struct Settlement {
    pub ops: Vec<TokenOp>,
    /// Destination of the closed escrow record's rent: always the buyer, who
    /// funded the record at purchase time.
    pub payment_rent_to: Pubkey,
}

} // verus!
