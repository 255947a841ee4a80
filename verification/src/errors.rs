use vstd::prelude::*;

verus! {

/// Reasons an instruction is rejected. Every failure is detected before any
/// state is mutated, so a rejected call leaves all accounts unchanged.
#[derive(Clone, Copy, Debug, PartialEq, Eq, Structural)]
pub enum ErrorCode {
    /// The refund window for this payment has already closed.
    TimeForRefundHasConsumed,
    /// The listing's supply cap leaves no exemplar to sell.
    NotEnoughTokensAvailable,
    /// The listing still has unconsumed access tokens outstanding.
    UsersStillHoldUnusedTokens,
    /// The refund window for this payment is still open.
    CannotWithdrawYet,
    /// An identifier or metadata string exceeds its fixed byte budget.
    StringTooLong,
    /// An arithmetic step in the fee computation failed.
    NumericalOverflow,
    /// The platform fee exceeds the basis-point denominator.
    IncorrectFee,
    /// The supplied payment mint is not the one the seller accepts.
    IncorrectPaymentToken,
    /// The funding account's mint is not the accepted payment mint.
    IncorrectBuyerTokenAccountOnTransfer,
    /// The receiving account's mint is not the listing's access-token mint.
    IncorrectBuyerTokenAccountToStorePurchasedToken,
    /// The signer is neither this payment's buyer nor its seller, as required.
    IncorrectPaymentAuthority,
    /// The supplied vault is not this payment's escrow vault.
    IncorrectPaymentVault,
    /// The receiving token account's mint does not match the expected mint.
    IncorrectReceiverTokenAccount,
    /// The signer is not the listing's authority.
    IncorrectAssetAuthority,
}

} // verus!
