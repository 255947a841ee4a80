use vstd::prelude::*;
use vstd::slice::slice_to_vec;
use vstd::utf8::encode_utf8;

use crate::errors::ErrorCode;
use crate::state::{METADATA_WIDTH, NAME_WIDTH};

verus! {

/// The platform's cut of a payment: the price times the fee in basis points,
/// rounded down.
pub open spec fn spec_total_fee(fee_basis_points: u16, price: u32) -> int {
    (fee_basis_points * price) / 10000
}

/// Split a payment between the platform and the seller. The fee is
/// `floor(price * fee_basis_points / 10000)` and the seller receives the
/// remainder, so the two amounts always sum to the price exactly. Fails only
/// when the fee would exceed the price itself, which cannot happen while
/// `fee_basis_points <= 10000`.
pub fn get_withdraw_amounts(fee_basis_points: u16, price: u32) -> (r: Result<
    (u64, u64),
    ErrorCode,
>)
    ensures
        r matches Ok(amounts) ==> {
            &&& amounts.0 == spec_total_fee(fee_basis_points, price)
            &&& amounts.1 == price - spec_total_fee(fee_basis_points, price)
            &&& amounts.0 + amounts.1 == price
        },
        r matches Err(e) ==> e == ErrorCode::NumericalOverflow,
        (r matches Ok(amounts)) <==> spec_total_fee(fee_basis_points, price) <= price,
{
    assert(fee_basis_points * price <= 65535 * 4294967295) by (nonlinear_arith)
        requires
            fee_basis_points <= 65535,
            price <= 4294967295,
    ;
    let wide_fee: u128 = ((fee_basis_points as u128) * (price as u128)) / 10000;
    let total_fee: u64 = wide_fee as u64;
    if total_fee > price as u64 {
        Err(ErrorCode::NumericalOverflow)
    } else {
        let seller_amount: u64 = (price as u64) - total_fee;
        Ok((total_fee, seller_amount))
    }
}

/// Fee-split law: while the fee stays within the basis-point denominator, the
/// platform's cut never exceeds the price, so the split succeeds and the fee
/// and the seller's remainder sum to the price exactly — no rounding leakage
/// beyond the floor division.
pub proof fn lemma_fee_within_price(fee_basis_points: u16, price: u32)
    requires
        fee_basis_points <= 10000,
    ensures
        0 <= spec_total_fee(fee_basis_points, price) <= price,
        spec_total_fee(fee_basis_points, price) + (price - spec_total_fee(
            fee_basis_points,
            price,
        )) == price,
{
    assert((fee_basis_points * price) / 10000 <= price) by (nonlinear_arith)
        requires
            fee_basis_points <= 10000,
            price >= 0,
    ;
    assert(fee_basis_points * price >= 0) by (nonlinear_arith)
        requires
            fee_basis_points >= 0,
            price >= 0,
    ;
}

/// `bytes` followed by enough ASCII spaces to fill `width` bytes.
pub open spec fn space_padded(bytes: Seq<u8>, width: int) -> Seq<u8>
    recommends
        bytes.len() <= width,
{
    bytes + Seq::new((width - bytes.len()) as nat, |i: int| 32u8)
}

/// Right-pad `bytes` with ASCII spaces to exactly `width` bytes.
fn pad_with_spaces(bytes: &[u8], width: usize) -> (r: Vec<u8>)
    requires
        bytes@.len() <= width,
    ensures
        r@ == space_padded(bytes@, width as int),
        r@.len() == width,
{
    let mut data = slice_to_vec(bytes);
    assert(data@ =~= space_padded(bytes@, data@.len() as int));
    while data.len() < width
        invariant
            bytes@.len() <= data@.len() <= width,
            data@ == space_padded(bytes@, data@.len() as int),
        decreases width - data.len(),
    {
        data.push(32u8);
        assert(data@ =~= space_padded(bytes@, data@.len() as int));
    }
    data
}

/// Encode a metadata string as a fixed 64-byte array: the UTF-8 bytes followed
/// by ASCII spaces, so the value always serializes to a constant size. Strings
/// over the budget are rejected with `StringTooLong`.
pub fn get_64_bytes_from_string(string: String) -> (r: Result<Vec<u8>, ErrorCode>)
    ensures
        r matches Ok(data) ==> {
            &&& data@ == space_padded(encode_utf8(string@), METADATA_WIDTH as int)
            &&& data@.len() == METADATA_WIDTH
        },
        r matches Err(e) ==> e == ErrorCode::StringTooLong,
        (r matches Ok(data)) <==> encode_utf8(string@).len() <= METADATA_WIDTH,
{
    let bytes = string.as_str().as_bytes();
    if bytes.len() > METADATA_WIDTH {
        return Err(ErrorCode::StringTooLong);
    }
    Ok(pad_with_spaces(bytes, METADATA_WIDTH))
}

/// Encode an identifier or platform name as a fixed 32-byte array, right-padded
/// with ASCII spaces; the result participates in address derivation. Strings
/// over the budget are rejected with `StringTooLong`.
pub fn get_32_bytes_from_string(string: String) -> (r: Result<Vec<u8>, ErrorCode>)
    ensures
        r matches Ok(data) ==> {
            &&& data@ == space_padded(encode_utf8(string@), NAME_WIDTH as int)
            &&& data@.len() == NAME_WIDTH
        },
        r matches Err(e) ==> e == ErrorCode::StringTooLong,
        (r matches Ok(data)) <==> encode_utf8(string@).len() <= NAME_WIDTH,
{
    let bytes = string.as_str().as_bytes();
    if bytes.len() > NAME_WIDTH {
        return Err(ErrorCode::StringTooLong);
    }
    Ok(pad_with_spaces(bytes, NAME_WIDTH))
}

} // verus!
