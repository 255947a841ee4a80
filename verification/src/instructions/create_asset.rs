use vstd::prelude::*;
use vstd::utf8::encode_utf8;

use crate::errors::ErrorCode;
use crate::state::{Asset, AssetView, Pubkey, METADATA_WIDTH, NAME_WIDTH};
use crate::utils::{get_32_bytes_from_string, get_64_bytes_from_string, space_padded};

verus! {

/// Register a listing. The off-chain identifier seeds the access-token mint,
/// the platform name links the listing to its platform, and the metadata blob
/// is opaque to the protocol; all three are padded to fixed widths and rejected
/// with `StringTooLong` over budget. All counters start at zero. The host
/// creates the access-token mint with zero decimals and the listing address as
/// its mint authority, so only this program can mint under the listing's
/// signature, and attaches display metadata to the mint in the same
/// transaction.
pub fn create_asset(
    authority: &Pubkey,
    accepted_mint: &Pubkey,
    asset_mint: &Pubkey,
    off_chain_id: String,
    app_name: String,
    off_chain_metadata: String,
    refund_timespan: u64,
    token_price: u32,
    exemplars: i32,
    bump: u8,
    mint_bump: u8,
    metadata_bump: u8,
) -> (r: Result<Asset, ErrorCode>)
    ensures
        (r is Ok) <==> {
            &&& encode_utf8(off_chain_id@).len() <= NAME_WIDTH
            &&& encode_utf8(off_chain_metadata@).len() <= METADATA_WIDTH
            &&& encode_utf8(app_name@).len() <= NAME_WIDTH
        },
        r matches Err(e) ==> e == ErrorCode::StringTooLong,
        r matches Ok(asset) ==> {
            &&& asset@ == (AssetView {
                app_name: space_padded(encode_utf8(app_name@), NAME_WIDTH as int),
                off_chain_metadata: space_padded(
                    encode_utf8(off_chain_metadata@),
                    METADATA_WIDTH as int,
                ),
                accepted_mint: *accepted_mint,
                asset_mint: *asset_mint,
                authority: *authority,
                refund_timespan,
                price: token_price,
                sold: 0,
                used: 0,
                shared: 0,
                refunded: 0,
                exemplars,
                bump,
                mint_bump,
                metadata_bump,
                off_chain_id: space_padded(encode_utf8(off_chain_id@), NAME_WIDTH as int),
            })
            &&& asset@.wf()
        },
{
    let id_data = match get_32_bytes_from_string(off_chain_id) {
        Ok(data) => data,
        Err(e) => {
            return Err(e);
        },
    };
    let metadata_data = match get_64_bytes_from_string(off_chain_metadata) {
        Ok(data) => data,
        Err(e) => {
            return Err(e);
        },
    };
    let name_data = match get_32_bytes_from_string(app_name) {
        Ok(data) => data,
        Err(e) => {
            return Err(e);
        },
    };
    Ok(
        Asset {
            app_name: name_data,
            off_chain_metadata: metadata_data,
            accepted_mint: *accepted_mint,
            asset_mint: *asset_mint,
            authority: *authority,
            refund_timespan,
            price: token_price,
            sold: 0,
            used: 0,
            shared: 0,
            refunded: 0,
            exemplars,
            bump,
            mint_bump,
            metadata_bump,
            off_chain_id: id_data,
        },
    )
}

} // verus!
