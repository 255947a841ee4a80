use vstd::prelude::*;
use vstd::utf8::encode_utf8;

use crate::errors::ErrorCode;
use crate::state::{App, AppView, Pubkey, NAME_WIDTH};
use crate::utils::{get_32_bytes_from_string, space_padded};

verus! {

/// Register a platform account under a name of at most `NAME_WIDTH` bytes,
/// with a withdrawal fee of at most 10000 basis points. The padded name is a
/// derivation seed, and `bump` is the canonical bump of the platform address,
/// persisted so later instructions re-supply it instead of searching again.
pub fn create_app(authority: &Pubkey, app_name: String, fee_basis_points: u16, bump: u8) -> (r:
    Result<App, ErrorCode>)
    ensures
        (r is Ok) <==> (encode_utf8(app_name@).len() <= NAME_WIDTH && fee_basis_points <= 10000),
        r matches Ok(app) ==> {
            &&& app@ == (AppView {
                authority: *authority,
                fee_basis_points,
                bump,
                app_name: space_padded(encode_utf8(app_name@), NAME_WIDTH as int),
            })
            &&& app@.wf()
        },
        r matches Err(e) ==> (if encode_utf8(app_name@).len() > NAME_WIDTH {
            e == ErrorCode::StringTooLong
        } else {
            e == ErrorCode::IncorrectFee
        }),
{
    let name_data = match get_32_bytes_from_string(app_name) {
        Ok(data) => data,
        Err(e) => {
            return Err(e);
        },
    };
    if fee_basis_points > 10000 {
        return Err(ErrorCode::IncorrectFee);
    }
    Ok(App { authority: *authority, fee_basis_points, bump, app_name: name_data })
}

} // verus!
