//! Fixed-length and format rules for account addresses and storage
//! positions, as the wire format prescribes them.
//!
//! Both validators check the string length only — never the hex alphabet —
//! and on success hand back the input with its two-character `0x` marker
//! stripped. The leniency is deliberate: a wrong-alphabet string of the
//! right length passes here and fails later inside the ledger.

use vstd::prelude::*;
use vstd::string::StrSliceExecFns;
use vstd::string::StringExecFns;

use crate::codec::dec_str;
use crate::codec::push_dec_str;
use crate::errors::RpcError;
use crate::errors::is_invalid_params;

verus! {

/// An account address is acceptable exactly when it is forty-two
/// characters long: the two-character marker plus forty hex digits
/// (twenty bytes).
pub open spec fn account_address_ok(s: Seq<char>) -> bool {
    s.len() == 42
}

/// The message a wrong-length address is rejected with.
pub open spec fn address_length_msg(len: nat) -> Seq<char> {
    "Invalid address length: "@ + dec_str(len) + " != 42"@
}

/// A storage position is acceptable exactly when it is at least four
/// characters long (the marker plus one whole byte) and of even length.
pub open spec fn storage_position_ok(s: Seq<char>) -> bool {
    s.len() >= 4 && s.len() % 2 == 0
}

/// The message a malformed storage position is rejected with: it carries
/// the offending position itself.
pub open spec fn storage_position_msg(s: Seq<char>) -> Seq<char> {
    "Invalid storage position: "@ + s
}

/// Checks the fixed length of an account address and strips its marker.
///
/// Exactly the forty-two-character inputs pass, and what comes back is the
/// input's forty-character suffix, otherwise untouched.
pub fn validate_account_address(address: String) -> (r: Result<String, RpcError>)
    ensures
        account_address_ok(address@) ==> (r matches Ok(s) && s@ == address@.subrange(2, 42)),
        !account_address_ok(address@) ==> is_invalid_params(
            r,
            address_length_msg(address@.len()),
        ),
{
    let n = address.as_str().unicode_len();
    if n != 42 {
        let mut msg = String::from_str("Invalid address length: ");
        push_dec_str(n as u64, &mut msg);
        msg.append(" != 42");
        proof {
            assert(msg@ =~= address_length_msg(address@.len()));
        }
        Err(RpcError::InvalidParams(msg))
    } else {
        let suffix = address.as_str().substring_char(2, 42);
        Ok(String::from_str(suffix))
    }
}

/// Checks the minimum length and evenness of a storage position and strips
/// its marker.
///
/// Exactly the even-length inputs of at least four characters pass; only
/// evenness of the whole string is required, nothing further about what
/// follows the marker.
pub fn validate_storage_address(position: String) -> (r: Result<String, RpcError>)
    ensures
        storage_position_ok(position@) ==> (r matches Ok(s) && s@ == position@.subrange(
            2,
            position@.len() as int,
        )),
        !storage_position_ok(position@) ==> is_invalid_params(
            r,
            storage_position_msg(position@),
        ),
{
    let n = position.as_str().unicode_len();
    if n < 4 || n % 2 != 0 {
        let mut msg = String::from_str("Invalid storage position: ");
        msg.append(position.as_str());
        proof {
            assert(msg@ =~= storage_position_msg(position@));
        }
        Err(RpcError::InvalidParams(msg))
    } else {
        let suffix = position.as_str().substring_char(2, n);
        Ok(String::from_str(suffix))
    }
}

} // verus!
