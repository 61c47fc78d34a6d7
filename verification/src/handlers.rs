//! The decision core of each RPC method.
//!
//! A method runs in two verified stages around the single unverifiable
//! step, the ledger query, which the surrounding program performs:
//!
//! 1. the handler itself (`get_balance`, `get_storage_at`, `get_code`,
//!    `sign`, `call`, `accounts`) turns the positional parameters into a
//!    typed [`QueryAction`] or rejects them — so a request that fails
//!    validation provably never produces a query;
//! 2. the matching `..._outcome` function turns whatever the ledger
//!    answered (a [`Lookup`]) into the wire value or error — so a ledger
//!    failure provably surfaces as nothing but the opaque internal error.

use vstd::prelude::*;
use vstd::string::StringExecFns;

use crate::block_key::BlockKey;
use crate::block_key::block_invalid;
use crate::block_key::block_key_matches;
use crate::block_key::block_parse_msg;
use crate::block_key::block_parse_ok;
use crate::block_key::block_unsupported;
use crate::block_key::validate_block_key;
use crate::codec::bytes_hex;
use crate::codec::bytes_to_hex_str;
use crate::codec::hex_prefix;
use crate::codec::num_to_hex;
use crate::codec::quantity_hex;
use crate::errors::RpcError;
use crate::errors::is_invalid_params;
use crate::validators::account_address_ok;
use crate::validators::address_length_msg;
use crate::validators::storage_position_msg;
use crate::validators::storage_position_ok;
use crate::validators::validate_account_address;
use crate::validators::validate_storage_address;

verus! {

/// What this core reads of a ledger account: its balance and its
/// contract code. The ledger owns everything else about it.
pub struct Account {
    pub balance: u64,
    pub code: Vec<u8>,
}

/// The answer the surrounding program obtained from the ledger client:
/// a value, a definite absence, or a client-level failure carrying the
/// backend's own message (which never reaches the caller).
pub enum Lookup<T> {
    Found(T),
    Missing,
    Failed(String),
}

/// A wire-format result value: the JSON null or a string.
pub enum WireValue {
    Null,
    Text(String),
}

/// The one ledger query a validated request asks for. Addresses and
/// positions are already normalized: marker stripped, length checked.
pub enum QueryAction {
    Account { address: String, block: BlockKey },
    Storage { address: String, position: String, block: BlockKey },
}

/// The first `n` positional parameters exist and are strings.
pub open spec fn string_params(ps: Seq<Option<String>>, n: int) -> bool {
    ps.len() == n && forall|i: int| 0 <= i < n ==> ps[i] is Some
}

/// The characters of positional parameter `i`.
pub open spec fn param(ps: Seq<Option<String>>, i: int) -> Seq<char> {
    match ps[i] {
        Some(s) => s@,
        None => Seq::empty(),
    }
}

/// The schema message of the two-parameter account methods.
pub open spec fn account_params_msg() -> Seq<char> {
    "Takes [address: DATA(20), block: QUANTITY|TAG]"@
}

/// The schema message of `eth_getStorageAt`.
pub open spec fn storage_params_msg() -> Seq<char> {
    "Takes [address: DATA(20), position: QUANTITY, block: QUANTITY|TAG]"@
}

/// The decision an account-query method owes for address and block
/// strings: block selector resolved first, then the address checked,
/// each failure surfaced verbatim, and on success the normalized query.
pub open spec fn account_query_decision(
    addr: Seq<char>,
    blk: Seq<char>,
    r: Result<QueryAction, RpcError>,
) -> bool {
    if block_unsupported(blk) {
        r matches Err(e) && e is NotImplemented
    } else if block_invalid(blk) {
        is_invalid_params(r, block_parse_msg())
    } else if !account_address_ok(addr) {
        is_invalid_params(r, address_length_msg(addr.len()))
    } else {
        &&& r matches Ok(QueryAction::Account { address, block })
        &&& address@ == addr.subrange(2, 42)
        &&& block_key_matches(blk, block)
        &&& block.wf()
    }
}

/// The decision `eth_getStorageAt` owes: block selector first, then the
/// address, then the position, and on success the normalized query.
pub open spec fn storage_query_decision(
    addr: Seq<char>,
    pos: Seq<char>,
    blk: Seq<char>,
    r: Result<QueryAction, RpcError>,
) -> bool {
    if block_unsupported(blk) {
        r matches Err(e) && e is NotImplemented
    } else if block_invalid(blk) {
        is_invalid_params(r, block_parse_msg())
    } else if !account_address_ok(addr) {
        is_invalid_params(r, address_length_msg(addr.len()))
    } else if !storage_position_ok(pos) {
        is_invalid_params(r, storage_position_msg(pos))
    } else {
        &&& r matches Ok(QueryAction::Storage { address, position, block })
        &&& address@ == addr.subrange(2, 42)
        &&& position@ == pos.subrange(2, pos.len() as int)
        &&& block_key_matches(blk, block)
        &&& block.wf()
    }
}

/// Everything `eth_getBalance` and `eth_getCode` decide about their
/// parameters, shape check included.
pub open spec fn account_call_spec(
    ps: Seq<Option<String>>,
    r: Result<QueryAction, RpcError>,
) -> bool {
    &&& !string_params(ps, 2) ==> is_invalid_params(r, account_params_msg())
    &&& string_params(ps, 2) ==> account_query_decision(param(ps, 0), param(ps, 1), r)
}

/// Everything `eth_getStorageAt` decides about its parameters.
pub open spec fn storage_call_spec(
    ps: Seq<Option<String>>,
    r: Result<QueryAction, RpcError>,
) -> bool {
    &&& !string_params(ps, 3) ==> is_invalid_params(r, storage_params_msg())
    &&& string_params(ps, 3) ==> storage_query_decision(
        param(ps, 0),
        param(ps, 1),
        param(ps, 2),
        r,
    )
}

/// Reads the two positional string parameters of an account method.
fn take_two_params(params: Vec<Option<String>>, msg: &'static str) -> (r: Result<
    (String, String),
    RpcError,
>)
    ensures
        !string_params(params@, 2) ==> (r matches Err(e) && e matches RpcError::InvalidParams(m)
            && m@ == msg@),
        string_params(params@, 2) ==> (r matches Ok(t) && t.0@ == param(params@, 0) && t.1@
            == param(params@, 1)),
{
    if params.len() != 2 {
        return Err(RpcError::InvalidParams(String::from_str(msg)));
    }
    let first = match &params[0] {
        Some(s) => s.clone(),
        None => {
            return Err(RpcError::InvalidParams(String::from_str(msg)));
        },
    };
    let second = match &params[1] {
        Some(s) => s.clone(),
        None => {
            return Err(RpcError::InvalidParams(String::from_str(msg)));
        },
    };
    Ok((first, second))
}

/// Reads the three positional string parameters of the storage method.
fn take_three_params(params: Vec<Option<String>>, msg: &'static str) -> (r: Result<
    (String, String, String),
    RpcError,
>)
    ensures
        !string_params(params@, 3) ==> (r matches Err(e) && e matches RpcError::InvalidParams(m)
            && m@ == msg@),
        string_params(params@, 3) ==> (r matches Ok(t) && t.0@ == param(params@, 0) && t.1@
            == param(params@, 1) && t.2@ == param(params@, 2)),
{
    if params.len() != 3 {
        return Err(RpcError::InvalidParams(String::from_str(msg)));
    }
    let first = match &params[0] {
        Some(s) => s.clone(),
        None => {
            return Err(RpcError::InvalidParams(String::from_str(msg)));
        },
    };
    let second = match &params[1] {
        Some(s) => s.clone(),
        None => {
            return Err(RpcError::InvalidParams(String::from_str(msg)));
        },
    };
    let third = match &params[2] {
        Some(s) => s.clone(),
        None => {
            return Err(RpcError::InvalidParams(String::from_str(msg)));
        },
    };
    Ok((first, second, third))
}

/// Shared decision stage of `eth_getBalance` and `eth_getCode`: both
/// validate the same way and ask for the same account query.
fn account_query(params: Vec<Option<String>>) -> (r: Result<QueryAction, RpcError>)
    ensures
        account_call_spec(params@, r),
{
    let (address, block) = match take_two_params(params, "Takes [address: DATA(20), block: QUANTITY|TAG]") {
        Ok(t) => t,
        Err(e) => {
            return Err(e);
        },
    };
    let key = match validate_block_key(block) {
        Ok(k) => k,
        Err(e) => {
            return Err(e);
        },
    };
    let address = match validate_account_address(address) {
        Ok(a) => a,
        Err(e) => {
            return Err(e);
        },
    };
    Ok(QueryAction::Account { address, block: key })
}

/// Decision stage of `eth_getBalance`: validates `[address, block]` and
/// asks for the account at the resolved key. The ledger is consulted only
/// when this returns a query.
pub fn get_balance(params: Vec<Option<String>>) -> (r: Result<QueryAction, RpcError>)
    ensures
        account_call_spec(params@, r),
{
    account_query(params)
}

/// Decision stage of `eth_getCode`: the same lookup as `eth_getBalance`;
/// only the encoding of the answer differs.
pub fn get_code(params: Vec<Option<String>>) -> (r: Result<QueryAction, RpcError>)
    ensures
        account_call_spec(params@, r),
{
    account_query(params)
}

/// Decision stage of `eth_getStorageAt`: validates
/// `[address, position, block]` and asks for the stored bytes.
pub fn get_storage_at(params: Vec<Option<String>>) -> (r: Result<QueryAction, RpcError>)
    ensures
        storage_call_spec(params@, r),
{
    let (address, position, block) = match take_three_params(
        params,
        "Takes [address: DATA(20), position: QUANTITY, block: QUANTITY|TAG]",
    ) {
        Ok(t) => t,
        Err(e) => {
            return Err(e);
        },
    };
    let key = match validate_block_key(block) {
        Ok(k) => k,
        Err(e) => {
            return Err(e);
        },
    };
    let account_address = match validate_account_address(address) {
        Ok(a) => a,
        Err(e) => {
            return Err(e);
        },
    };
    let storage_address = match validate_storage_address(position) {
        Ok(p) => p,
        Err(e) => {
            return Err(e);
        },
    };
    Ok(QueryAction::Storage { address: account_address, position: storage_address, block: key })
}

/// `eth_sign` is deliberately unimplemented: every call fails with the
/// capability-gap error before any ledger contact.
pub fn sign(_params: Vec<Option<String>>) -> (r: Result<QueryAction, RpcError>)
    ensures
        r matches Err(e) && e is NotImplemented,
{
    Err(RpcError::NotImplemented)
}

/// `eth_call` is deliberately unimplemented, like `eth_sign`.
pub fn call(_params: Vec<Option<String>>) -> (r: Result<QueryAction, RpcError>)
    ensures
        r matches Err(e) && e is NotImplemented,
{
    Err(RpcError::NotImplemented)
}

/// `eth_accounts` is deliberately unimplemented, like `eth_sign`.
pub fn accounts(_params: Vec<Option<String>>) -> (r: Result<QueryAction, RpcError>)
    ensures
        r matches Err(e) && e is NotImplemented,
{
    Err(RpcError::NotImplemented)
}

/// Encoding stage of `eth_getBalance`: a found account answers with its
/// balance as a wire quantity; a missing account answers with null, which
/// is a success; a client failure is replaced by the opaque internal
/// error whatever the backend said.
pub fn get_balance_outcome(lookup: Lookup<Account>) -> (r: Result<WireValue, RpcError>)
    ensures
        lookup matches Lookup::Found(a) ==> (r matches Ok(WireValue::Text(t)) && t@
            == quantity_hex(a.balance as nat)),
        lookup is Missing ==> (r matches Ok(v) && v is Null),
        failure_is_opaque(lookup, r),
{
    match lookup {
        Lookup::Found(account) => Ok(WireValue::Text(num_to_hex(account.balance))),
        Lookup::Missing => Ok(WireValue::Null),
        Lookup::Failed(_) => Err(RpcError::InternalError),
    }
}

/// Encoding stage of `eth_getCode`: a found account answers with its code
/// as prefixed hex data; otherwise as for `eth_getBalance`.
pub fn get_code_outcome(lookup: Lookup<Account>) -> (r: Result<WireValue, RpcError>)
    ensures
        lookup matches Lookup::Found(a) ==> (r matches Ok(WireValue::Text(t)) && t@ == seq![
            '0',
            'x',
        ] + bytes_hex(a.code@)),
        lookup is Missing ==> (r matches Ok(v) && v is Null),
        failure_is_opaque(lookup, r),
{
    match lookup {
        Lookup::Found(account) => {
            let hex = bytes_to_hex_str(&account.code);
            Ok(WireValue::Text(hex_prefix(hex.as_str())))
        },
        Lookup::Missing => Ok(WireValue::Null),
        Lookup::Failed(_) => Err(RpcError::InternalError),
    }
}

/// Encoding stage of `eth_getStorageAt`: found bytes answer as prefixed
/// hex data; otherwise as for `eth_getBalance`.
pub fn get_storage_at_outcome(lookup: Lookup<Vec<u8>>) -> (r: Result<WireValue, RpcError>)
    ensures
        lookup matches Lookup::Found(v) ==> (r matches Ok(WireValue::Text(t)) && t@ == seq![
            '0',
            'x',
        ] + bytes_hex(v@)),
        lookup is Missing ==> (r matches Ok(v) && v is Null),
        failure_is_opaque(lookup, r),
{
    match lookup {
        Lookup::Found(value) => {
            let hex = bytes_to_hex_str(&value);
            Ok(WireValue::Text(hex_prefix(hex.as_str())))
        },
        Lookup::Missing => Ok(WireValue::Null),
        Lookup::Failed(_) => Err(RpcError::InternalError),
    }
}

/// What every encoding stage owes of a failed lookup: the result is the
/// opaque internal error, with the backend's text dropped.
pub open spec fn failure_is_opaque<T>(lookup: Lookup<T>, r: Result<WireValue, RpcError>) -> bool {
    lookup matches Lookup::Failed(_) ==> r == Err::<WireValue, RpcError>(RpcError::InternalError)
}

/// However a ledger lookup fails, the caller sees one and the same answer:
/// two failed lookups, whatever their backend messages, give results that
/// cannot be told apart.
pub proof fn lemma_client_failure_opaque<T>(
    l1: Lookup<T>,
    l2: Lookup<T>,
    r1: Result<WireValue, RpcError>,
    r2: Result<WireValue, RpcError>,
)
    requires
        l1 is Failed,
        l2 is Failed,
        failure_is_opaque(l1, r1),
        failure_is_opaque(l2, r2),
    ensures
        r1 == r2,
{
}

} // verus!
