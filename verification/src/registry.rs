//! The method registry: the fixed name-to-handler table that the external
//! dispatcher consumes, and the uniform dispatch over it.

use vstd::prelude::*;
use vstd::string::StringExecFns;

use crate::errors::RpcError;
use crate::handlers::QueryAction;
use crate::handlers::account_call_spec;
use crate::handlers::accounts;
use crate::handlers::call;
use crate::handlers::get_balance;
use crate::handlers::get_code;
use crate::handlers::get_storage_at;
use crate::handlers::sign;
use crate::handlers::storage_call_spec;

verus! {

/// The six methods this core serves, one tag per handler.
#[derive(Clone, Copy, Debug, PartialEq, Eq, Structural)]
pub enum HandlerKind {
    GetBalance,
    GetStorageAt,
    GetCode,
    Sign,
    Call,
    Accounts,
}

/// Builds the registry: exactly the six supported method names, in a fixed
/// order, each paired with its handler's tag. Pure data, built once.
pub fn get_method_list() -> (r: Vec<(String, HandlerKind)>)
    ensures
        r@.len() == 6,
        r@[0].0@ == "eth_getBalance"@ && r@[0].1 == HandlerKind::GetBalance,
        r@[1].0@ == "eth_getStorageAt"@ && r@[1].1 == HandlerKind::GetStorageAt,
        r@[2].0@ == "eth_getCode"@ && r@[2].1 == HandlerKind::GetCode,
        r@[3].0@ == "eth_sign"@ && r@[3].1 == HandlerKind::Sign,
        r@[4].0@ == "eth_call"@ && r@[4].1 == HandlerKind::Call,
        r@[5].0@ == "eth_accounts"@ && r@[5].1 == HandlerKind::Accounts,
{
    let mut methods: Vec<(String, HandlerKind)> = Vec::new();
    methods.push((String::from_str("eth_getBalance"), HandlerKind::GetBalance));
    methods.push((String::from_str("eth_getStorageAt"), HandlerKind::GetStorageAt));
    methods.push((String::from_str("eth_getCode"), HandlerKind::GetCode));
    methods.push((String::from_str("eth_sign"), HandlerKind::Sign));
    methods.push((String::from_str("eth_call"), HandlerKind::Call));
    methods.push((String::from_str("eth_accounts"), HandlerKind::Accounts));
    methods
}

/// Runs the decision stage of the method `kind` names: the three account
/// queries validate and produce their query, the three deliberate stubs
/// fail with the capability-gap error.
pub fn dispatch(kind: HandlerKind, params: Vec<Option<String>>) -> (r: Result<
    QueryAction,
    RpcError,
>)
    ensures
        kind == HandlerKind::GetBalance ==> account_call_spec(params@, r),
        kind == HandlerKind::GetCode ==> account_call_spec(params@, r),
        kind == HandlerKind::GetStorageAt ==> storage_call_spec(params@, r),
        (kind == HandlerKind::Sign || kind == HandlerKind::Call || kind == HandlerKind::Accounts)
            ==> (r matches Err(e) && e is NotImplemented),
{
    match kind {
        HandlerKind::GetBalance => get_balance(params),
        HandlerKind::GetStorageAt => get_storage_at(params),
        HandlerKind::GetCode => get_code(params),
        HandlerKind::Sign => sign(params),
        HandlerKind::Call => call(params),
        HandlerKind::Accounts => accounts(params),
    }
}

} // verus!
