//! The per-operation logic of the debug bridge.
//!
//! Every operation of the administrative surface splits into at most two
//! pure steps, both verified here: a request builder that fixes the exact
//! outbound message, and an outcome mapper that turns the backend call's
//! result — the typed response, or the transport failure — into the inbound
//! protocol's response or error shape. The transport call between the two
//! steps is the caller's concern; the mappers therefore state what holds of
//! every outcome the transport can hand back, and each bridge response is a
//! function of that one outcome alone, so calls never interfere.

use crate::sort::{same_per_nonce, sort_by_nonce, sorted_by_nonce};
use crate::types::{
    Address, BridgeError, BundlingMode, ReputationEntry, ResponseSuccess, StakeInfoResponse,
    TxHash, UserOperation, DEFAULT_BUNDLE_INTERVAL, INTERNAL_ERROR_CODE,
};
use crate::wire::{
    GetAllReputationRequest, GetAllReputationResponse, GetAllRequest, GetAllResponse,
    GetStakeInfoRequest, GetStakeInfoResponse, SendBundleNowResponse, SetModeRequest,
    SetReputationRequest, SetReputationResponse, TransportError, SET_REPUTATION_DONE,
};
use vstd::prelude::*;
use vstd::string::StringExecFns;

verus! {

/// The fixed diagnostic for a reputation write the backend refused.
pub open spec fn spec_set_reputation_failed_message() -> Seq<char> {
    "Error setting reputation"@
}

/// The fatal diagnostic for a bundle submission acknowledged without the
/// guaranteed transaction hash.
pub open spec fn spec_missing_bundle_hash_message() -> Seq<char> {
    "Must return send bundle tx data"@
}

/// The fatal diagnostic for a stake query acknowledged without the
/// guaranteed stake snapshot.
pub open spec fn spec_missing_stake_info_message() -> Seq<char> {
    "Must return stake info"@
}

/// `e` is the inbound protocol's generic internal error carrying `msg`.
pub open spec fn is_internal_error(e: BridgeError, msg: Seq<char>) -> bool {
    &&& e matches BridgeError::Internal { code, message }
    &&& code == INTERNAL_ERROR_CODE
    &&& message@ == msg
}

/// `e` is the fatal protocol-contract-violation error carrying `msg`.
pub open spec fn is_contract_violation(e: BridgeError, msg: Seq<char>) -> bool {
    &&& e matches BridgeError::ContractViolation { message }
    &&& message@ == msg
}

/// Builds the generic internal error of the inbound protocol.
fn internal_error(message: String) -> (e: BridgeError)
    ensures
        is_internal_error(e, message@),
{
    BridgeError::Internal { code: INTERNAL_ERROR_CODE, message }
}

/// Maps the outcome of the backend's mempool-clearing call: success becomes
/// the success sentinel, a transport failure the internal error carrying
/// the backend's message.
pub fn clear_mempool_response(outcome: Result<(), TransportError>) -> (r: Result<
    ResponseSuccess,
    BridgeError,
>)
    ensures
        r is Ok <==> outcome is Ok,
        r is Ok ==> r->Ok_0 == ResponseSuccess::Success,
        outcome matches Err(t) ==> is_internal_error(r->Err_0, t.message@),
{
    match outcome {
        Ok(()) => Ok(ResponseSuccess::Success),
        Err(t) => Err(internal_error(t.message)),
    }
}

/// Maps the outcome of the backend's reputation-clearing call, exactly as
/// [`clear_mempool_response`] does for the mempool.
pub fn clear_reputation_response(outcome: Result<(), TransportError>) -> (r: Result<
    ResponseSuccess,
    BridgeError,
>)
    ensures
        r is Ok <==> outcome is Ok,
        r is Ok ==> r->Ok_0 == ResponseSuccess::Success,
        outcome matches Err(t) ==> is_internal_error(r->Err_0, t.message@),
{
    match outcome {
        Ok(()) => Ok(ResponseSuccess::Success),
        Err(t) => Err(internal_error(t.message)),
    }
}

/// Maps the outcome of the backend's combined clearing call. Mempool and
/// reputation are discarded by one backend call, never by two, so a failure
/// cannot leave one cleared and the other not.
pub fn clear_state_response(outcome: Result<(), TransportError>) -> (r: Result<
    ResponseSuccess,
    BridgeError,
>)
    ensures
        r is Ok <==> outcome is Ok,
        r is Ok ==> r->Ok_0 == ResponseSuccess::Success,
        outcome matches Err(t) ==> is_internal_error(r->Err_0, t.message@),
{
    match outcome {
        Ok(()) => Ok(ResponseSuccess::Success),
        Err(t) => Err(internal_error(t.message)),
    }
}

/// Builds the outbound listing request for one entry point.
pub fn dump_mempool_request(ep: Address) -> (req: GetAllRequest)
    ensures
        req.ep == Some(ep),
{
    GetAllRequest { ep: Some(ep) }
}

/// Maps the outcome of the mempool listing: the backend's operations are
/// re-sorted non-decreasing by nonce — the backend's order is unspecified,
/// so the bridge always imposes this order itself — keeping backend order
/// among equal nonces; a transport failure becomes the internal error.
pub fn dump_mempool_response(outcome: Result<GetAllResponse, TransportError>) -> (r: Result<
    Vec<UserOperation>,
    BridgeError,
>)
    ensures
        r is Ok <==> outcome is Ok,
        outcome matches Ok(resp) ==> {
            &&& sorted_by_nonce(r->Ok_0@)
            &&& same_per_nonce(resp.uos@, r->Ok_0@)
            &&& r->Ok_0@.to_multiset() == resp.uos@.to_multiset()
            &&& r->Ok_0@.len() == resp.uos@.len()
        },
        outcome matches Err(t) ==> is_internal_error(r->Err_0, t.message@),
{
    match outcome {
        Ok(resp) => Ok(sort_by_nonce(resp.uos)),
        Err(t) => Err(internal_error(t.message)),
    }
}

/// Builds the outbound reputation write for the given entries, verbatim and
/// in the caller's order, scoped to the entry point.
pub fn set_reputation_request(entries: Vec<ReputationEntry>, ep: Address) -> (req:
    SetReputationRequest)
    ensures
        req.rep@ == entries@,
        req.ep == Some(ep),
{
    SetReputationRequest { rep: entries, ep: Some(ep) }
}

/// Maps the backend's discriminated answer to a reputation write: only the
/// designated success code becomes the success sentinel; every other code,
/// recognized or not, becomes one fixed generic internal error, and a
/// transport failure carries the backend's message instead.
pub fn set_reputation_response(outcome: Result<SetReputationResponse, TransportError>) -> (r:
    Result<ResponseSuccess, BridgeError>)
    ensures
        r is Ok <==> (outcome matches Ok(resp) && resp.res == SET_REPUTATION_DONE),
        r is Ok ==> r->Ok_0 == ResponseSuccess::Success,
        (outcome matches Ok(resp) && resp.res != SET_REPUTATION_DONE) ==> is_internal_error(
            r->Err_0,
            spec_set_reputation_failed_message(),
        ),
        outcome matches Err(t) ==> is_internal_error(r->Err_0, t.message@),
{
    match outcome {
        Ok(resp) => {
            if resp.res == SET_REPUTATION_DONE {
                Ok(ResponseSuccess::Success)
            } else {
                Err(internal_error(String::from_str("Error setting reputation")))
            }
        },
        Err(t) => Err(internal_error(t.message)),
    }
}

/// Builds the outbound reputation listing request for one entry point.
pub fn dump_reputation_request(ep: Address) -> (req: GetAllReputationRequest)
    ensures
        req.ep == Some(ep),
{
    GetAllReputationRequest { ep: Some(ep) }
}

/// Maps the outcome of the reputation listing: the backend's entries are
/// returned exactly as received — in backend order, with no re-sorting; the
/// asymmetry with [`dump_mempool_response`] is deliberate and kept.
pub fn dump_reputation_response(outcome: Result<GetAllReputationResponse, TransportError>) -> (r:
    Result<Vec<ReputationEntry>, BridgeError>)
    ensures
        r is Ok <==> outcome is Ok,
        outcome matches Ok(resp) ==> r->Ok_0@ == resp.rep@,
        outcome matches Err(t) ==> is_internal_error(r->Err_0, t.message@),
{
    match outcome {
        Ok(resp) => Ok(resp.rep),
        Err(t) => Err(internal_error(t.message)),
    }
}

/// Builds the outbound mode switch: the caller's mode is forwarded verbatim
/// and the bridge's fixed default interval is attached, whatever the mode;
/// callers cannot override the interval through this surface.
pub fn set_bundling_mode_request(mode: BundlingMode) -> (req: SetModeRequest)
    ensures
        req.mode == mode,
        req.interval == DEFAULT_BUNDLE_INTERVAL,
{
    SetModeRequest { mode, interval: DEFAULT_BUNDLE_INTERVAL }
}

/// Maps the outcome of the mode switch, exactly as the clearing calls are
/// mapped.
pub fn set_bundling_mode_response(outcome: Result<(), TransportError>) -> (r: Result<
    ResponseSuccess,
    BridgeError,
>)
    ensures
        r is Ok <==> outcome is Ok,
        r is Ok ==> r->Ok_0 == ResponseSuccess::Success,
        outcome matches Err(t) ==> is_internal_error(r->Err_0, t.message@),
{
    match outcome {
        Ok(()) => Ok(ResponseSuccess::Success),
        Err(t) => Err(internal_error(t.message)),
    }
}

/// Maps the outcome of an immediate bundle submission. The wire contract
/// guarantees a populated hash on success: an acknowledgement without one
/// is a backend defect and becomes the fatal contract-violation error —
/// never a fabricated placeholder hash.
pub fn send_bundle_now_response(outcome: Result<SendBundleNowResponse, TransportError>) -> (r:
    Result<TxHash, BridgeError>)
    ensures
        r is Ok <==> (outcome matches Ok(resp) && resp.res is Some),
        outcome matches Ok(resp) ==> resp.res matches Some(h) ==> r->Ok_0 == h,
        (outcome matches Ok(resp) && resp.res is None) ==> is_contract_violation(
            r->Err_0,
            spec_missing_bundle_hash_message(),
        ),
        outcome matches Err(t) ==> is_internal_error(r->Err_0, t.message@),
{
    match outcome {
        Ok(resp) => match resp.res {
            Some(h) => Ok(h),
            None => Err(
                BridgeError::ContractViolation {
                    message: String::from_str("Must return send bundle tx data"),
                },
            ),
        },
        Err(t) => Err(internal_error(t.message)),
    }
}

/// Builds the outbound stake query for one entity at one entry point.
pub fn get_stake_status_request(addr: Address, ep: Address) -> (req: GetStakeInfoRequest)
    ensures
        req.addr == Some(addr),
        req.ep == Some(ep),
{
    GetStakeInfoRequest { addr: Some(addr), ep: Some(ep) }
}

/// Maps the outcome of the stake query: the nested snapshot is reshaped
/// into the inbound answer, field for field. An acknowledgement without the
/// guaranteed snapshot is a backend defect and becomes the fatal
/// contract-violation error, never a defaulted snapshot.
pub fn get_stake_status_response(outcome: Result<GetStakeInfoResponse, TransportError>) -> (r:
    Result<StakeInfoResponse, BridgeError>)
    ensures
        r is Ok <==> (outcome matches Ok(resp) && resp.info is Some),
        outcome matches Ok(resp) ==> resp.info matches Some(info) ==> {
            &&& r->Ok_0.stake_info == info
            &&& r->Ok_0.is_staked == resp.is_staked
        },
        (outcome matches Ok(resp) && resp.info is None) ==> is_contract_violation(
            r->Err_0,
            spec_missing_stake_info_message(),
        ),
        outcome matches Err(t) ==> is_internal_error(r->Err_0, t.message@),
{
    match outcome {
        Ok(resp) => match resp.info {
            Some(info) => Ok(StakeInfoResponse { stake_info: info, is_staked: resp.is_staked }),
            None => Err(
                BridgeError::ContractViolation {
                    message: String::from_str("Must return stake info"),
                },
            ),
        },
        Err(t) => Err(internal_error(t.message)),
    }
}

} // verus!
