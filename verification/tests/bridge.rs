use debug_bridge::bridge::{
    clear_mempool_response, clear_reputation_response, clear_state_response,
    dump_mempool_request, dump_mempool_response, dump_reputation_request,
    dump_reputation_response, get_stake_status_request, get_stake_status_response,
    send_bundle_now_response, set_bundling_mode_request, set_bundling_mode_response,
    set_reputation_request, set_reputation_response,
};
use debug_bridge::types::{
    Address, BridgeError, BundlingMode, ReputationEntry, ResponseSuccess, StakeInfo, TxHash,
    Uint256, UserOperation, DEFAULT_BUNDLE_INTERVAL, INTERNAL_ERROR_CODE,
};
use debug_bridge::wire::{
    GetAllReputationResponse, GetAllResponse, GetStakeInfoResponse, SendBundleNowResponse,
    SetReputationResponse, TransportError, SET_REPUTATION_DONE,
};

fn addr(b: u8) -> Address {
    Address { bytes: [b; 20] }
}

fn hash(b: u8) -> TxHash {
    TxHash { bytes: [b; 32] }
}

fn op(tag: u8, nonce: Uint256) -> UserOperation {
    UserOperation { hash: hash(tag), sender: addr(tag), nonce, payload: vec![tag] }
}

fn transport_failed(msg: &str) -> TransportError {
    TransportError { message: msg.to_string() }
}

fn nonces(ops: &[UserOperation]) -> Vec<(u128, u128)> {
    ops.iter().map(|o| (o.nonce.hi, o.nonce.lo)).collect()
}

fn internal(code: i32, msg: &str) -> BridgeError {
    BridgeError::Internal { code, message: msg.to_string() }
}

#[test]
fn uint256_le_within_low_limb() {
    assert!(Uint256::from_u64(1).le(&Uint256::from_u64(3)));
    assert!(Uint256::from_u64(3).le(&Uint256::from_u64(3)));
    assert!(!Uint256::from_u64(4).le(&Uint256::from_u64(3)));
}

#[test]
fn uint256_le_across_limbs() {
    let small_hi = Uint256 { hi: 1, lo: u128::MAX };
    let big_hi = Uint256 { hi: 2, lo: 0 };
    assert!(small_hi.le(&big_hi));
    assert!(!big_hi.le(&small_hi));
}

#[test]
fn uint256_le_at_largest_value() {
    let max = Uint256 { hi: u128::MAX, lo: u128::MAX };
    assert!(max.le(&max));
    assert!(Uint256::from_u64(u64::MAX).le(&max));
    assert!(!max.le(&Uint256::from_u64(u64::MAX)));
}

#[test]
fn dump_mempool_request_carries_entry_point() {
    let req = dump_mempool_request(addr(0xaa));
    assert_eq!(req.ep, Some(addr(0xaa)));
}

#[test]
fn dump_mempool_sorts_example_scenario() {
    // Backend hands back nonces [5, 1, 3]; the bridge must answer [1, 3, 5].
    let uos = vec![
        op(1, Uint256::from_u64(5)),
        op(2, Uint256::from_u64(1)),
        op(3, Uint256::from_u64(3)),
    ];
    let r = dump_mempool_response(Ok(GetAllResponse { uos })).unwrap();
    assert_eq!(nonces(&r), vec![(0, 1), (0, 3), (0, 5)]);
    assert_eq!(r[0].payload, vec![2]);
    assert_eq!(r[1].payload, vec![3]);
    assert_eq!(r[2].payload, vec![1]);
}

#[test]
fn dump_mempool_sort_is_stable_on_equal_nonces() {
    let n2 = Uint256::from_u64(2);
    let n7 = Uint256::from_u64(7);
    let uos = vec![op(10, n7), op(11, n2), op(12, n7), op(13, n2), op(14, n7)];
    let r = dump_mempool_response(Ok(GetAllResponse { uos })).unwrap();
    // Non-decreasing by nonce, and backend order kept among equal nonces.
    assert_eq!(nonces(&r), vec![(0, 2), (0, 2), (0, 7), (0, 7), (0, 7)]);
    let tags: Vec<u8> = r.iter().map(|o| o.payload[0]).collect();
    assert_eq!(tags, vec![11, 13, 10, 12, 14]);
}

#[test]
fn dump_mempool_sorts_across_high_limbs() {
    let a = Uint256 { hi: 3, lo: 0 };
    let b = Uint256 { hi: 0, lo: u128::MAX };
    let c = Uint256 { hi: 3, lo: 1 };
    let uos = vec![op(1, a), op(2, b), op(3, c)];
    let r = dump_mempool_response(Ok(GetAllResponse { uos })).unwrap();
    assert_eq!(nonces(&r), vec![(0, u128::MAX), (3, 0), (3, 1)]);
}

#[test]
fn dump_mempool_single_operation_is_returned_as_is() {
    let uos = vec![op(4, Uint256::from_u64(42))];
    let r = dump_mempool_response(Ok(GetAllResponse { uos: uos.clone() })).unwrap();
    assert_eq!(r, uos);
}

#[test]
fn dump_mempool_keeps_duplicate_operations() {
    let x = op(6, Uint256::from_u64(9));
    let uos = vec![x.clone(), op(5, Uint256::from_u64(1)), x.clone()];
    let r = dump_mempool_response(Ok(GetAllResponse { uos })).unwrap();
    assert_eq!(r, vec![op(5, Uint256::from_u64(1)), x.clone(), x]);
}

#[test]
fn dump_mempool_empty_backend_answer() {
    let r = dump_mempool_response(Ok(GetAllResponse { uos: vec![] })).unwrap();
    assert!(r.is_empty());
}

#[test]
fn dump_mempool_transport_error_carries_message() {
    let r = dump_mempool_response(Err(transport_failed("pool unreachable")));
    assert_eq!(r.unwrap_err(), internal(INTERNAL_ERROR_CODE, "pool unreachable"));
}

#[test]
fn dump_reputation_keeps_backend_order() {
    // Entries whose addresses and counters would sort differently: the
    // bridge must not touch the backend's order.
    let entries = vec![
        ReputationEntry { address: addr(9), uo_seen: 30, uo_included: 3, status: 1 },
        ReputationEntry { address: addr(1), uo_seen: 10, uo_included: 9, status: 0 },
        ReputationEntry { address: addr(5), uo_seen: 20, uo_included: 1, status: 2 },
    ];
    let r = dump_reputation_response(Ok(GetAllReputationResponse { rep: entries.clone() }))
        .unwrap();
    assert_eq!(r, entries);
}

#[test]
fn dump_reputation_request_carries_entry_point() {
    let req = dump_reputation_request(addr(0x07));
    assert_eq!(req.ep, Some(addr(0x07)));
}

#[test]
fn dump_reputation_transport_error_carries_message() {
    let r = dump_reputation_response(Err(transport_failed("no backend")));
    assert_eq!(r.unwrap_err(), internal(INTERNAL_ERROR_CODE, "no backend"));
}

#[test]
fn set_reputation_request_relays_entries_verbatim() {
    let entries = vec![
        ReputationEntry { address: addr(2), uo_seen: 4, uo_included: 2, status: 0 },
        ReputationEntry { address: addr(1), uo_seen: 8, uo_included: 7, status: 1 },
    ];
    let req = set_reputation_request(entries.clone(), addr(0x33));
    assert_eq!(req.rep, entries);
    assert_eq!(req.ep, Some(addr(0x33)));
}

#[test]
fn set_reputation_success_only_on_designated_code() {
    let r = set_reputation_response(Ok(SetReputationResponse { res: SET_REPUTATION_DONE }));
    assert_eq!(r.unwrap(), ResponseSuccess::Success);
}

#[test]
fn set_reputation_other_codes_become_fixed_internal_error() {
    // Any other code — recognized or future — yields the same generic error,
    // not the backend's own wording (e.g. a "not found" style code).
    for code in [1, 2, 17, -4, i32::MAX] {
        let r = set_reputation_response(Ok(SetReputationResponse { res: code }));
        assert_eq!(r.unwrap_err(), internal(INTERNAL_ERROR_CODE, "Error setting reputation"));
    }
}

#[test]
fn set_reputation_transport_error_keeps_backend_message() {
    let r = set_reputation_response(Err(transport_failed("deadline exceeded")));
    assert_eq!(r.unwrap_err(), internal(INTERNAL_ERROR_CODE, "deadline exceeded"));
}

#[test]
fn set_bundling_mode_always_attaches_default_interval() {
    let auto = set_bundling_mode_request(BundlingMode::Auto);
    assert_eq!(auto.mode, BundlingMode::Auto);
    assert_eq!(auto.interval, DEFAULT_BUNDLE_INTERVAL);
    let manual = set_bundling_mode_request(BundlingMode::Manual);
    assert_eq!(manual.mode, BundlingMode::Manual);
    assert_eq!(manual.interval, DEFAULT_BUNDLE_INTERVAL);
}

#[test]
fn set_bundling_mode_outcome_mapping() {
    assert_eq!(set_bundling_mode_response(Ok(())).unwrap(), ResponseSuccess::Success);
    let r = set_bundling_mode_response(Err(transport_failed("bundler gone")));
    assert_eq!(r.unwrap_err(), internal(INTERNAL_ERROR_CODE, "bundler gone"));
}

#[test]
fn clear_calls_map_acknowledgement_to_success() {
    assert_eq!(clear_mempool_response(Ok(())).unwrap(), ResponseSuccess::Success);
    assert_eq!(clear_reputation_response(Ok(())).unwrap(), ResponseSuccess::Success);
    assert_eq!(clear_state_response(Ok(())).unwrap(), ResponseSuccess::Success);
}

#[test]
fn clear_calls_map_transport_failure_to_internal_error() {
    let e = clear_mempool_response(Err(transport_failed("a"))).unwrap_err();
    assert_eq!(e, internal(INTERNAL_ERROR_CODE, "a"));
    let e = clear_reputation_response(Err(transport_failed("b"))).unwrap_err();
    assert_eq!(e, internal(INTERNAL_ERROR_CODE, "b"));
    let e = clear_state_response(Err(transport_failed("c"))).unwrap_err();
    assert_eq!(e, internal(INTERNAL_ERROR_CODE, "c"));
}

#[test]
fn send_bundle_now_returns_populated_hash() {
    let r = send_bundle_now_response(Ok(SendBundleNowResponse { res: Some(hash(0x5e)) }));
    assert_eq!(r.unwrap(), hash(0x5e));
}

#[test]
fn send_bundle_now_missing_hash_is_fatal_contract_violation() {
    let r = send_bundle_now_response(Ok(SendBundleNowResponse { res: None }));
    let e = r.unwrap_err();
    assert_eq!(
        e,
        BridgeError::ContractViolation {
            message: "Must return send bundle tx data".to_string()
        }
    );
    // Fatal kind, not the recoverable internal error.
    assert!(matches!(e, BridgeError::ContractViolation { .. }));
}

#[test]
fn send_bundle_now_transport_error_is_not_fatal() {
    let e = send_bundle_now_response(Err(transport_failed("tx refused"))).unwrap_err();
    assert_eq!(e, internal(INTERNAL_ERROR_CODE, "tx refused"));
}

#[test]
fn get_stake_status_request_carries_both_addresses() {
    let req = get_stake_status_request(addr(0x11), addr(0x22));
    assert_eq!(req.addr, Some(addr(0x11)));
    assert_eq!(req.ep, Some(addr(0x22)));
}

#[test]
fn get_stake_status_reshapes_populated_snapshot() {
    let info = StakeInfo {
        address: addr(0x11),
        stake: Uint256::from_u64(1_000_000),
        unstake_delay: Uint256::from_u64(86_400),
    };
    let r = get_stake_status_response(Ok(GetStakeInfoResponse {
        info: Some(info),
        is_staked: true,
    }))
    .unwrap();
    assert_eq!(r.stake_info, info);
    assert!(r.is_staked);
}

#[test]
fn get_stake_status_missing_snapshot_is_fatal_contract_violation() {
    let r = get_stake_status_response(Ok(GetStakeInfoResponse { info: None, is_staked: true }));
    assert_eq!(
        r.unwrap_err(),
        BridgeError::ContractViolation { message: "Must return stake info".to_string() }
    );
}

#[test]
fn get_stake_status_transport_error_carries_message() {
    let e = get_stake_status_response(Err(transport_failed("lookup failed"))).unwrap_err();
    assert_eq!(e, internal(INTERNAL_ERROR_CODE, "lookup failed"));
}
