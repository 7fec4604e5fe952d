//! Models of the backend service's wire contract: the request and response
//! shapes of the two outbound service interfaces, and the transport-level
//! failure the outbound call itself can produce.
//!
//! Message fields that the wire contract marks optional are held as
//! `Option`: a request built by the bridge always populates them, while a
//! response may lawfully or unlawfully omit them, and the mappers in
//! [`crate::bridge`] decide which is which.
//!
//! On the wire, addresses, hashes and 256-bit numbers travel as fixed-width
//! byte arrays; converting those to and from the bridge's native shapes is
//! the generated transport stubs' concern, so the models here hold the
//! native types directly.

use vstd::prelude::*;

verus! {

/// The outbound call itself failed: connection failure or a backend-reported
/// transport status. Carries the backend's diagnostic message.
#[derive(Clone, PartialEq, Eq, Debug)]
pub struct TransportError {
    /// The backend's or transport's own description of the failure.
    pub message: String,
}

/// Request to list every pending operation under one entry point.
#[derive(Clone, PartialEq, Eq, Debug)]
pub struct GetAllRequest {
    /// The entry point to list under.
    pub ep: Option<crate::types::Address>,
}

/// The backend's answer to [`GetAllRequest`]: pending operations in an
/// order of the backend's choosing.
#[derive(Clone, PartialEq, Eq, Debug)]
pub struct GetAllResponse {
    /// The pending operations, in unspecified backend order.
    pub uos: Vec<crate::types::UserOperation>,
}

/// Request to list every reputation entry under one entry point.
#[derive(Clone, PartialEq, Eq, Debug)]
pub struct GetAllReputationRequest {
    /// The entry point to list under.
    pub ep: Option<crate::types::Address>,
}

/// The backend's answer to [`GetAllReputationRequest`].
#[derive(Clone, PartialEq, Eq, Debug)]
pub struct GetAllReputationResponse {
    /// The reputation entries, in backend order.
    pub rep: Vec<crate::types::ReputationEntry>,
}

/// Request to overwrite reputation entries under one entry point.
#[derive(Clone, PartialEq, Eq, Debug)]
pub struct SetReputationRequest {
    /// The entries to install.
    pub rep: Vec<crate::types::ReputationEntry>,
    /// The entry point they are scoped to.
    pub ep: Option<crate::types::Address>,
}

/// The wire code the backend answers a reputation write with when the
/// entries were installed; every other code is a logical failure.
pub const SET_REPUTATION_DONE: i32 = 0;

/// The backend's discriminated answer to [`SetReputationRequest`].
#[derive(Clone, Copy, PartialEq, Eq, Structural, Debug)]
pub struct SetReputationResponse {
    /// The backend's result code; [`SET_REPUTATION_DONE`] means success.
    pub res: i32,
}

/// Request to switch the bundling scheduler's mode.
#[derive(Clone, Copy, PartialEq, Eq, Structural, Debug)]
pub struct SetModeRequest {
    /// The mode the caller asked for, forwarded verbatim.
    pub mode: crate::types::BundlingMode,
    /// The bundling interval, in seconds, attached by the bridge.
    pub interval: u64,
}

/// The backend's answer to an immediate bundle submission.
#[derive(Clone, Copy, PartialEq, Eq, Debug)]
pub struct SendBundleNowResponse {
    /// Hash of the submitted bundle; the wire contract guarantees it is
    /// present on success, so its absence is a contract violation.
    pub res: Option<crate::types::TxHash>,
}

/// Request for an entity's stake snapshot at an entry point.
#[derive(Clone, Copy, PartialEq, Eq, Debug)]
pub struct GetStakeInfoRequest {
    /// The entity asked about.
    pub addr: Option<crate::types::Address>,
    /// The entry point the stake is scoped to.
    pub ep: Option<crate::types::Address>,
}

/// The backend's answer to [`GetStakeInfoRequest`].
#[derive(Clone, Copy, PartialEq, Eq, Debug)]
pub struct GetStakeInfoResponse {
    /// The stake snapshot; guaranteed present by the wire contract, so its
    /// absence is a contract violation.
    pub info: Option<crate::types::StakeInfo>,
    /// Whether the entity counts as staked.
    pub is_staked: bool,
}

} // verus!
