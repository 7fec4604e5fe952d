//! Native value types of the bridge: addresses, hashes, 256-bit integers,
//! pending operations, reputation entries, stake information, bundling
//! modes, and the bridge's structured error taxonomy.

use vstd::prelude::*;

verus! {

/// Base of one 128-bit limb: `2^128`.
pub open spec fn limb_base() -> int {
    0x100000000000000000000000000000000int
}

/// An unsigned 256-bit integer, held as two 128-bit limbs.
///
/// Nonces, staked amounts and unstake delays travel through the bridge in
/// this shape; the bridge itself only ever compares such values.
#[derive(Clone, Copy, PartialEq, Eq, Structural, Debug)]
pub struct Uint256 {
    /// Most significant 128 bits.
    pub hi: u128,
    /// Least significant 128 bits.
    pub lo: u128,
}

impl Uint256 {
    /// The mathematical value of the two limbs.
    pub open spec fn value(self) -> int {
        self.hi as int * limb_base() + self.lo as int
    }

    /// Builds the value `n`.
    pub fn from_u64(n: u64) -> (r: Uint256)
        ensures
            r.value() == n as int,
    {
        Uint256 { hi: 0, lo: n as u128 }
    }

    /// `self <= other` on the 256-bit values.
    pub fn le(&self, other: &Uint256) -> (r: bool)
        ensures
            r == (self.value() <= other.value()),
    {
        proof {
            lemma_uint256_order(*self, *other);
        }
        if self.hi < other.hi {
            true
        } else if self.hi == other.hi {
            self.lo <= other.lo
        } else {
            false
        }
    }
}

/// Limb-wise comparison agrees with comparison of the mathematical values.
pub proof fn lemma_uint256_order(a: Uint256, b: Uint256)
    ensures
        (a.value() <= b.value()) <==> (a.hi < b.hi || (a.hi == b.hi && a.lo <= b.lo)),
{
    assert((a.lo as int) < limb_base());
    assert((b.lo as int) < limb_base());
}

/// Equal mathematical values have equal limbs: the representation is unique.
pub proof fn lemma_uint256_value_injective(a: Uint256, b: Uint256)
    requires
        a.value() == b.value(),
    ensures
        a == b,
{
    lemma_uint256_order(a, b);
    lemma_uint256_order(b, a);
}

/// A 20-byte account address, the bridge's native address shape.
///
/// Every value of this type is a syntactically valid address; semantic
/// validity of an entry point is the backend's concern.
#[derive(Clone, Copy, PartialEq, Eq, Debug)]
pub struct Address {
    /// The raw address bytes.
    pub bytes: [u8; 20],
}

/// A 32-byte hash, the bridge's native transaction-hash shape.
#[derive(Clone, Copy, PartialEq, Eq, Debug)]
pub struct TxHash {
    /// The raw hash bytes.
    pub bytes: [u8; 32],
}

/// A queued operation awaiting inclusion, as reported by the backend.
///
/// The bridge reads only the nonce (to sort); everything else is relayed
/// untouched.
#[derive(Clone, PartialEq, Eq, Debug)]
pub struct UserOperation {
    /// Unique identifier of the operation.
    pub hash: TxHash,
    /// The account that submitted the operation.
    pub sender: Address,
    /// The sender's sequence number for this operation.
    pub nonce: Uint256,
    /// Opaque operation-specific payload, relayed verbatim.
    pub payload: Vec<u8>,
}

/// A per-address trust record, scoped to an entry point.
#[derive(Clone, Copy, PartialEq, Eq, Debug)]
pub struct ReputationEntry {
    /// The participant the record is about.
    pub address: Address,
    /// How many operations of this participant were seen.
    pub uo_seen: u64,
    /// How many operations of this participant were included.
    pub uo_included: u64,
    /// Throttling status assigned by the backend.
    pub status: u64,
}

/// A snapshot of an entity's stake at an entry point.
#[derive(Clone, Copy, PartialEq, Eq, Debug)]
pub struct StakeInfo {
    /// The staked entity.
    pub address: Address,
    /// The staked amount.
    pub stake: Uint256,
    /// The delay before the stake can be withdrawn, in seconds.
    pub unstake_delay: Uint256,
}

/// The inbound protocol's answer to a stake-status query.
#[derive(Clone, Copy, PartialEq, Eq, Debug)]
pub struct StakeInfoResponse {
    /// The stake snapshot itself.
    pub stake_info: StakeInfo,
    /// Whether the entity counts as staked.
    pub is_staked: bool,
}

/// The operating mode of the backend's bundling scheduler.
#[derive(Clone, Copy, PartialEq, Eq, Structural, Debug)]
pub enum BundlingMode {
    /// Bundles are sent automatically on a timer.
    Auto,
    /// Bundles are sent only on explicit request.
    Manual,
}

/// The success sentinel returned by the mutating debug operations.
#[derive(Clone, Copy, PartialEq, Eq, Structural, Debug)]
pub enum ResponseSuccess {
    /// The operation was carried out.
    Success,
}

/// The inbound protocol's error code for a generic internal error.
pub const INTERNAL_ERROR_CODE: i32 = -32603;

/// The fixed bundling interval, in seconds, attached to every outbound
/// set-mode request; callers cannot override it through this surface.
pub const DEFAULT_BUNDLE_INTERVAL: u64 = 10;

/// A caller-visible failure of a bridge operation.
#[derive(Clone, PartialEq, Eq, Debug)]
pub enum BridgeError {
    /// The outbound call failed at the transport level, or completed but
    /// signalled a logical failure in its payload. Carries the inbound
    /// protocol's error code and a diagnostic message.
    Internal {
        /// The inbound protocol's error code.
        code: i32,
        /// Diagnostic message, carried forward from the backend where the
        /// transport supplied one.
        message: String,
    },
    /// The backend acknowledged the call but omitted a payload its contract
    /// guarantees: a non-recoverable defect that must abort the call path
    /// loudly instead of degrading into a fabricated value.
    ContractViolation {
        /// Diagnostic naming the missing payload.
        message: String,
    },
}

} // verus!
