//! Data model of the DAO governance subsystem: untrusted payload shapes as
//! operators submit them off-ledger, and the bounded records that the
//! storage layer accepts, with their well-formedness conditions.

use vstd::prelude::*;

verus! {

/// The ledger balance type: a 128-bit unsigned amount.
pub type Balance = u128;

/// Metadata of a governance token, as submitted by an operator.
#[derive(Clone, Debug, PartialEq, Eq)]
pub struct DaoTokenMetadata {
    /// Human-readable token name.
    pub name: Vec<u8>,
    /// Ticker symbol.
    pub symbol: Vec<u8>,
    /// Number of decimal places of the token's smallest unit.
    pub decimals: u8,
}

/// A request to mint a new governance token for a DAO.
#[derive(Clone, Debug, PartialEq, Eq)]
pub struct DaoGovernanceToken {
    /// Identifier the new token should be registered under.
    pub token_id: u32,
    /// Token metadata.
    pub metadata: DaoTokenMetadata,
    /// Minimum balance an account must hold; parsed from a decimal string
    /// upstream, so a malformed string rejects the whole payload there.
    pub min_balance: Balance,
}

/// The policy part of a DAO-creation payload.
#[derive(Clone, Copy, Debug, PartialEq, Eq, Structural)]
pub struct DaoPolicyPayload {
    /// Fraction numerator of a proposal's value to be bonded.
    pub proposal_bond: u32,
    /// Minimum deposit for making a proposal.
    pub proposal_bond_min: Balance,
    /// Proposal lifetime in milliseconds; must be positive.
    pub proposal_period: u32,
}

/// An untrusted DAO-creation payload with unbounded fields. Ephemeral:
/// consumed exactly once by the conversion step.
#[derive(Clone, Debug, PartialEq, Eq)]
pub struct DaoPayload {
    /// Requested DAO name.
    pub name: Vec<u8>,
    /// Requested DAO purpose.
    pub purpose: Vec<u8>,
    /// Free-form additional data.
    pub metadata: Vec<u8>,
    /// A new governance token to mint, if any.
    pub token: Option<DaoGovernanceToken>,
    /// An existing token to reuse, if any; meaningful only when `token` is
    /// absent.
    pub token_id: Option<u32>,
    /// Governance policy parameters.
    pub policy: DaoPolicyPayload,
}

/// The governance token choice of a validated payload: either mint a new
/// token or reuse an existing one. Replaces the two independently optional
/// payload fields, so the "neither" state cannot be stored.
#[derive(Clone, Debug, PartialEq, Eq)]
pub enum DaoToken {
    /// Mint the described token.
    NewToken(DaoGovernanceToken),
    /// Reuse the token already registered under this identifier.
    ExistingToken(u32),
}

/// The bounded DAO configuration: the only shape the storage layer accepts.
/// Constructed only through validation, never by truncation.
#[derive(Clone, Debug, PartialEq, Eq)]
pub struct DaoConfig {
    /// Name of the DAO.
    pub name: Vec<u8>,
    /// Purpose of this DAO.
    pub purpose: Vec<u8>,
    /// Generic metadata. Can be used to store additional data.
    pub metadata: Vec<u8>,
}

impl DaoConfig {
    /// Every field's length is within its declared maximum: `max_text` for
    /// name and purpose, `max_meta` for metadata.
    pub open spec fn wf(self, max_text: nat, max_meta: nat) -> bool {
        &&& self.name@.len() <= max_text
        &&& self.purpose@.len() <= max_text
        &&& self.metadata@.len() <= max_meta
    }
}

/// An origin threshold expressed as the ratio `numerator / denominator`: a
/// motion passes the origin check when at least that fraction of the
/// council backs it. The denominator must be non-zero.
#[derive(Clone, Copy, Debug, PartialEq, Eq, Structural)]
pub struct OriginRatio {
    /// Count of backing members required, per `denominator` members.
    pub numerator: u32,
    /// Size of the reference group; must be non-zero.
    pub denominator: u32,
}

/// The bounded governance policy of a DAO.
#[derive(Clone, Debug, PartialEq, Eq)]
pub struct DaoPolicy<AccountId> {
    /// Fraction of a proposal's value that should be bonded in order to
    /// place the proposal. An accepted proposal gets these back; a rejected
    /// proposal does not.
    pub proposal_bond: u32,
    /// Minimum amount of funds that should be placed in a deposit for
    /// making a proposal.
    pub proposal_bond_min: Balance,
    /// Maximum amount of funds that should be placed in a deposit for
    /// making a proposal; at least `proposal_bond_min` when present.
    pub proposal_bond_max: Option<Balance>,
    /// Proposal lifetime in milliseconds.
    pub proposal_period: u32,
    /// The account whose vote breaks ties.
    pub prime_account: AccountId,
    /// Ratio of council approvals required to accept a motion.
    pub approve_origin: OriginRatio,
    /// Ratio of council rejections required to dismiss a motion.
    pub reject_origin: OriginRatio,
}

impl<AccountId> DaoPolicy<AccountId> {
    /// The policy is semantically consistent: positive period, bond maximum
    /// at least the minimum when present, non-zero origin denominators.
    pub open spec fn wf(self) -> bool {
        &&& self.proposal_period > 0
        &&& match self.proposal_bond_max {
            Some(m) => m >= self.proposal_bond_min,
            None => true,
        }
        &&& self.approve_origin.denominator > 0
        &&& self.reject_origin.denominator > 0
    }
}

/// The top-level DAO record binding an owning account, a token identifier,
/// and a bounded configuration.
#[derive(Clone, Debug, PartialEq, Eq)]
pub struct Dao<AccountId, TokenId> {
    /// The account that created the DAO.
    pub founder: AccountId,
    /// The DAO's own derived account; stable for the DAO's lifetime and in
    /// general distinct from the founder.
    pub account_id: AccountId,
    /// The governance token this DAO is bound to.
    pub token_id: TokenId,
    /// The validated configuration.
    pub config: DaoConfig,
}

/// Which bounded field of a payload was over its maximum.
#[derive(Clone, Copy, Debug, PartialEq, Eq, Structural)]
pub enum DaoField {
    /// The DAO name.
    Name,
    /// The DAO purpose.
    Purpose,
    /// The free-form metadata.
    Metadata,
}

/// Why an untrusted payload was rejected by validation.
#[derive(Clone, Copy, Debug, PartialEq, Eq, Structural)]
pub enum ValidationError {
    /// The named field exceeds its declared maximum length.
    TooLong(DaoField),
    /// Neither a new token nor an existing token identifier was supplied.
    MissingToken,
    /// The policy is semantically inconsistent: zero proposal period, or a
    /// bond maximum below the bond minimum, or a zero origin denominator.
    InvalidPolicy,
}

} // verus!
