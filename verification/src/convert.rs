//! The trust boundary conversion: turning an untrusted `DaoPayload` into the
//! bounded `DaoConfig`, `DaoToken` and `DaoPolicy` records that the storage
//! layer accepts. Oversized or inconsistent input is rejected, never
//! truncated; the conversion is pure, so a failure leaves no partial state.

use vstd::prelude::*;
use crate::types::{
    DaoConfig, DaoField, DaoGovernanceToken, DaoPayload, DaoPolicy, DaoPolicyPayload, DaoToken,
    OriginRatio, ValidationError,
};

verus! {

/// Default origin ratio numerator: together with the denominator, a simple
/// majority (more than half of the council) both approves and rejects.
pub const DEFAULT_ORIGIN_NUMERATOR: u32 = 1;

/// Default origin ratio denominator.
pub const DEFAULT_ORIGIN_DENOMINATOR: u32 = 2;

/// The configuration fields of a payload are within the declared maxima:
/// `max_text` for name and purpose, `max_meta` for metadata.
pub open spec fn config_fields_within(
    name: Seq<u8>,
    purpose: Seq<u8>,
    metadata: Seq<u8>,
    max_text: nat,
    max_meta: nat,
) -> bool {
    name.len() <= max_text && purpose.len() <= max_text && metadata.len() <= max_meta
}

/// The payload names a governance token, either to mint or to reuse.
pub open spec fn has_token(token: Option<DaoGovernanceToken>, token_id: Option<u32>) -> bool {
    token is Some || token_id is Some
}

/// The whole payload passes validation against the maxima `max_text` and
/// `max_meta`.
pub open spec fn payload_ok(p: DaoPayload, max_text: nat, max_meta: nat) -> bool {
    &&& config_fields_within(p.name@, p.purpose@, p.metadata@, max_text, max_meta)
    &&& has_token(p.token, p.token_id)
    &&& p.policy.proposal_period > 0
}

impl DaoConfig {
    /// Builds a bounded configuration from raw payload fields, rejecting
    /// the first field (in the order name, purpose, metadata) that exceeds
    /// its maximum. Accepted fields are carried over exactly as given.
    pub fn new(
        name: Vec<u8>,
        purpose: Vec<u8>,
        metadata: Vec<u8>,
        max_text: u32,
        max_meta: u32,
    ) -> (r: Result<DaoConfig, ValidationError>)
        ensures
            r is Ok <==> config_fields_within(
                name@,
                purpose@,
                metadata@,
                max_text as nat,
                max_meta as nat,
            ),
            r matches Ok(c) ==> c.name@ == name@ && c.purpose@ == purpose@ && c.metadata@
                == metadata@ && c.wf(max_text as nat, max_meta as nat),
            r == Err::<DaoConfig, ValidationError>(ValidationError::TooLong(DaoField::Name))
                <==> name@.len() > max_text,
            r == Err::<DaoConfig, ValidationError>(ValidationError::TooLong(DaoField::Purpose))
                <==> name@.len() <= max_text && purpose@.len() > max_text,
            r == Err::<DaoConfig, ValidationError>(ValidationError::TooLong(DaoField::Metadata))
                <==> name@.len() <= max_text && purpose@.len() <= max_text && metadata@.len()
                > max_meta,
    {
        if name.len() > max_text as usize {
            return Err(ValidationError::TooLong(DaoField::Name));
        }
        if purpose.len() > max_text as usize {
            return Err(ValidationError::TooLong(DaoField::Purpose));
        }
        if metadata.len() > max_meta as usize {
            return Err(ValidationError::TooLong(DaoField::Metadata));
        }
        Ok(DaoConfig { name, purpose, metadata })
    }
}

impl DaoToken {
    /// Resolves the two optional token fields of a payload into the token
    /// choice. A new token to mint takes precedence over an identifier to
    /// reuse; supplying neither is rejected.
    pub fn from_options(token: Option<DaoGovernanceToken>, token_id: Option<u32>) -> (r: Result<
        DaoToken,
        ValidationError,
    >)
        ensures
            r is Ok <==> has_token(token, token_id),
            token matches Some(t) ==> r == Ok::<DaoToken, ValidationError>(DaoToken::NewToken(t)),
            token is None ==> (token_id matches Some(id) ==> r == Ok::<DaoToken, ValidationError>(
                DaoToken::ExistingToken(id),
            )),
            token is None && token_id is None <==> r == Err::<DaoToken, ValidationError>(
                ValidationError::MissingToken,
            ),
    {
        match token {
            Some(t) => Ok(DaoToken::NewToken(t)),
            None => match token_id {
                Some(id) => Ok(DaoToken::ExistingToken(id)),
                None => Err(ValidationError::MissingToken),
            },
        }
    }
}

impl<AccountId> DaoPolicy<AccountId> {
    /// Builds a policy from fully specified fields, rejecting a zero
    /// proposal period, a bond maximum below the minimum, and a zero
    /// origin denominator. Accepted fields are carried over exactly.
    pub fn new(
        proposal_bond: u32,
        proposal_bond_min: u128,
        proposal_bond_max: Option<u128>,
        proposal_period: u32,
        prime_account: AccountId,
        approve_origin: OriginRatio,
        reject_origin: OriginRatio,
    ) -> (r: Result<DaoPolicy<AccountId>, ValidationError>)
        ensures
            r is Ok <==> proposal_period > 0 && (match proposal_bond_max {
                Some(m) => m >= proposal_bond_min,
                None => true,
            }) && approve_origin.denominator > 0 && reject_origin.denominator > 0,
            r matches Ok(pol) ==> pol == (DaoPolicy {
                proposal_bond,
                proposal_bond_min,
                proposal_bond_max,
                proposal_period,
                prime_account,
                approve_origin,
                reject_origin,
            }) && pol.wf(),
            r is Err ==> r == Err::<DaoPolicy<AccountId>, ValidationError>(
                ValidationError::InvalidPolicy,
            ),
    {
        if proposal_period == 0 {
            return Err(ValidationError::InvalidPolicy);
        }
        if let Some(m) = proposal_bond_max {
            if m < proposal_bond_min {
                return Err(ValidationError::InvalidPolicy);
            }
        }
        if approve_origin.denominator == 0 || reject_origin.denominator == 0 {
            return Err(ValidationError::InvalidPolicy);
        }
        Ok(
            DaoPolicy {
                proposal_bond,
                proposal_bond_min,
                proposal_bond_max,
                proposal_period,
                prime_account,
                approve_origin,
                reject_origin,
            },
        )
    }

    /// Builds a policy from the policy part of a payload: no bond maximum,
    /// and the default majority origin ratios. Rejects a zero proposal
    /// period.
    pub fn from_payload(p: DaoPolicyPayload, prime_account: AccountId) -> (r: Result<
        DaoPolicy<AccountId>,
        ValidationError,
    >)
        ensures
            r is Ok <==> p.proposal_period > 0,
            r matches Ok(pol) ==> pol == spec_policy_of(p, prime_account) && pol.wf(),
            r is Err ==> r == Err::<DaoPolicy<AccountId>, ValidationError>(
                ValidationError::InvalidPolicy,
            ),
    {
        DaoPolicy::new(
            p.proposal_bond,
            p.proposal_bond_min,
            None,
            p.proposal_period,
            prime_account,
            OriginRatio {
                numerator: DEFAULT_ORIGIN_NUMERATOR,
                denominator: DEFAULT_ORIGIN_DENOMINATOR,
            },
            OriginRatio {
                numerator: DEFAULT_ORIGIN_NUMERATOR,
                denominator: DEFAULT_ORIGIN_DENOMINATOR,
            },
        )
    }
}

/// The policy a valid payload converts to: payload fields carried over
/// exactly, no bond maximum, default majority origins.
pub open spec fn spec_policy_of<AccountId>(
    p: DaoPolicyPayload,
    prime_account: AccountId,
) -> DaoPolicy<AccountId> {
    DaoPolicy {
        proposal_bond: p.proposal_bond,
        proposal_bond_min: p.proposal_bond_min,
        proposal_bond_max: None,
        proposal_period: p.proposal_period,
        prime_account,
        approve_origin: OriginRatio {
            numerator: DEFAULT_ORIGIN_NUMERATOR,
            denominator: DEFAULT_ORIGIN_DENOMINATOR,
        },
        reject_origin: OriginRatio {
            numerator: DEFAULT_ORIGIN_NUMERATOR,
            denominator: DEFAULT_ORIGIN_DENOMINATOR,
        },
    }
}

/// Converts an untrusted payload into the storable configuration, token
/// choice and policy, atomically: either every part passes validation and
/// all three records are returned with the payload's fields carried over
/// exactly, or the first violation (in the order name, purpose, metadata,
/// token, policy) is reported and nothing is constructed.
pub fn convert_payload<AccountId>(p: DaoPayload, max_text: u32, max_meta: u32, prime_account: AccountId) -> (r:
    Result<(DaoConfig, DaoToken, DaoPolicy<AccountId>), ValidationError>)
    ensures
        r is Ok <==> payload_ok(p, max_text as nat, max_meta as nat),
        r matches Ok((c, t, pol)) ==> {
            &&& c.name@ == p.name@
            &&& c.purpose@ == p.purpose@
            &&& c.metadata@ == p.metadata@
            &&& c.wf(max_text as nat, max_meta as nat)
            &&& (p.token matches Some(tok) ==> t == DaoToken::NewToken(tok))
            &&& (p.token is None ==> (p.token_id matches Some(id) ==> t
                == DaoToken::ExistingToken(id)))
            &&& pol == spec_policy_of(p.policy, prime_account)
            &&& pol.wf()
        },
        r == Err::<(DaoConfig, DaoToken, DaoPolicy<AccountId>), ValidationError>(
            ValidationError::TooLong(DaoField::Name),
        ) <==> p.name@.len() > max_text,
        r == Err::<(DaoConfig, DaoToken, DaoPolicy<AccountId>), ValidationError>(
            ValidationError::TooLong(DaoField::Purpose),
        ) <==> p.name@.len() <= max_text && p.purpose@.len() > max_text,
        r == Err::<(DaoConfig, DaoToken, DaoPolicy<AccountId>), ValidationError>(
            ValidationError::TooLong(DaoField::Metadata),
        ) <==> p.name@.len() <= max_text && p.purpose@.len() <= max_text && p.metadata@.len()
            > max_meta,
        r == Err::<(DaoConfig, DaoToken, DaoPolicy<AccountId>), ValidationError>(
            ValidationError::MissingToken,
        ) <==> config_fields_within(p.name@, p.purpose@, p.metadata@, max_text as nat, max_meta as nat)
            && !has_token(p.token, p.token_id),
        r == Err::<(DaoConfig, DaoToken, DaoPolicy<AccountId>), ValidationError>(
            ValidationError::InvalidPolicy,
        ) <==> config_fields_within(p.name@, p.purpose@, p.metadata@, max_text as nat, max_meta as nat)
            && has_token(p.token, p.token_id) && p.policy.proposal_period == 0,
{
    let DaoPayload { name, purpose, metadata, token, token_id, policy } = p;
    let config = match DaoConfig::new(name, purpose, metadata, max_text, max_meta) {
        Ok(c) => c,
        Err(e) => {
            return Err(e);
        },
    };
    let token_choice = match DaoToken::from_options(token, token_id) {
        Ok(t) => t,
        Err(e) => {
            return Err(e);
        },
    };
    let pol = match DaoPolicy::from_payload(policy, prime_account) {
        Ok(pol) => pol,
        Err(e) => {
            return Err(e);
        },
    };
    Ok((config, token_choice, pol))
}

} // verus!
