use dao_primitives::convert::{convert_payload, DEFAULT_ORIGIN_DENOMINATOR, DEFAULT_ORIGIN_NUMERATOR};
use dao_primitives::types::{
    DaoConfig, DaoField, DaoGovernanceToken, DaoPayload, DaoPolicy, DaoPolicyPayload,
    DaoToken, DaoTokenMetadata, OriginRatio, ValidationError,
};

fn acme_payload() -> DaoPayload {
    DaoPayload {
        name: b"Acme".to_vec(),
        purpose: b"Build".to_vec(),
        metadata: Vec::new(),
        token: None,
        token_id: Some(7),
        policy: DaoPolicyPayload {
            proposal_bond: 100,
            proposal_bond_min: 1000,
            proposal_period: 86_400_000,
        },
    }
}

#[test]
fn valid_payload_converts_exactly() {
    let (config, token, policy) = convert_payload(acme_payload(), 64, 256, b"prime".to_vec()).unwrap();
    assert_eq!(config.name, b"Acme".to_vec());
    assert_eq!(config.purpose, b"Build".to_vec());
    assert_eq!(config.metadata, Vec::<u8>::new());
    assert_eq!(token, DaoToken::ExistingToken(7));
    assert_eq!(policy.proposal_bond, 100);
    assert_eq!(policy.proposal_bond_min, 1000);
    assert_eq!(policy.proposal_bond_max, None);
    assert_eq!(policy.proposal_period, 86_400_000);
    assert_eq!(policy.prime_account, b"prime".to_vec());
    assert_eq!(
        policy.approve_origin,
        OriginRatio {
            numerator: DEFAULT_ORIGIN_NUMERATOR,
            denominator: DEFAULT_ORIGIN_DENOMINATOR
        }
    );
}

#[test]
fn oversized_name_is_rejected_not_truncated() {
    let mut p = acme_payload();
    p.name = vec![b'x'; 100];
    let r = convert_payload(p, 64, 256, 0u64);
    assert_eq!(r, Err(ValidationError::TooLong(DaoField::Name)));
}

#[test]
fn name_at_exact_maximum_is_accepted() {
    let mut p = acme_payload();
    p.name = vec![b'x'; 64];
    assert!(convert_payload(p, 64, 256, 0u64).is_ok());
}

#[test]
fn oversized_purpose_and_metadata_are_rejected() {
    let mut p = acme_payload();
    p.purpose = vec![b'y'; 65];
    assert_eq!(
        convert_payload(p, 64, 256, 0u64),
        Err(ValidationError::TooLong(DaoField::Purpose))
    );
    let mut p = acme_payload();
    p.metadata = vec![b'z'; 257];
    assert_eq!(
        convert_payload(p, 64, 256, 0u64),
        Err(ValidationError::TooLong(DaoField::Metadata))
    );
}

#[test]
fn missing_token_is_rejected() {
    let mut p = acme_payload();
    p.token = None;
    p.token_id = None;
    assert_eq!(
        convert_payload(p, 64, 256, 0u64),
        Err(ValidationError::MissingToken)
    );
}

#[test]
fn new_token_takes_precedence() {
    let token = DaoGovernanceToken {
        token_id: 9,
        metadata: DaoTokenMetadata {
            name: b"Acme Token".to_vec(),
            symbol: b"ACM".to_vec(),
            decimals: 12,
        },
        min_balance: 500,
    };
    let mut p = acme_payload();
    p.token = Some(token.clone());
    let (_, choice, _) = convert_payload(p, 64, 256, 0u64).unwrap();
    assert_eq!(choice, DaoToken::NewToken(token));
}

#[test]
fn zero_proposal_period_is_rejected() {
    let mut p = acme_payload();
    p.policy.proposal_period = 0;
    assert_eq!(
        convert_payload(p, 64, 256, 0u64),
        Err(ValidationError::InvalidPolicy)
    );
}

#[test]
fn field_errors_win_over_token_and_policy_errors() {
    let mut p = acme_payload();
    p.name = vec![b'x'; 100];
    p.token_id = None;
    p.policy.proposal_period = 0;
    assert_eq!(
        convert_payload(p, 64, 256, 0u64),
        Err(ValidationError::TooLong(DaoField::Name))
    );
}

#[test]
fn policy_new_rejects_bond_max_below_min() {
    let r = DaoPolicy::new(
        1,
        1000,
        Some(999),
        60_000,
        0u64,
        OriginRatio { numerator: 1, denominator: 2 },
        OriginRatio { numerator: 1, denominator: 2 },
    );
    assert_eq!(r, Err(ValidationError::InvalidPolicy));
}

#[test]
fn policy_new_accepts_bond_max_at_least_min() {
    let pol = DaoPolicy::new(
        1,
        1000,
        Some(1000),
        60_000,
        0u64,
        OriginRatio { numerator: 1, denominator: 2 },
        OriginRatio { numerator: 1, denominator: 2 },
    )
    .unwrap();
    assert_eq!(pol.proposal_bond_max, Some(1000));
}

#[test]
fn policy_new_rejects_zero_origin_denominator() {
    let r = DaoPolicy::new(
        1,
        0,
        None,
        60_000,
        0u64,
        OriginRatio { numerator: 1, denominator: 0 },
        OriginRatio { numerator: 1, denominator: 2 },
    );
    assert_eq!(r, Err(ValidationError::InvalidPolicy));
}

#[test]
fn config_new_checks_each_bound() {
    let r = DaoConfig::new(b"n".to_vec(), b"p".to_vec(), b"m".to_vec(), 1, 1);
    assert!(r.is_ok());
    let r = DaoConfig::new(b"nn".to_vec(), b"p".to_vec(), b"m".to_vec(), 1, 1);
    assert_eq!(r, Err(ValidationError::TooLong(DaoField::Name)));
}
