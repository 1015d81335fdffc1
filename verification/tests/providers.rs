use dao_primitives::provider::{CouncilRegistry, DaoRegistry};
use dao_primitives::types::{Dao, DaoConfig, DaoPolicy, OriginRatio};

fn sample_dao(n: u8) -> Dao<u64, u32> {
    Dao {
        founder: 1,
        account_id: 100 + n as u64,
        token_id: 7,
        config: DaoConfig {
            name: vec![n],
            purpose: Vec::new(),
            metadata: Vec::new(),
        },
    }
}

fn sample_policy() -> DaoPolicy<u64> {
    DaoPolicy {
        proposal_bond: 1,
        proposal_bond_min: 10,
        proposal_bond_max: None,
        proposal_period: 1000,
        prime_account: 1,
        approve_origin: OriginRatio { numerator: 1, denominator: 2 },
        reject_origin: OriginRatio { numerator: 1, denominator: 2 },
    }
}

#[test]
fn council_initialize_is_idempotent_on_replay() {
    let mut reg: CouncilRegistry<u64> = CouncilRegistry::new();
    reg.initialize_members(1, vec![10, 20, 30]);
    let after_once: Vec<u64> = reg.members_of(1).unwrap().clone();
    reg.initialize_members(1, vec![10, 20, 30]);
    let after_twice: Vec<u64> = reg.members_of(1).unwrap().clone();
    assert_eq!(after_once, after_twice);
}

#[test]
fn council_initialize_replaces_a_different_set() {
    let mut reg: CouncilRegistry<u64> = CouncilRegistry::new();
    reg.initialize_members(1, vec![10, 20]);
    reg.initialize_members(1, vec![30]);
    assert_eq!(reg.members_of(1).unwrap(), &vec![30]);
}

#[test]
fn council_initialize_leaves_other_daos_untouched() {
    let mut reg: CouncilRegistry<u64> = CouncilRegistry::new();
    reg.initialize_members(1, vec![10]);
    reg.initialize_members(2, vec![20]);
    assert_eq!(reg.members_of(1).unwrap(), &vec![10]);
    assert_eq!(reg.members_of(2).unwrap(), &vec![20]);
    assert!(reg.members_of(3).is_none());
}

#[test]
fn dao_registry_tracks_existence_policy_and_count() {
    let mut reg: DaoRegistry<u64, u32> = DaoRegistry::new();
    assert_eq!(reg.count(), 0);
    assert!(!reg.dao_exists(1));
    assert!(reg.register_dao(1, sample_dao(1), Some(sample_policy())));
    assert!(reg.register_dao(2, sample_dao(2), None));
    assert_eq!(reg.count(), 2);
    assert!(reg.dao_exists(1));
    assert!(reg.dao_exists(2));
    assert!(!reg.dao_exists(3));
    assert_eq!(reg.policy_of(1), Some(&sample_policy()));
    assert_eq!(reg.policy_of(2), None);
    assert_eq!(reg.policy_of(3), None);
    assert_eq!(reg.dao_of(1).unwrap().config.name, vec![1]);
}

#[test]
fn dao_registry_rejects_duplicate_id() {
    let mut reg: DaoRegistry<u64, u32> = DaoRegistry::new();
    assert!(reg.register_dao(1, sample_dao(1), None));
    assert!(!reg.register_dao(1, sample_dao(2), Some(sample_policy())));
    assert_eq!(reg.count(), 1);
    assert_eq!(reg.policy_of(1), None);
    assert_eq!(reg.dao_of(1).unwrap().config.name, vec![1]);
}
