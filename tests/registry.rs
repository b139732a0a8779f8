use payment_vault::registry::{
    ban_expert, get_expert_status, initialize_registry, verify_expert, ExpertStatus,
    IdentityRegistryContract, RegistryError,
};
use payment_vault::Principal;

const ADMIN: Principal = Principal { id: 1 };
const EXPERT: Principal = Principal { id: 2 };
const EXPERT2: Principal = Principal { id: 3 };
const EXPERT3: Principal = Principal { id: 4 };
const STRANGER: Principal = Principal { id: 9 };

#[test]
fn test_test_initialization() {
    let mut reg = IdentityRegistryContract::new();
    let res = initialize_registry(&mut reg, ADMIN);
    assert!(res.is_ok());
    let res_duplicate = initialize_registry(&mut reg, ADMIN);
    assert!(res_duplicate.is_err());
}

#[test]
fn test_add_expert() {
    let mut reg = IdentityRegistryContract::new();
    initialize_registry(&mut reg, ADMIN).unwrap();
    assert_eq!(verify_expert(&mut reg, STRANGER, EXPERT), Err(RegistryError::NotAuthorized));
    let res = verify_expert(&mut reg, ADMIN, EXPERT);
    assert!(res.is_ok());
    assert_eq!(get_expert_status(&reg, EXPERT), ExpertStatus::Verified);
}

#[test]
#[should_panic]
fn test_add_expert_unauthorized() {
    let mut reg = IdentityRegistryContract::new();
    initialize_registry(&mut reg, ADMIN).unwrap();
    verify_expert(&mut reg, STRANGER, EXPERT).unwrap();
}

#[test]
fn test_ban_expert() {
    let mut reg = IdentityRegistryContract::new();
    initialize_registry(&mut reg, ADMIN).unwrap();
    verify_expert(&mut reg, ADMIN, EXPERT).unwrap();
    assert_eq!(get_expert_status(&reg, EXPERT), ExpertStatus::Verified);
    ban_expert(&mut reg, ADMIN, EXPERT).unwrap();
    assert_eq!(get_expert_status(&reg, EXPERT), ExpertStatus::Banned);
    let result = ban_expert(&mut reg, ADMIN, EXPERT);
    assert_eq!(result, Err(RegistryError::AlreadyBanned));
}

#[test]
#[should_panic]
fn test_ban_expert_unauthorized() {
    let mut reg = IdentityRegistryContract::new();
    initialize_registry(&mut reg, ADMIN).unwrap();
    verify_expert(&mut reg, ADMIN, EXPERT).unwrap();
    ban_expert(&mut reg, STRANGER, EXPERT).unwrap();
}

#[test]
fn test_ban_unverified_expert() {
    let mut reg = IdentityRegistryContract::new();
    initialize_registry(&mut reg, ADMIN).unwrap();
    assert_eq!(get_expert_status(&reg, EXPERT), ExpertStatus::Unverified);
    ban_expert(&mut reg, ADMIN, EXPERT).unwrap();
    assert_eq!(get_expert_status(&reg, EXPERT), ExpertStatus::Banned);
}

#[test]
fn test_ban_expert_workflow() {
    let mut reg = IdentityRegistryContract::new();
    initialize_registry(&mut reg, ADMIN).unwrap();
    verify_expert(&mut reg, ADMIN, EXPERT).unwrap();
    verify_expert(&mut reg, ADMIN, EXPERT2).unwrap();
    verify_expert(&mut reg, ADMIN, EXPERT3).unwrap();
    assert_eq!(get_expert_status(&reg, EXPERT), ExpertStatus::Verified);
    assert_eq!(get_expert_status(&reg, EXPERT2), ExpertStatus::Verified);
    assert_eq!(get_expert_status(&reg, EXPERT3), ExpertStatus::Verified);
    ban_expert(&mut reg, ADMIN, EXPERT2).unwrap();
    assert_eq!(get_expert_status(&reg, EXPERT), ExpertStatus::Verified);
    assert_eq!(get_expert_status(&reg, EXPERT2), ExpertStatus::Banned);
    assert_eq!(get_expert_status(&reg, EXPERT3), ExpertStatus::Verified);
    ban_expert(&mut reg, ADMIN, EXPERT).unwrap();
    assert_eq!(get_expert_status(&reg, EXPERT), ExpertStatus::Banned);
    assert_eq!(get_expert_status(&reg, EXPERT2), ExpertStatus::Banned);
    assert_eq!(get_expert_status(&reg, EXPERT3), ExpertStatus::Verified);
}

#[test]
fn test_ban_before_contract_initialized() {
    let mut reg = IdentityRegistryContract::new();
    let result = ban_expert(&mut reg, ADMIN, EXPERT);
    assert_eq!(result, Err(RegistryError::NotInitialized));
}

#[test]
fn test_complete_expert_lifecycle() {
    let mut reg = IdentityRegistryContract::new();
    initialize_registry(&mut reg, ADMIN).unwrap();
    assert_eq!(get_expert_status(&reg, EXPERT), ExpertStatus::Unverified);
    verify_expert(&mut reg, ADMIN, EXPERT).unwrap();
    assert_eq!(get_expert_status(&reg, EXPERT), ExpertStatus::Verified);
    ban_expert(&mut reg, ADMIN, EXPERT).unwrap();
    assert_eq!(get_expert_status(&reg, EXPERT), ExpertStatus::Banned);
}

#[test]
fn verify_twice_reports_already_verified() {
    let mut reg = IdentityRegistryContract::new();
    assert_eq!(verify_expert(&mut reg, ADMIN, EXPERT), Err(RegistryError::NotInitialized));
    initialize_registry(&mut reg, ADMIN).unwrap();
    verify_expert(&mut reg, ADMIN, EXPERT).unwrap();
    assert_eq!(verify_expert(&mut reg, ADMIN, EXPERT), Err(RegistryError::AlreadyVerified));
    assert_eq!(initialize_registry(&mut reg, STRANGER), Err(RegistryError::AlreadyInitialized));
}
