use std::str::FromStr;
use zaps::role::{AuthenticatedUser, Role};

#[test]
fn test_role_from_str() {
    assert_eq!(Role::from_str("admin").unwrap(), Role::Admin);
    assert_eq!(Role::from_str("Admin").unwrap(), Role::Admin);
    assert_eq!(Role::from_str("ADMIN").unwrap(), Role::Admin);
    assert_eq!(Role::from_str("merchant").unwrap(), Role::Merchant);
    assert_eq!(Role::from_str("Merchant").unwrap(), Role::Merchant);
    assert_eq!(Role::from_str("user").unwrap(), Role::User);
    assert_eq!(Role::from_str("unknown").unwrap(), Role::User);
    assert_eq!(Role::from_str("").unwrap(), Role::User);
}

#[test]
fn test_role_as_str() {
    assert_eq!(Role::Admin.as_str(), "admin");
    assert_eq!(Role::Merchant.as_str(), "merchant");
    assert_eq!(Role::User.as_str(), "user");
}

#[test]
fn test_role_display() {
    assert_eq!(Role::Admin.to_string(), "admin");
    assert_eq!(Role::Merchant.to_string(), "merchant");
    assert_eq!(Role::User.to_string(), "user");
}

#[test]
fn test_role_default() {
    assert_eq!(Role::default(), Role::User);
}

#[test]
fn test_admin_has_all_permissions() {
    assert!(Role::Admin.has_permission(&Role::Admin));
    assert!(Role::Admin.has_permission(&Role::Merchant));
    assert!(Role::Admin.has_permission(&Role::User));
}

#[test]
fn test_merchant_permissions() {
    assert!(!Role::Merchant.has_permission(&Role::Admin));
    assert!(Role::Merchant.has_permission(&Role::Merchant));
    assert!(Role::Merchant.has_permission(&Role::User));
}

#[test]
fn test_user_permissions() {
    assert!(!Role::User.has_permission(&Role::Admin));
    assert!(!Role::User.has_permission(&Role::Merchant));
    assert!(Role::User.has_permission(&Role::User));
}

#[test]
fn test_role_equality() {
    assert_eq!(Role::Admin, Role::Admin);
    assert_eq!(Role::Merchant, Role::Merchant);
    assert_eq!(Role::User, Role::User);
    assert_ne!(Role::Admin, Role::Merchant);
    assert_ne!(Role::Merchant, Role::User);
    assert_ne!(Role::Admin, Role::User);
}

#[test]
fn test_role_clone() {
    let admin = Role::Admin;
    let cloned = admin;
    assert_eq!(admin, cloned);
}

#[test]
fn test_authenticated_user_creation() {
    let user = AuthenticatedUser { user_id: "user123".to_string(), role: Role::Admin };
    assert_eq!(user.user_id, "user123");
    assert_eq!(user.role, Role::Admin);
}

#[test]
fn test_authenticated_user_clone() {
    let user = AuthenticatedUser { user_id: "user123".to_string(), role: Role::Merchant };
    let cloned = user.clone();
    assert_eq!(user.user_id, cloned.user_id);
    assert_eq!(user.role, cloned.role);
}
