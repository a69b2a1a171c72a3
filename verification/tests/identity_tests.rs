use zaps::chain::{Address, Fault};
use zaps::identity::{Error, IdentityEvent, UserIdentityContract};

fn signed(who: Address) -> Vec<Address> {
    vec![who]
}

fn s(text: &str) -> String {
    text.to_string()
}

#[test]
fn test_register_user_success() {
    let mut client = UserIdentityContract::new();
    let user_addr = Address(11);
    let role = s("admin");
    client
        .register(&signed(user_addr), user_addr, s("admin_user"), role.clone(), s("https://example.com/admin"))
        .unwrap();

    assert!(client.is_registered(user_addr));
    let user = client.get_user(user_addr).unwrap();
    assert_eq!(user.address, user_addr);
    assert_eq!(user.role, role);
}

#[test]
fn test_test_register_duplicate_user() {
    let mut client = UserIdentityContract::new();
    let user_addr = Address(12);
    client
        .register(&signed(user_addr), user_addr, s("test_user"), s("user"), s("https://example.com/user"))
        .unwrap();
    let result = client.register(&signed(user_addr), user_addr, s("test_user"), s("user"), s("https://example.com/user"));
    assert_eq!(result.err(), Some(Fault::Contract(Error::AlreadyRegistered)));
}

#[test]
fn test_get_user_not_found() {
    let client = UserIdentityContract::new();
    let result = client.get_user(Address(13));
    assert_eq!(result.err(), Some(Error::UserNotFound));
}

#[test]
fn test_is_registered_false() {
    let client = UserIdentityContract::new();
    assert!(!client.is_registered(Address(14)));
}

#[test]
fn test_multiple_users_with_different_roles() {
    let mut client = UserIdentityContract::new();
    let admin_addr = Address(21);
    let moderator_addr = Address(22);
    let user_addr = Address(23);
    let admin_role = s("admin");
    let moderator_role = s("moderator");
    let user_role = s("user");

    client
        .register(&signed(admin_addr), admin_addr, s("admin_user"), admin_role.clone(), s("https://example.com/admin"))
        .unwrap();
    client
        .register(&signed(moderator_addr), moderator_addr, s("mod_user"), moderator_role.clone(), s("https://example.com/mod"))
        .unwrap();
    client
        .register(&signed(user_addr), user_addr, s("regular_user"), user_role.clone(), s("https://example.com/user"))
        .unwrap();

    assert!(client.is_registered(admin_addr));
    assert!(client.is_registered(moderator_addr));
    assert!(client.is_registered(user_addr));

    assert_eq!(client.get_user(admin_addr).unwrap().role, admin_role);
    assert_eq!(client.get_user(moderator_addr).unwrap().role, moderator_role);
    assert_eq!(client.get_user(user_addr).unwrap().role, user_role);
}

#[test]
fn test_register_requires_auth() {
    let mut client = UserIdentityContract::new();
    let user_addr = Address(31);

    let refused = client.register(&vec![], user_addr, s("test_user"), s("user"), s("https://example.com/user"));
    assert_eq!(refused.err(), Some(Fault::MissingAuth(user_addr)));
    assert!(!client.is_registered(user_addr));

    let events = client
        .register(&signed(user_addr), user_addr, s("test_user"), s("user"), s("https://example.com/user"))
        .unwrap();
    assert_eq!(events.len(), 1);
    match &events[0] {
        IdentityEvent::Registered { address, username } => {
            assert_eq!(*address, user_addr);
            assert_eq!(username, "test_user");
        }
        other => panic!("unexpected event {:?}", other),
    }
}

#[test]
fn test_register_with_empty_role() {
    let mut client = UserIdentityContract::new();
    let user_addr = Address(41);
    let empty_role = s("");
    client
        .register(&signed(user_addr), user_addr, s("empty_role_user"), empty_role.clone(), s("https://example.com/user"))
        .unwrap();
    assert_eq!(client.get_user(user_addr).unwrap().role, empty_role);
}

#[test]
fn test_register_with_long_role_name() {
    let mut client = UserIdentityContract::new();
    let user_addr = Address(42);
    let long_role = s("super_administrator_with_full_permissions");
    client
        .register(&signed(user_addr), user_addr, s("long_role_user"), long_role.clone(), s("https://example.com/admin"))
        .unwrap();
    assert_eq!(client.get_user(user_addr).unwrap().role, long_role);
}

#[test]
fn username_taken_by_another_address_is_refused() {
    let mut client = UserIdentityContract::new();
    let first = Address(51);
    let second = Address(52);
    client.register(&signed(first), first, s("shared"), s("user"), s("uri")).unwrap();
    let result = client.register(&signed(second), second, s("shared"), s("user"), s("uri"));
    assert_eq!(result.err(), Some(Fault::Contract(Error::AlreadyRegistered)));
    assert!(!client.is_registered(second));
    assert_eq!(client.get_address_by_username(s("shared")).unwrap(), first);
    assert!(client.is_username_taken(s("shared")));
    assert!(!client.is_username_taken(s("other")));
}

#[test]
fn profile_and_reputation_updates() {
    let mut client = UserIdentityContract::new();
    let who = Address(61);
    client.register(&signed(who), who, s("alice"), s("user"), s("old")).unwrap();
    client.update_profile(&signed(who), who, s("new")).unwrap();
    client.update_reputation(&signed(who), who, 42).unwrap();
    let user = client.get_user(who).unwrap();
    assert_eq!(user.profile_uri, "new");
    assert_eq!(user.reputation_score, 42);
    assert_eq!(user.username, "alice");

    let missing = client.update_profile(&signed(Address(62)), Address(62), s("x"));
    assert_eq!(missing.err(), Some(Fault::Contract(Error::UserNotFound)));
    assert_eq!(Error::AlreadyRegistered.code(), 1);
    assert_eq!(Error::UserNotFound.code(), 2);
    assert_eq!(client.get_address_by_username(s("bob")).err(), Some(Error::UserNotFound));
}
