use zaps::chain::{Address, Fault};
use zaps::registry::{RegistryError, UserRegistryContract};
use zaps::social_graph::{GraphError, SocialGraphContract};

fn everyone() -> Vec<Address> {
    vec![Address(1), Address(2), Address(3)]
}

#[test]
fn test_register_and_update_profile() {
    let mut client = UserRegistryContract::new();
    let user = Address(1);
    let username = "ebube".to_string();

    client.register_user(&everyone(), user, username.clone()).unwrap();
    assert_eq!(client.get_address(username.clone()).unwrap(), user);
    assert_eq!(client.get_username(user).unwrap(), username);

    let avatar_uri = "https://example.com/avatar.png".to_string();
    client.update_profile(&everyone(), user, avatar_uri.clone()).unwrap();
    assert_eq!(client.get_avatar(user), avatar_uri);
}

#[test]
fn registry_refuses_a_claimed_username_and_missing_auth() {
    let mut client = UserRegistryContract::new();
    client.register_user(&everyone(), Address(1), "taken".to_string()).unwrap();
    let second = client.register_user(&everyone(), Address(2), "taken".to_string());
    assert_eq!(second, Err(Fault::Contract(RegistryError::UsernameTaken)));
    assert_eq!(client.get_address("taken".to_string()).unwrap(), Address(1));

    let unsigned = client.update_profile(&vec![], Address(3), "uri".to_string());
    assert_eq!(unsigned, Err(Fault::MissingAuth(Address(3))));
    assert_eq!(client.get_avatar(Address(3)), "");
    assert_eq!(client.get_username(Address(3)), Err(RegistryError::AddressNotRegistered));
    assert_eq!(client.get_address("nobody".to_string()), Err(RegistryError::UsernameNotFound));
}

#[test]
fn add_friend_stores_independent_composite_friendship() {
    let mut client = SocialGraphContract::new();
    let (user, friend, other) = (Address(1), Address(2), Address(3));

    assert!(!client.is_friend(user, friend));
    assert!(!client.is_friend(user, other));

    client.add_friend(&everyone(), user, friend).unwrap();

    assert!(client.is_friend(user, friend));
    assert!(!client.is_friend(user, other));
    assert!(!client.is_friend(friend, user));
}

#[test]
fn remove_friend_marks_composite_friendship_removed() {
    let mut client = SocialGraphContract::new();
    let (user, friend) = (Address(1), Address(2));

    client.add_friend(&everyone(), user, friend).unwrap();
    assert!(client.is_friend(user, friend));

    client.remove_friend(&everyone(), user, friend).unwrap();
    assert!(!client.is_friend(user, friend));
}

#[test]
fn befriending_oneself_is_refused() {
    let mut client = SocialGraphContract::new();
    let me = Address(1);
    assert_eq!(client.add_friend(&everyone(), me, me), Err(Fault::Contract(GraphError::SelfFriendship)));
    assert_eq!(client.add_friend(&vec![], me, Address(2)), Err(Fault::MissingAuth(me)));
    assert!(!client.is_friend(me, Address(2)));
}

#[test]
fn test_update_profile_fails_without_auth() {
    let mut client = UserRegistryContract::new();
    let user = Address(7);
    let res = client.update_profile(&vec![], user, "https://example.com/avatar.png".to_string());
    assert!(res.is_err());
    assert_eq!(client.get_avatar(user), "");
}
