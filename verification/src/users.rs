//! The user profile endpoints: their request and response shapes, the
//! sample profile they answer with, and the search pattern and paging of a
//! user search.

use vstd::prelude::*;
use crate::text::concat;

verus! {

#[derive(Debug, Clone)]
pub struct UpdateProfileRequest {
    pub display_name: Option<String>,
    pub avatar_url: Option<String>,
}

#[derive(Debug, Clone)]
pub struct ProfileResponse {
    pub address: String,
    pub username: String,
    pub display_name: Option<String>,
    pub avatar_url: Option<String>,
}

#[derive(Debug, Clone)]
pub struct SearchQuery {
    pub q: String,
    pub limit: Option<i64>,
    pub offset: Option<i64>,
}

#[derive(Debug, Clone)]
pub struct UserSearchItem {
    pub username: String,
    pub address: String,
    pub avatar_url: Option<String>,
}

#[derive(Debug, Clone)]
pub struct FriendRequest {
    pub friend_address: String,
}

/// The address of the sample profile the profile endpoints answer with.
pub open spec fn sample_address() -> Seq<char> {
    "GABC1234EXAMPLESTELLARADDRESSXXXXXXXXXXXXXXXXXXXXXXXXXXXXXXX"@
}

/// The profile endpoint's answer: a fixed sample profile.
pub fn get_profile() -> (r: ProfileResponse)
    ensures
        r.address@ == sample_address(),
        r.username@ == "ebube.zaps"@,
        r.display_name matches Some(d) && d@ == "Ebube One"@,
        r.avatar_url is None,
{
    ProfileResponse {
        address: "GABC1234EXAMPLESTELLARADDRESSXXXXXXXXXXXXXXXXXXXXXXXXXXXXXXX".to_owned(),
        username: "ebube.zaps".to_owned(),
        display_name: Some("Ebube One".to_owned()),
        avatar_url: None,
    }
}

/// The profile update endpoint's answer: the fixed sample profile as
/// updated, whatever the request holds.
pub fn update_profile(payload: &UpdateProfileRequest) -> (r: ProfileResponse)
    ensures
        r.address@ == sample_address(),
        r.username@ == "ebube.zaps"@,
        r.display_name matches Some(d) && d@ == "Ebube Updated"@,
        r.avatar_url matches Some(a) && a@ == "https://example.com/avatar.png"@,
{
    ProfileResponse {
        address: "GABC1234EXAMPLESTELLARADDRESSXXXXXXXXXXXXXXXXXXXXXXXXXXXXXXX".to_owned(),
        username: "ebube.zaps".to_owned(),
        display_name: Some("Ebube Updated".to_owned()),
        avatar_url: Some("https://example.com/avatar.png".to_owned()),
    }
}

/// How a user search runs: the `LIKE` pattern matching names and addresses
/// that start with the query, and the page (20 rows from the start unless
/// asked otherwise).
pub fn search_plan(params: &SearchQuery) -> (r: (String, i64, i64))
    ensures
        r.0@ == params.q@ + "%"@,
        r.1 == (match params.limit {
            Some(l) => l,
            None => 20,
        }),
        r.2 == (match params.offset {
            Some(o) => o,
            None => 0,
        }),
{
    let limit = match params.limit {
        Some(l) => l,
        None => 20,
    };
    let offset = match params.offset {
        Some(o) => o,
        None => 0,
    };
    (concat(params.q.as_str(), "%"), limit, offset)
}

/// The friend list endpoint's answer: no friends yet.
pub fn list_friends() -> (r: Vec<UserSearchItem>)
    ensures
        r@.len() == 0,
{
    Vec::new()
}

/// The status a friend request is answered with.
pub fn send_friend_request(payload: &FriendRequest) -> (r: &'static str)
    ensures
        r@ == "pending"@,
{
    "pending"
}

} // verus!
