//! User sessions: their statuses and security events, session tokens, the
//! limit on concurrent sessions and the detection of a changed device or
//! address.

use vstd::prelude::*;
use crate::clock::Moment;
use crate::ids::{hex_encode, lower_hex, random_uuid_bytes};
use sha2::Digest;

verus! {

#[derive(Debug, Clone, Copy, PartialEq, Eq, Structural)]
pub enum SessionStatus {
    Active,
    Suspended,
    Revoked,
    Expired,
}

impl SessionStatus {
    /// The status as stored.
    pub fn to_string(&self) -> (r: String)
        ensures
            r@ == (match *self {
                SessionStatus::Active => "active"@,
                SessionStatus::Suspended => "suspended"@,
                SessionStatus::Revoked => "revoked"@,
                SessionStatus::Expired => "expired"@,
            }),
    {
        match self {
            SessionStatus::Active => "active".to_owned(),
            SessionStatus::Suspended => "suspended".to_owned(),
            SessionStatus::Revoked => "revoked".to_owned(),
            SessionStatus::Expired => "expired".to_owned(),
        }
    }
}

#[derive(Debug, Clone, Copy, PartialEq, Eq, Structural)]
pub enum SecurityEventType {
    Login,
    Logout,
    FailedLogin,
    SuspiciousActivity,
    DeviceChange,
    LocationChange,
    ConcurrentSession,
}

pub open spec fn event_type_text(t: SecurityEventType) -> Seq<char> {
    match t {
        SecurityEventType::Login => "login"@,
        SecurityEventType::Logout => "logout"@,
        SecurityEventType::FailedLogin => "failed_login"@,
        SecurityEventType::SuspiciousActivity => "suspicious_activity"@,
        SecurityEventType::DeviceChange => "device_change"@,
        SecurityEventType::LocationChange => "location_change"@,
        SecurityEventType::ConcurrentSession => "concurrent_session"@,
    }
}

impl SecurityEventType {
    /// The event type as stored.
    pub fn to_string(&self) -> (r: String)
        ensures
            r@ == event_type_text(*self),
    {
        match self {
            SecurityEventType::Login => "login".to_owned(),
            SecurityEventType::Logout => "logout".to_owned(),
            SecurityEventType::FailedLogin => "failed_login".to_owned(),
            SecurityEventType::SuspiciousActivity => "suspicious_activity".to_owned(),
            SecurityEventType::DeviceChange => "device_change".to_owned(),
            SecurityEventType::LocationChange => "location_change".to_owned(),
            SecurityEventType::ConcurrentSession => "concurrent_session".to_owned(),
        }
    }
}

#[derive(Debug, Clone, Copy, PartialEq, Eq, Structural)]
pub enum EventSeverity {
    Low,
    Medium,
    High,
    Critical,
}

pub open spec fn severity_text(s: EventSeverity) -> Seq<char> {
    match s {
        EventSeverity::Low => "low"@,
        EventSeverity::Medium => "medium"@,
        EventSeverity::High => "high"@,
        EventSeverity::Critical => "critical"@,
    }
}

impl EventSeverity {
    /// The severity as stored.
    pub fn to_string(&self) -> (r: String)
        ensures
            r@ == severity_text(*self),
    {
        match self {
            EventSeverity::Low => "low".to_owned(),
            EventSeverity::Medium => "medium".to_owned(),
            EventSeverity::High => "high".to_owned(),
            EventSeverity::Critical => "critical".to_owned(),
        }
    }
}

/// A stored user session.
#[derive(Debug, Clone)]
pub struct UserSession {
    pub id: String,
    pub user_id: String,
    pub session_token: String,
    pub device_id: String,
    pub device_fingerprint: String,
    pub ip_address: String,
    pub user_agent: String,
    pub status: String,
    pub last_activity: Moment,
    pub created_at: Moment,
    pub expires_at: Moment,
}

/// A security event about to be recorded.
#[derive(Debug, Clone, Copy, PartialEq, Eq, Structural)]
pub struct SecurityEventDraft {
    pub event_type: SecurityEventType,
    pub severity: EventSeverity,
    /// Whether the event carries the address of the request or session.
    pub with_ip_address: bool,
    /// Whether the event carries the device of the request or session.
    pub with_device: bool,
}

/// The digest that SHA-256 computes for `data`.
pub uninterp spec fn sha256_digest(data: Seq<u8>) -> Seq<u8>;

/// Hashes `data` with `sha2::Sha256::digest`. The contract names the digest
/// by `sha256_digest` of the data and states its length, 32 bytes.
#[verifier::external_body]
fn sha256(data: &Vec<u8>) -> (r: Vec<u8>)
    ensures
        r@ == sha256_digest(data@),
        r@.len() == 32,
{
    sha2::Sha256::digest(data.as_slice()).to_vec()
}


/// A new session token: the lower-case hexadecimal SHA-256 digest of the
/// bytes of a fresh random UUID, 64 characters long.
pub fn generate_session_token() -> (r: String)
    ensures
        exists|b: Seq<u8>| b.len() == 16 && r@ == lower_hex(#[trigger] sha256_digest(b)),
        r@.len() == 64,
{
    let random = random_uuid_bytes();
    let digest = sha256(&random);
    hex_encode(&digest)
}

/// The session to revoke when a user is at the concurrent-session limit:
/// with the active sessions listed most recently active first, the last
/// one, once there are at least `max_concurrent` of them.
pub open spec fn session_to_evict(count: nat, max_concurrent: nat) -> Option<nat> {
    if count >= max_concurrent && count > 0 {
        Some((count - 1) as nat)
    } else {
        None
    }
}

/// The event recorded when the oldest session is revoked for the limit.
pub open spec fn eviction_event() -> SecurityEventDraft {
    SecurityEventDraft {
        event_type: SecurityEventType::ConcurrentSession,
        severity: EventSeverity::Medium,
        with_ip_address: true,
        with_device: true,
    }
}

/// Which of the active sessions (most recently active first) to revoke to
/// respect `max_concurrent`, with the event to record.
pub fn enforce_concurrent_session_limit(active_sessions: &Vec<UserSession>, max_concurrent: usize) -> (r: Option<
    (usize, SecurityEventDraft),
>)
    ensures
        match session_to_evict(active_sessions@.len(), max_concurrent as nat) {
            Some(i) => r == Some((i as usize, eviction_event())),
            None => r is None,
        },
{
    let n = active_sessions.len();
    if n >= max_concurrent && n > 0 {
        Some(
            (
                n - 1,
                SecurityEventDraft {
                    event_type: SecurityEventType::ConcurrentSession,
                    severity: EventSeverity::Medium,
                    with_ip_address: true,
                    with_device: true,
                },
            ),
        )
    } else {
        None
    }
}

/// What a session's device and address say about a request's: a changed
/// device fingerprint, else a changed address, else nothing.
pub open spec fn session_mismatch(s: UserSession, device_fingerprint: Seq<char>, ip_address: Seq<char>) -> Option<
    SecurityEventDraft,
> {
    if s.device_fingerprint@ != device_fingerprint {
        Some(
            SecurityEventDraft {
                event_type: SecurityEventType::DeviceChange,
                severity: EventSeverity::High,
                with_ip_address: true,
                with_device: true,
            },
        )
    } else if s.ip_address@ != ip_address {
        Some(
            SecurityEventDraft {
                event_type: SecurityEventType::LocationChange,
                severity: EventSeverity::Medium,
                with_ip_address: true,
                with_device: false,
            },
        )
    } else {
        None
    }
}

/// The first active session whose device or address differs from the
/// request's, with the event to record about it.
pub open spec fn first_mismatch(sessions: Seq<UserSession>, device_fingerprint: Seq<char>, ip_address: Seq<char>) -> Option<
    (nat, SecurityEventDraft),
>
    decreases sessions.len(),
{
    if sessions.len() == 0 {
        None
    } else {
        match session_mismatch(sessions[0], device_fingerprint, ip_address) {
            Some(e) => Some((0, e)),
            None => match first_mismatch(sessions.drop_first(), device_fingerprint, ip_address) {
                Some((i, e)) => Some((i + 1, e)),
                None => None,
            },
        }
    }
}

/// Looks through the user's active sessions for one whose device or address
/// differs from the request's.
pub fn detect_suspicious_activity(
    active_sessions: &Vec<UserSession>,
    device_fingerprint: &str,
    ip_address: &str,
) -> (r: Option<(usize, SecurityEventDraft)>)
    ensures
        match first_mismatch(active_sessions@, device_fingerprint@, ip_address@) {
            Some((i, e)) => r == Some((i as usize, e)),
            None => r is None,
        },
{
    let n = active_sessions.len();
    let mut i: usize = 0;
    assert(active_sessions@.subrange(0, n as int) =~= active_sessions@);
    while i < n
        invariant
            n == active_sessions@.len(),
            i <= n,
            forall|j: int|
                0 <= j < i ==> session_mismatch(#[trigger] active_sessions@[j], device_fingerprint@, ip_address@)
                    is None,
            first_mismatch(active_sessions@, device_fingerprint@, ip_address@) == match first_mismatch(
                active_sessions@.subrange(i as int, n as int),
                device_fingerprint@,
                ip_address@,
            ) {
                Some((k, e)) => Some(((k + i) as nat, e)),
                None => None,
            },
        decreases n - i,
    {
        let s = &active_sessions[i];
        let ghost rest = active_sessions@.subrange(i as int, n as int);
        proof {
            assert(rest[0] == active_sessions@[i as int]);
            assert(rest.drop_first() =~= active_sessions@.subrange(i + 1, n as int));
        }
        if !crate::text::str_eq(s.device_fingerprint.as_str(), device_fingerprint) {
            return Some(
                (
                    i,
                    SecurityEventDraft {
                        event_type: SecurityEventType::DeviceChange,
                        severity: EventSeverity::High,
                        with_ip_address: true,
                        with_device: true,
                    },
                ),
            );
        }
        if !crate::text::str_eq(s.ip_address.as_str(), ip_address) {
            return Some(
                (
                    i,
                    SecurityEventDraft {
                        event_type: SecurityEventType::LocationChange,
                        severity: EventSeverity::Medium,
                        with_ip_address: true,
                        with_device: false,
                    },
                ),
            );
        }
        i = i + 1;
    }
    None
}

/// No suspicion is raised exactly when every active session has the
/// request's device fingerprint and address; a device change is reported
/// before an address change on the same session.
pub proof fn law_suspicion_iff_mismatch(sessions: Seq<UserSession>, device_fingerprint: Seq<char>, ip_address: Seq<char>)
    ensures
        first_mismatch(sessions, device_fingerprint, ip_address) is None <==> forall|j: int|
            0 <= j < sessions.len() ==> (#[trigger] sessions[j]).device_fingerprint@ == device_fingerprint
                && sessions[j].ip_address@ == ip_address,
        first_mismatch(sessions, device_fingerprint, ip_address) matches Some((i, e)) ==> i < sessions.len() && (
        sessions[i as int].device_fingerprint@ != device_fingerprint ==> e.event_type
            == SecurityEventType::DeviceChange),
    decreases sessions.len(),
{
    if sessions.len() > 0 {
        let rest = sessions.drop_first();
        law_suspicion_iff_mismatch(rest, device_fingerprint, ip_address);
        assert forall|j: int| 0 < j < sessions.len() implies sessions[j] == rest[j - 1] by {}
        if first_mismatch(sessions, device_fingerprint, ip_address) is None {
            assert forall|j: int| 0 <= j < sessions.len() implies (#[trigger] sessions[j]).device_fingerprint@
                == device_fingerprint && sessions[j].ip_address@ == ip_address by {
                if j > 0 {
                    assert(sessions[j] == rest[j - 1]);
                }
            }
        } else {
            if session_mismatch(sessions[0], device_fingerprint, ip_address) is None {
                let w = choose|j: int|
                    0 <= j < rest.len() && !((#[trigger] rest[j]).device_fingerprint@ == device_fingerprint
                        && rest[j].ip_address@ == ip_address);
                assert(sessions[w + 1] == rest[w]);
            }
        }
    }
}

} // verus!
