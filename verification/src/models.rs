//! Value objects and entities exchanged with the collaborators.
//!
//! These are the plain-value shapes the hub's surroundings traffic in:
//! brawler registration and profile data, mission summaries, comments,
//! notifications, and the passport handed out after authentication.
//! Timestamps are carried as Unix seconds.

use vstd::prelude::*;
use vstd::string::StringExecFns;

verus! {

/// A brawler registration request.
#[derive(Debug, Clone)]
pub struct RegisterBrawlerModel {
    pub username: String,
    pub password: String,
    pub display_name: String,
}

/// The row inserted for a new brawler.
#[derive(Debug, Clone)]
pub struct RegisterBrawlerEntity {
    pub username: String,
    pub password: String,
    pub display_name: String,
}

impl RegisterBrawlerModel {
    /// The entity to persist for this registration request: the same three
    /// fields, duplicated.
    pub fn to_entity(&self) -> (r: RegisterBrawlerEntity)
        ensures
            r.username == self.username,
            r.password == self.password,
            r.display_name == self.display_name,
    {
        RegisterBrawlerEntity {
            username: self.username.clone(),
            password: self.password.clone(),
            display_name: self.display_name.clone(),
        }
    }
}

/// A brawler as shown on a crew roster, with mission statistics.
#[derive(Debug, Clone)]
pub struct BrawlerModel {
    pub id: i32,
    pub display_name: String,
    pub avatar_url: String,
    pub mission_success_count: i64,
    pub mission_join_count: i64,
}

/// A profile update; absent fields stay untouched.
#[derive(Debug, Clone)]
pub struct UpdateBrawlerModel {
    pub display_name: Option<String>,
    pub bio: Option<String>,
    pub discord_id: Option<String>,
    pub contact_email: Option<String>,
    pub instagram: Option<String>,
    pub facebook: Option<String>,
}

/// A comment posted to a mission's room.
#[derive(Debug)]
pub struct AddMissionCommentModel {
    pub content: String,
}

/// The lifecycle status of a mission.
#[derive(Debug, Clone, Copy, PartialEq, Eq, Structural)]
pub enum MissionStatuses {
    Pending,
    InProgress,
    Completed,
    Failed,
}

impl MissionStatuses {
    /// The status name as the persistence collaborator stores it.
    pub fn as_text(&self) -> (r: String)
        ensures
            *self is Pending ==> r@ == "Pending"@,
            *self is InProgress ==> r@ == "InProgress"@,
            *self is Completed ==> r@ == "Completed"@,
            *self is Failed ==> r@ == "Failed"@,
    {
        match self {
            MissionStatuses::Pending => "Pending".to_owned(),
            MissionStatuses::InProgress => "InProgress".to_owned(),
            MissionStatuses::Completed => "Completed".to_owned(),
            MissionStatuses::Failed => "Failed".to_owned(),
        }
    }
}

/// Filters for browsing the public mission list.
#[derive(Debug, Clone, Default)]
pub struct MissionFilter {
    /// Matches mission names containing this text.
    pub name: Option<String>,
    pub status: Option<MissionStatuses>,
    /// When set, missions are excluded that this brawler leads or already
    /// joined.
    pub exclude_brawler_id: Option<i32>,
}

/// The pattern a contains-match on a mission name uses: the name wrapped in
/// one wildcard on each side.
pub fn like_pattern(name: &str) -> (r: String)
    ensures
        r@ == "%"@ + name@ + "%"@,
{
    "%".to_owned().concat(name).concat("%")
}

/// A mission as shown in listings: its own fields plus the chief's display
/// data and the current crew count.
#[derive(Debug, Clone)]
pub struct MissionModel {
    pub id: i32,
    pub name: String,
    pub description: String,
    pub status: String,
    pub chief_id: i32,
    pub chief_display_name: String,
    pub chief_avatar_url: String,
    pub crew_count: i64,
    pub max_crew: i32,
    /// Unix seconds.
    pub created_at: i64,
    /// Unix seconds.
    pub updated_at: i64,
}

/// One brawler's membership in one mission's crew.
#[derive(Debug, Clone, Copy, PartialEq, Eq, Structural)]
pub struct CrewMemberShips {
    pub mission_id: i32,
    pub brawler_id: i32,
}

/// A durable notification to persist for one brawler, so that offline
/// recipients can retrieve missed events later.
#[derive(Debug, Clone)]
pub struct AddNotificationEntity {
    pub brawler_id: i32,
    pub type_: String,
    pub content: String,
    pub related_id: Option<i32>,
}

impl AddNotificationEntity {
    /// Assembles the notification to persist alongside a directed delivery.
    pub fn new(brawler_id: i32, type_: String, content: String, related_id: Option<i32>) -> (r:
        AddNotificationEntity)
        ensures
            r.brawler_id == brawler_id,
            r.type_ == type_,
            r.content == content,
            r.related_id == related_id,
    {
        AddNotificationEntity { brawler_id, type_, content, related_id }
    }
}

/// The signed token claims: subject, expiry and issue time (Unix seconds).
#[derive(Debug, Clone)]
pub struct Claims {
    pub sub: String,
    pub exp: usize,
    pub iat: usize,
}

impl Claims {
    /// Claims for `sub`, issued at `issued_at` and expiring `ttl_seconds`
    /// later.
    pub fn with_ttl(sub: String, issued_at: usize, ttl_seconds: usize) -> (r: Claims)
        requires
            issued_at + ttl_seconds <= usize::MAX,
        ensures
            r.sub == sub,
            r.iat == issued_at,
            r.exp == issued_at + ttl_seconds,
    {
        Claims { sub, exp: issued_at + ttl_seconds, iat: issued_at }
    }
}

/// What a brawler receives after authenticating: their id, a signed token,
/// and their profile data.
#[derive(Debug, Clone)]
pub struct Passport {
    pub id: i32,
    pub token: String,
    pub display_name: String,
    pub avatar_url: Option<String>,
    pub bio: Option<String>,
    pub discord_id: Option<String>,
    pub contact_email: Option<String>,
    pub instagram: Option<String>,
    pub facebook: Option<String>,
}

impl Passport {
    /// Assembles a passport around an already-signed token.
    pub fn new(
        user_id: i32,
        token: String,
        display_name: String,
        avatar_url: Option<String>,
        bio: Option<String>,
        discord_id: Option<String>,
        contact_email: Option<String>,
        instagram: Option<String>,
        facebook: Option<String>,
    ) -> (r: Passport)
        ensures
            r.id == user_id,
            r.token == token,
            r.display_name == display_name,
            r.avatar_url == avatar_url,
            r.bio == bio,
            r.discord_id == discord_id,
            r.contact_email == contact_email,
            r.instagram == instagram,
            r.facebook == facebook,
    {
        Passport {
            id: user_id,
            token,
            display_name,
            avatar_url,
            bio,
            discord_id,
            contact_email,
            instagram,
            facebook,
        }
    }
}

} // verus!
