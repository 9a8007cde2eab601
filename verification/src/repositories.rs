//! Handles to the persistence collaborators.
//!
//! Persistence itself is outside this library: the queries live with the
//! runtime around it. What stands here is the shape of those collaborators
//! — a shared connection pool handle per repository, and the interface the
//! crew use cases consume — so that the rest of the system can hold and
//! pass them as plain values.

use crate::models::{CrewMemberShips, MissionModel};
use std::sync::Arc;
use vstd::prelude::*;

verus! {

/// Relies on diesel's r2d2 connection pool. The handle is opaque here: the
/// queries against it live with the runtime outside this library, which
/// reaches the pool through the public field.
#[verifier::external_body]
pub struct PgPoolSquad {
    pub pool: diesel::r2d2::Pool<diesel::r2d2::ConnectionManager<diesel::PgConnection>>,
}

/// How the crew use cases reach crew persistence; implemented by the
/// runtime around this library.
pub trait CrewOperationRepository {
    /// Records that a brawler joined a mission's crew.
    fn join(&self, crew_member_ships: CrewMemberShips) -> Result<(), String>;

    /// Records that a brawler left a mission's crew.
    fn leave(&self, crew_member_ships: CrewMemberShips) -> Result<(), String>;

    /// The missions this brawler has joined as a crew member.
    fn get_my_joined_missions(&self, brawler_id: i32) -> Result<Vec<MissionModel>, String>;
}

/// Brawler persistence handle: registration, profiles, lookups.
pub struct BrawlerPostgres {
    pub db_pool: Arc<PgPoolSquad>,
}

impl BrawlerPostgres {
    /// Wraps the shared pool.
    pub fn new(db_pool: Arc<PgPoolSquad>) -> (r: Self)
        ensures
            r.db_pool == db_pool,
    {
        Self { db_pool }
    }
}

/// Crew membership persistence handle: joining and leaving missions.
pub struct CrewOperationPostgres {
    pub db_pool: Arc<PgPoolSquad>,
}

impl CrewOperationPostgres {
    /// Wraps the shared pool.
    pub fn new(db_pool: Arc<PgPoolSquad>) -> (r: Self)
        ensures
            r.db_pool == db_pool,
    {
        Self { db_pool }
    }
}

/// Mission comment persistence handle: the room chat log.
pub struct MissionCommentPostgres {
    pub db_pool: Arc<PgPoolSquad>,
}

impl MissionCommentPostgres {
    /// Wraps the shared pool.
    pub fn new(db_pool: Arc<PgPoolSquad>) -> (r: Self)
        ensures
            r.db_pool == db_pool,
    {
        Self { db_pool }
    }
}

/// Mission viewing handle: the read collaborator supplying mission names,
/// crew rosters and chief ids for envelope payloads and delivery targets.
pub struct MissionViewingPostgres {
    pub db_pool: Arc<PgPoolSquad>,
}

impl MissionViewingPostgres {
    /// Wraps the shared pool.
    pub fn new(db_pool: Arc<PgPoolSquad>) -> (r: Self)
        ensures
            r.db_pool == db_pool,
    {
        Self { db_pool }
    }
}

/// Durable notification handle: the best-effort side channel that covers
/// recipients the real-time hub cannot reach.
pub struct NotificationPostgres {
    pub db_pool: Arc<PgPoolSquad>,
}

impl NotificationPostgres {
    /// Wraps the shared pool.
    pub fn new(db_pool: Arc<PgPoolSquad>) -> (r: Self)
        ensures
            r.db_pool == db_pool,
    {
        Self { db_pool }
    }
}

} // verus!
