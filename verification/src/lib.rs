//! Verified core of the Paper Raid backend-for-frontend: the practice and
//! Quick Raid session state machines, request-label bounding and metrics,
//! identity-claim and scope checks, the command whitelist and its upstream
//! routes, the checks a human signing frame makes on the Paper Room and
//! review reads it binds, the sealing of a Paper's review state (its
//! evaluations, drafts, assignments and reproductions), the Nakama archive
//! reads, readiness probes and schema-definition guards.

pub mod text;
pub mod db;
pub mod digest;
pub mod drafts;
pub mod error;
pub mod frames;
pub mod hepta;
pub mod identity;
pub mod json;
pub mod lineage;
pub mod metrics;
pub mod nakama;
pub mod oidc;
pub mod practice;
pub mod practice_http;
pub mod probe;
pub mod quick_raid;
pub mod quick_raid_http;
pub mod registration;
pub mod reproductions;
pub mod review;
pub mod room;
pub mod review_frames;
pub mod review_state;
