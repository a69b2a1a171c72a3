//! Core logic of the Zaps social-payments platform: the on-chain contract
//! state machines and the backend decision procedures, with their contracts.

pub mod admin;
pub mod allbridge;
pub mod api_error;
pub mod batch;
pub mod bridge;
pub mod chain;
pub mod clock;
pub mod compliance;
pub mod config;
pub mod currency;
pub mod escrow;
pub mod events;
pub mod identity;
pub mod ids;
pub mod indexer;
pub mod json;
pub mod payments;
pub mod pool;
pub mod rate_limit;
pub mod registry;
pub mod role;
pub mod router;
pub mod session;
pub mod social_graph;
pub mod social_payment;
pub mod store;
pub mod telemetry;
pub mod text;
pub mod version_catalog;
pub mod users;
pub mod version_order;
pub mod versioning;
pub mod yield_calc;
