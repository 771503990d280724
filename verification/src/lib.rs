//! Decision logic of the dispatcher service: request rewriting for the
//! authorization proxy, error classification, time-range arithmetic,
//! recording segment handling and routing of incoming events.

pub mod error;
pub mod events;
pub mod outside;
pub mod postprocessing;
pub mod properties;
pub mod text;
pub mod time;
pub mod turn_host;
pub mod authz;
pub mod ban;
pub mod classes;
pub mod ids;
pub mod metrics;
pub mod numbers;
pub mod segments;
pub mod requests;
pub mod rooms;
pub mod http;
pub mod creation;
pub mod convert;
pub mod frontend;
pub mod downloads;
pub mod accounts;
pub mod clients;
pub mod completion;
