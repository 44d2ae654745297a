use vstd::prelude::*;

pub mod builder;
pub mod cli;
pub mod client_session;
pub mod client_stats;
pub mod config;
pub mod connection_pool;
pub mod control_protocol;
pub mod dashboard;
pub mod error;
pub mod format;
pub mod forwarder;
pub mod frames;
pub mod geoip;
pub mod http;
pub mod io_util;
pub mod limited_reader;
pub mod manager;
pub mod netaddr;
pub mod protocol;
pub mod rate_limiter;
pub mod registry;
pub mod session;
pub mod setup;
pub mod stats;
pub mod stats_page;
pub mod text;
pub mod transport;
pub mod validator;
