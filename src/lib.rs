//! A request echo service: every inbound HTTP request is turned into a
//! structured description of itself (host, method, decoded path, headers,
//! query parameters and body).

pub mod codec;
pub mod echo;
pub mod entries;
