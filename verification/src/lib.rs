//! Verified core of a bulk HTTP/HTTPS host prober: job modeling, token-bucket
//! admission, port/scheme resolution planning, response gating and analysis,
//! status classification, and output-line assembly. The unverified binary
//! around this library performs the network I/O and hands the results here as
//! plain values.
pub mod classify;
pub mod job;
pub mod limiter;
pub mod probe;
pub mod regexes;
pub mod resolver;
pub mod split;
pub mod text;
