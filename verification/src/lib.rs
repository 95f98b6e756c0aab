//! A bounded-concurrency URL-enumeration scanner, verified.
//!
//! Given a list of hosts and a list of candidate path suffixes, the scanner
//! probes every host/path combination over HTTPS, inspects each response body
//! for a content marker, and appends confirmed matches to an append-only
//! store. This library holds the engine itself — target generation,
//! response classification, admission control, outcome accounting and the
//! match store — with machine-checked contracts. The binary around it
//! performs the network and file I/O.

pub mod config;
pub mod engine;
pub mod generator;
pub mod governor;
pub mod outcome;
pub mod sink;
pub mod task;
pub mod text;

use vstd::prelude::*;

verus! {

/// Default number of concurrent workers when none is configured.
pub const DEFAULT_WORKERS: usize = 10;

} // verus!
