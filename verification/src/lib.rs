//! Benchmarking engine for a single HTTP endpoint.
//!
//! The library holds the decisions of a benchmark and leaves the transport
//! to its caller:
//!
//! - `stats`: counters and latencies of a run, with mean, extremes and
//!   nearest-rank percentiles;
//! - `policy`: the time bound and the count bound of a run;
//! - `bench_loop`: what happens between two requests of a run;
//! - `request`, `header`: the request that is sent and its headers;
//! - `executor`: the steps of one request attempt;
//! - `target`: the endpoint that a URL names;
//! - `report`, `text`: the text of progress lines and of the summary.
//!
//! All durations are whole nanoseconds held in a `u64`.

pub mod bench_loop;
pub mod executor;
pub mod header;
pub mod order;
pub mod outcome;
pub mod policy;
pub mod report;
pub mod request;
pub mod stats;
pub mod target;
pub mod text;
