//! A verified core for a small worker-pool HTTP server: the request-line
//! protocol handler (parse, route, render) and a model of the job queue and
//! worker pool that the unverified runtime drives.

pub mod ascii;
pub mod request;
pub mod response;
pub mod handler;
pub mod pool;
