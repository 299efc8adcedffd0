//! Favicon resolution library: a reachability gate, an ordered chain of icon
//! discovery strategies over a target site, and a fetch-and-rescale pipeline.
//! All network traffic is performed by the caller; the decision logic here is
//! a verified state machine that turns fetch results into the next request.

pub mod html;
pub mod manifest;
pub mod outcome;
pub mod scale;
pub mod session;
pub mod strings;
pub mod urls;
