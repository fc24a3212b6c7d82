//! Serving runtimes: fixed, exclusive inference lanes and bounded caches of them.
pub mod access;
pub mod audit;
pub mod bucket;
pub mod build_laws;
pub mod cache_laws;
pub mod capture;
pub mod dynamic;
pub mod host_lane;
pub mod lane;
pub mod lane_build;
pub mod lane_laws;
pub mod lane_state;
pub mod options;
pub mod owned_run;
pub mod poll;
pub mod pool;
pub mod prepared;
pub mod recovery;
pub mod runtime_laws;
pub mod set_laws;
pub mod static_io;
pub mod success_laws;
pub mod warm;
