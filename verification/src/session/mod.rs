//! Sessions: their interface, runs, copies and captured graphs.
pub mod async_run;
pub mod binding;
pub mod copy;
pub mod create;
pub mod graph_lease;
pub mod io_lane_laws;
pub mod lanes;
pub mod placement;
pub mod report_laws;
pub mod run;
pub mod session;
pub mod session_laws;
pub mod success_laws;
