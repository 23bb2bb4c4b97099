//! Host-side agent that mounts CubeFS volumes through `cfs-client`.
//!
//! The library holds the agent's logic: the paths and scripts it derives from a
//! volume name, the validation of a client configuration, the start-up sequence
//! as a state machine driven by its caller, and the answers of the HTTP routes.
//! Performing file-system work, running processes and serving HTTP is left to the
//! caller, which hands the outcomes back as plain values.

use vstd::prelude::*;

pub mod text;
pub mod utils;
pub mod io;
pub mod sys;
pub mod errors;
pub mod bond;
pub mod startup;
pub mod routes;
pub mod launch;
pub mod mount;
pub mod config_map;
pub mod controller;
pub mod umount;
pub mod commons;
pub mod laws;
pub mod results;

verus! {

/// The CubeFS client binary.
pub const CFS_CLIENT_FILE: &'static str = "/cfs/client/cfs-client";

/// Where the per-volume configuration, start script and logs live.
pub const CFS_BOND_HOME: &'static str = "/cfs/bond";

/// Where volumes are mounted.
pub const CFS_MOUNT_HOME: &'static str = "/cfs/mount";

} // verus!

