//! Core of an OCI container runtime: resource controllers that turn a
//! resource specification into cgroup control-file writes, the container
//! builder with its validation, and the launch protocol between the parent
//! and the new container process.
use vstd::prelude::*;

pub mod builder;
pub mod cgroup;
pub mod controller;
pub mod cpu;
pub mod cpuset;
pub mod decimal;
pub mod env;
pub mod exec;
pub mod launch;
pub mod memory;
pub mod pids;
