//! Planning and bookkeeping for snapshotting and restoring the EBS drives of
//! a Qumulo cluster in AWS: the requests that are sent, the tags that tie a
//! snapshot to the node and drive it came from, and the checks made on what
//! EC2 reports back. The course of a snapshot and of a restore are state
//! machines that the program around the library drives.

pub mod constants;
pub mod qsnaperror;
pub mod ec2;
pub mod region;
pub mod util;
pub mod snapshot_description;
pub mod aws;
pub mod snapshot;
pub mod listing;
pub mod restore;
pub mod restore_run;
pub mod restore_effects;
pub mod snapshot_run;
pub mod snapshot_effects;
pub mod round_trip;
