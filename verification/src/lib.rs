//! The ROCt thunk: the user-mode side of the AMD KFD kernel interface. This crate
//! holds its state, its decision logic and its sysfs parsers; the device, file and
//! environment access is left to the surrounding program, which performs what the
//! library's steps ask for and reports the results back.
#![allow(non_camel_case_types, non_snake_case, non_upper_case_globals, dead_code)]

pub mod debug;
pub mod rbtree;
pub mod rbtree_amd;
pub mod bitfield;
pub mod hsakmttypes;
pub mod topology_types;
pub mod text;
pub mod topology_utils;
pub mod fmm_types;
pub mod globals;
pub mod queues;
pub mod version;
pub mod open_close;
pub mod topology;
pub mod fmm;
pub mod test_kfd_utils;
