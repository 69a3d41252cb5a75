//! The boot logic of an enclave guest's first process: mounts, console,
//! platform attestation, entropy seeding and the policy that decides between
//! going on and rebooting, as state machines that ask their caller to perform
//! each system operation and take back how it went.

pub mod abi;
pub mod boot;
pub mod config;
pub mod entropy;
pub mod error;
pub mod ops;
pub mod platform;
