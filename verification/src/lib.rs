//! Verified core of the dpm hub desktop client: the package records it shows,
//! the address of the package index, and the decisions the panel takes on
//! every frame (what to fetch, what to run, what to show).
#![allow(non_snake_case)]

pub mod api;
pub mod compoment;
pub mod config;
pub mod error;
pub mod native_opt;
