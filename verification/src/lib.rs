//! Models and decision logic of the Bottlerocket update operator.
pub mod constants;
pub mod meta;
pub mod node;
pub mod manifests;
pub mod api;
pub mod agent;
pub mod controller;
