//! The descriptors of the Kubernetes resources that are written for a
//! service, and the rules by which they are made.

pub mod builder;
pub mod container;
pub mod ingress;
pub mod service;
