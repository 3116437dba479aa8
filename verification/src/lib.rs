//! Turns the services of a Compose document, together with the deployment
//! preferences given for each of them, into descriptors of Kubernetes
//! resources: a workload controller, a service where ports are published,
//! and an ingress where one is configured.

pub mod text;
pub mod yaml;
pub mod compose;
pub mod paths;
pub mod preferences;
pub mod kubernetes;
pub mod scenes;
pub mod args;
