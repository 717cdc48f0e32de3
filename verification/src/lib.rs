//! Verified core of a small desktop helper that forwards local ports to
//! Kubernetes services and pods through `kubectl port-forward`.

pub mod decimal;
pub mod json;
pub mod resources;
pub mod model;
pub mod forward;
pub mod laws;
