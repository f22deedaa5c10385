//! The Kubernetes logic of KubeFront: data transfer objects, error
//! classification, kubeconfig handling, resource projections and the
//! decisions behind every cluster operation.
use vstd::prelude::*;

pub mod age;
pub mod azure;
pub mod backend;
pub mod config;
pub mod describe;
pub mod dto;
pub mod error;
pub mod keys;
pub mod kinds;
pub mod logstream;
pub mod manager;
pub mod model;
pub mod pods;
pub mod remote;
pub mod resources;
pub mod session;
pub mod settings;
pub mod tasks;
pub mod terminal;
pub mod text;
pub mod viewer;
pub mod window;

verus! {

} // verus!
