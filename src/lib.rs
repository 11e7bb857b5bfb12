//! Core agent of a block-storage control plane: resource specs, their
//! transactional state machine, error taxonomy and reply mapping.

pub mod spec_state;
pub mod message_bus;
pub mod text;
pub mod store;
pub mod errors;
pub mod specs;
pub mod replica;
pub mod nexus;
pub mod lifecycle;
pub mod resource_map;
pub mod states;
pub mod grpc;
pub mod block_device;
pub mod rest;
