//! The cache in front of the persistent store: its vocabulary, the codec of
//! cached values, the protocol handler, and a model of the remote service.

pub mod codec;
pub mod domain;
pub mod handler;
pub mod service;
