//! Lifecycle manager for a small local container stack: a chat front-end,
//! a document-extraction backend and user-declared extra backend services.
//!
//! The library derives every engine resource (networks, containers, images)
//! from the configuration, plans provisioning and teardown as ordered engine
//! steps, decides how step failures are handled, and drives the bounded
//! health gate. Performing the steps against a container engine is left to
//! the caller.

/// Configuration model of the stack.
pub mod config;

/// Error type of the library.
pub mod error;

/// Health gate that waits for the primary service.
pub mod health;

/// Laws of provisioning and teardown, stated over the engine model.
pub mod lifecycle;

/// Image references required by a configuration.
pub mod images;

/// Engine steps, and the model of an engine the lifecycle laws are stated over.
pub mod engine;

/// Resource names derived from the namespace prefix.
pub mod naming;

/// Network and container specifications and the provisioning plan.
pub mod topology;

/// Teardown plans for containers and networks.
pub mod teardown;
