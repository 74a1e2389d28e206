//! A level-triggered reconciliation controller core for message-bus topics.
//!
//! A user declares the desired state of a topic in a cluster-managed custom
//! resource; the controller observes that declaration and drives the external
//! topic backend toward it. A lifecycle guard (a finalizer marker) guarantees
//! that the external topic is never orphaned when the declaration is deleted:
//! the guard is attached strictly before the topic is created and released
//! strictly after the topic is deleted.
//!
//! This crate holds the verified core: the data model, the classification of
//! a resource's state into an action, the pass state machine that sequences
//! the port calls of one reconciliation pass, and the retry policy. The
//! adapters that talk to the cluster API and to the topic backend live
//! outside the crate and drive the machine call by call.

pub mod engine;
pub mod model;
pub mod ports;
