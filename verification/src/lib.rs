//! lxc_rust
//!
//! A client-side control surface for a container/VM hypervisor management
//! daemon.  Resources (containers, images, storage pools, volumes, profiles,
//! networks, projects, operations, configuration trees) are addressed through
//! a uniform `remote:resource` grammar, and every operation is rendered as a
//! deterministic argument vector for the external `lxc`/`lxd` control binary.
//!
//! The crate is organised around five pieces:
//! - [`address`]: parsing and rendering of two-tier resource addresses;
//! - [`command`] and [`registry`]: the data model and the declarative table
//!   mapping a `(ResourceKind, Action)` pair to its argument template;
//! - [`builder`]: the one generic dispatch function that validates a
//!   parameter set against the table and renders the command line;
//! - [`executor`]: classification of a finished child process into a
//!   structured success or error value;
//! - [`decoder`]: structuring of captured output into line records.
//!
//! The per-resource modules (`container`, `image`, `storage`, ...) offer one
//! named constructor per operation; each builds its command line through the
//! generic dispatch and states the exact resulting argument vector.

pub mod address;
pub mod builder;
pub mod command;
pub mod config;
pub mod container;
pub mod daemon;
pub mod decoder;
pub mod executor;
pub mod image;
pub mod network;
pub mod operation;
pub mod profile;
pub mod project;
pub mod registry;
pub mod remote_connection;
pub mod snapshot;
pub mod storage;
pub mod text;
pub mod volume;
