//! Scratch project directories that expire.
//!
//! A project is a named directory under one of two roots: a persistent
//! one and a volatile one. This crate holds the rules of its lifecycle
//! (how a name resolves to a project, which command-line settings replace
//! stored ones, what has to exist on disk, what the metadata file holds,
//! and when a project is old enough to be removed) as functions on plain
//! values. Touching the filesystem is left to the caller, who hands in
//! what it observed and carries out the operations it is asked for.
//!
//! - [`session`]: one invocation, from the request to the project and the
//!   plan that sets it up.
//! - [`project`]: resolving, reconciling, initializing, storing and
//!   collecting one project.
//! - [`registry`]: listing all projects and sweeping the expired ones.
//! - [`store`]: the metadata file.
//! - [`plan`] and [`drive`]: the steps to take on disk, and how they are
//!   carried out one operation at a time.
//! - [`path`], [`time`], [`human`], [`error`]: paths under the roots,
//!   points and lengths of time, their notations, and what can go wrong.
//! - [`disk`] and [`laws`]: a model of the disk, and what is proved of the
//!   library as a whole.

pub mod disk;
pub mod drive;
pub mod error;
pub mod human;
pub mod laws;
pub mod path;
pub mod plan;
pub mod project;
pub mod registry;
pub mod session;
pub mod store;
pub mod time;
