//! Term representation for a logic engine that resolves traits and types.
//!
//! A host decides how terms are stored; the engine only ever sees handles,
//! and gets the logical shape of a term back from its handle on demand.
//!
//! - [`shapes`] and [`var`] hold the shape of every kind of term: types,
//!   lifetimes, constants, goals, program clauses, and the lists of them.
//!   Bound variables are named by depth and index.
//! - [`interner`] is what a host provides: a handle type for each kind of
//!   term, the way from a shape to its handle and back, and hooks for
//!   writing terms in the host's own words. [`rank`] adds what a host owes
//!   so that a walk over a term can be shown to end, and [`laws`] holds what
//!   follows for every host.
//! - [`transfer`] carries identifiers and handles from one host to another,
//!   and [`has_interner`] tells from a type which host its terms belong to.
//! - [`answers`] is what a host says when asked for its own rendering of a
//!   term, [`written`] the text of a term given those answers, and [`plain`]
//!   the text when the host has nothing to add. [`render`] writes the text,
//!   and [`readback`] shows that its smallest parts can be told apart again.
//! - [`shared`] is a host that keeps every term as a tree of
//!   reference-counted nodes.

pub mod answers;
pub mod collect;
pub mod has_interner;
pub mod interner;
pub mod laws;
pub mod plain;
pub mod rank;
pub mod readback;
pub mod render;
pub mod shapes;
pub mod shared;
pub mod text;
pub mod transfer;
pub mod var;
pub mod written;

pub use has_interner::HasInterner;
pub use interner::Interner;
pub use transfer::TargetInterner;
