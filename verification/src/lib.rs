//! Decision core of a one-way directory tree synchroniser.
//!
//! The crate decides; it never touches a filesystem. A caller lists directories,
//! reads metadata and performs the operations that the types here ask for, and
//! reports back what happened.
//!
//! - [`scan`] brings one directory up to date, entry by entry, and prunes what
//!   only the target has; [`entry`] says when an entry is up to date.
//! - [`copy`] and [`attrs`] say how one entry is replicated.
//! - [`pool`] keeps the books of the two worker pools, [`run`] the course of a
//!   whole run, [`stats`] the counters.
//! - [`metrics`] and [`report`] put the counters into text, [`cli`] reads the
//!   command line.
//! - [`model`] states what a run comes to on a whole tree.

pub mod attrs;
pub mod bytes;
pub mod cli;
pub mod copy;
pub mod entry;
pub mod metrics;
pub mod model;
pub mod names;
pub mod path;
pub mod pool;
pub mod report;
pub mod run;
pub mod scan;
pub mod stats;
pub mod text;
