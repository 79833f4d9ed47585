//! Render a set of monitor snapshots, as reported by a compositor, into a
//! named profile block for a display-autoconfiguration daemon.
//!
//! The crate holds the pure core: the data model for one monitor snapshot,
//! the naming rule that picks a display identifier, the directive fragments
//! derived from an active snapshot, and the renderer that turns a profile
//! into its exact multi-line text block. Obtaining the snapshot JSON, parsing
//! it, and persisting the rendered text are left to the caller.

pub mod output;
pub mod text;
pub mod utils;
