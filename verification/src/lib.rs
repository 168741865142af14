//! Content-addressed rendering of math and plot fragments.
//!
//! Every artifact is named by a fingerprint of its source text, so a fragment
//! that was rendered once is never rendered again. The crate holds the
//! decisions of the rendering pipeline: the fingerprint (`key`), the names of
//! the files (`store`), the command lines of the external tools and the
//! judging of their output (`tool`, `errlog`), and the order of the stages
//! (`flow`, `runs`). Performing the requested actions (probing files,
//! spawning processes) is left to the caller.

pub mod errlog;
pub mod error;
pub mod flow;
pub mod geometry;
pub mod key;
pub mod runs;
pub mod store;
pub mod text;
pub mod tool;
