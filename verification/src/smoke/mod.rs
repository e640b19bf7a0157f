//! The logic of the Android smoke host: how it names and reports what it
//! observes, the test pattern it paints, and the bookkeeping behind its
//! snapshot.
pub mod names;
pub mod pattern;
pub mod events;
pub mod state;
pub mod snapshot;
pub mod diagnostics;
pub mod lifecycle;
