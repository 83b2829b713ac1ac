//! A scoped builder for child-window regions of an immediate-mode GUI frame.
//!
//! A `ChildWindow` descriptor collects size, content size, focus request,
//! background alpha, border, and behavioural flags, then is committed against
//! the active frame context, pushing a window onto the engine's window stack
//! and yielding a `ChildWindowToken`. The token guarantees that the matching
//! pop happens exactly once, guarded by a one-shot disarm flag, however
//! control leaves the scope.
//!
//! The frame context (`engine::Ui`) is modelled as a recording engine: every
//! engine call a commit or release issues is appended to a call log, so the
//! contracts pin down the exact call sequence, the window-stack discipline,
//! and the release-exactly-once guarantee.

pub mod engine;
pub mod flags;
pub mod id;
pub mod laws;
pub mod scalar;
pub mod window;
