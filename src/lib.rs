//! The core of a keyboard-driven terminal front end for git: the stack of views, the
//! operations that keys resolve to, the prompt, the actions on the selected item, and
//! the git commands they run. The event loop performs the returned effects.
pub mod git;
pub mod items;
pub mod ops;
pub mod prompt;
pub mod refs;
pub mod screen;
pub mod state;
