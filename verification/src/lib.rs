//! The decisions of a terminal front end that queues operations on image
//! files: opening, saving, merging and cropping. Nothing is done to any
//! image; operations are recorded as descriptions.
//!
//! The library never draws, reads a key or touches the file system. A
//! [`session::Session`] takes one event at a time (a key, the listing of a
//! directory, what a path leads to) and answers with its next state and with
//! what it needs next. [`panes`] and [`status`] say what is on the screen.

pub mod text;
pub mod keys;
pub mod completion;
pub mod paths;
pub mod entry;
pub mod number;
pub mod selection;
pub mod operation;
pub mod registry;
pub mod builders;
pub mod session;
pub mod panes;
pub mod status;
