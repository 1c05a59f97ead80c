//! Core engine of a terminal client for bucket-based object storage.
//!
//! The library covers the interactive object-list page: the modal view-state
//! machine that routes key input, the filter/sort projection over the master
//! item list, the scrollable list cursor, the download/copy orchestration
//! that emits outbound requests as events, and a display-width-aware text
//! wrapper used to lay out long storage paths in fixed-width dialogs.
//!
//! All I/O (terminal rendering, the storage client, key decoding) lives
//! outside this crate; the page communicates with it through plain event
//! values.

pub mod cursor;
pub mod dialog;
pub mod events;
pub mod help;
pub mod input;
pub mod item;
pub mod page;
pub mod profile;
pub mod projection;
pub mod sort;
pub mod text;
pub mod wrap;
