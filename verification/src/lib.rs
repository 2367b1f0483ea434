//! Where a terminal workspace keeps its configuration, layouts, themes and
//! data, and which themes it starts with.
//!
//! - [`resolve`] orders the candidate directories, picks the first one that
//!   exists and derives the layout and theme directories from it.
//! - [`themes`] is the collection of themes by name; [`loader`] lays the
//!   bundled theme resources over each other to give the default themes.
//! - [`paths`] and [`platform`] hold what is taken on trust: the path
//!   operations of the standard library and the directories that
//!   `directories_next` reads from the environment.
//!
//! The library decides; it does not look at the disk. A caller asks the
//! filesystem which candidates exist and hands the answers in.

pub mod loader;
pub mod paths;
pub mod platform;
pub mod resolve;
pub mod themes;
