//! Sorting audio files into an `artist/album/title` tree: the rules that
//! turn a file's tags into a safe destination, and the decisions taken
//! around reading, copying and removing it.

pub mod errors;
pub mod outcome;
pub mod pipeline;
pub mod report;
pub mod sanitize;
pub mod tags;
pub mod target;
pub mod text;
