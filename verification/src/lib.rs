//! Tables of directory search results: attribute records are projected onto
//! an ordered list of attribute names, laid out as rectangular tables of
//! strings, and measured column by column.

pub mod layout;
pub mod normalize;
pub mod orchestrator;
pub mod record;
pub mod results;
pub mod widths;
