//! Attribution headers for copied source files: language detection from a
//! path, rendering of the header in the comment syntax of that language, and
//! the rules by which a run selects and rewrites files.

pub mod annotate;
pub mod header;
pub mod language;
pub mod source_info;
pub mod transaction;

pub use annotate::{annotate, is_selected, select, select_file, Skip};
pub use header::generate_comment;
pub use language::{detect_in_file_name, detect_language, Language};
pub use source_info::SourceInfo;
pub use transaction::{advance, first_step, Action, FileError, Step};
