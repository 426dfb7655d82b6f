//! The rules of a path prompt: which entries of a file system a user may
//! pick, how a picked path is held and shown, and what the prompt does by
//! default when it filters and formats.
//!
//! Nothing here touches a file system. A path is text; what the file system
//! says of it comes in as a [`PathProbe`].
pub mod entry;
pub mod mode;
pub mod path;
pub mod select;
pub mod text;

pub use entry::{EntryView, FileType, PathEntry, PathProbe, ResolutionError};
pub use mode::{ModeView, PathSelectionMode};
pub use select::{skippable, PathSelect, PromptError};
