//! A terminal file-browser component built around a verified core.
//!
//! The crate tracks a directory listing, a cursor position, and a visual
//! theme, and maps navigation commands onto state transitions. The embedding
//! application reads directories and hands the children in as plain entry
//! records; every transition of the explorer state, the ordering of
//! listings, and the projection into a renderable list are specified and
//! verified.

pub mod file;
pub mod file_explorer;
pub mod input;
pub mod listing;
pub mod order;
pub mod paths;
pub mod style;
pub mod widget;

pub use file::name_is_hidden;
pub use file::File;
pub use file::FileKind;
pub use file::FileView;
pub use file::RawEntry;
pub use file::RawView;
pub use file_explorer::ExplorerView;
pub use file_explorer::FileExplorer;
pub use file_explorer::ListError;
pub use file_explorer::ListRequest;
pub use file_explorer::PAGE_SIZE;
pub use input::Input;
pub use input::Key;
pub use input::KeyEvent;
pub use listing::build_listing;
pub use order::lex_le;
pub use order::name_le;
pub use widget::ListView;
pub use widget::Renderer;
pub use widget::StyledLine;
pub use widget::Theme;
pub use widget::TitleLine;
pub use widget::ThemeView;
pub use widget::TitleGen;
