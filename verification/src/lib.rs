//! Native backend logic for a desktop markdown viewer/editor.
//!
//! The operating-system pieces (file reads and writes, native dialogs) live
//! outside this crate; what is here is everything those handlers decide or
//! compute: deriving a display name from a path, choosing MIME types and
//! dialog filters from file extensions, collapsing dialog outcomes, and
//! assembling base64 data URIs.
pub mod dialogs;
pub mod encode;
pub mod filters;
pub mod mime;
pub mod paths;
pub mod text;
