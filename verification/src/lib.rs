//! A value library that unifies several mutually incompatible string-like
//! owned representations — validated UTF-8 text, platform-native (possibly
//! non-UTF-8) text, NUL-terminated byte strings, and filesystem paths —
//! behind one discriminated value (`Content`), plus a composite type
//! (`Text`) that represents a string built by concatenating such values
//! without re-encoding them.
//!
//! Every representation yields a canonical byte view, which is the single
//! point of truth for length, slicing and equality: two values are equal
//! exactly when their canonical bytes are equal, whatever variants hold
//! them.

pub mod content;
pub mod text;

pub use content::Content;
pub use content::ContentKind;
pub use content::NulBytes;
pub use content::NulError;
pub use content::PathText;
pub use content::PlatformText;
pub use content::ToContent;
pub use text::Text;
pub use text::Textable;
