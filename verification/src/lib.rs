//! Malvolio is a library for writing declarative, strongly-typed HTML inside
//! Rust programs.  Documents are built through a consuming builder API: leaf
//! tags hold text and attributes, container tags hold an ordered sequence of
//! child nodes, and a document composes a head and a body.  Every node can be
//! rendered to its markup text, and every builder method carries a contract
//! that pins down exactly what it adds to the tree and what the rendered
//! markup looks like.
//!
//! Untrusted text is sanitized on the default construction path (`new`,
//! `text`); each text-bearing tag also offers an explicitly named unchecked
//! path (`new_unchecked`, `text_unsanitized`) that stores the text verbatim
//! for callers who attest that it is safe.

/// Attributes which can be attached to multiple nodes, and the attribute
/// collection each tag carries.
pub mod attributes;
/// A list of types which are useful for using the library.
pub mod prelude;
/// Spec-level helpers for reasoning about rendered markup.
pub mod render;
/// The sanitizer boundary: untrusted text passes through here.
pub mod sanitize;
/// The different HTML tags which the library supports.
pub mod tags;
/// A text node.
pub mod text;
