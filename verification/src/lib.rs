//! Token-level splicing for annotated items.
//!
//! An item's source is modelled as a stream of tokens. Zero or more
//! attribute annotations — each a `#` marker immediately followed by a
//! bracketed group — may stand at the front of that stream. This crate
//! splits that maximal front run off, and splices caller-supplied tokens
//! either between the annotations and the item's own syntax (`prepend`)
//! or at the literal end of the stream (`append`). Both operations are
//! total: no token is ever inspected beyond its shape, dropped, or
//! reordered.

pub mod splice;
pub mod split;
pub mod token;

pub use splice::append;
pub use splice::prepend;
