//! Case-insensitive text comparison and a lazy lower-casing view over text.
//!
//! Text is modelled as a sequence of Unicode scalar values (`Seq<char>`), and
//! the lower-case form of a scalar is the single scalar named by
//! [`casing::lower_of`].

pub mod casing;
pub mod compare;
pub mod foo;
pub mod lower_chars;

pub use casing::to_lower;
pub use compare::compare_ci;
pub use foo::Foo;
pub use lower_chars::{lower, LowerChars};
