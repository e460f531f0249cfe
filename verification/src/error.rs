//! Why an expansion was refused.

use vstd::prelude::*;

verus! {

/// The reasons for which nothing is emitted.
#[derive(Clone, Copy, Debug, PartialEq, Eq, Structural)]
pub enum Error {
    /// The argument of the attribute is not a type path.
    MalformedTarget,
    /// The annotated text is not the declaration of a struct, an enum or a
    /// union.
    MalformedDeclaration,
    /// The annotated declaration is not an enumeration.
    NotAnEnumeration,
    /// A variant carries positional or named fields. `index` is the position
    /// of the first such variant in the declaration.
    NonBareVariant { index: usize },
}

} // verus!
