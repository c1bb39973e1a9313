use vstd::prelude::*;

verus! {

/// Why a declaration could not be transformed. Every failure aborts the
/// whole transformation.
#[derive(Debug, PartialEq, Eq)]
pub enum ModelError {
    /// An option key that the declaration's schema does not know.
    UnknownOption(String),
    /// An option given twice.
    DuplicateOption(String),
    /// A flag option given a value.
    ValueNotAllowed(String),
    /// An option that needs a value of another shape than the one given.
    ValueExpected(String),
    /// Two options of one mutually exclusive group, in schema order.
    ConflictingOptions(String, String),
    /// A positional field in a type declaration.
    TupleField,
    /// A method with generic parameters, `const`, an explicit calling
    /// convention or `unsafe`; holds the method's name.
    UnsupportedSignature(String),
    /// An item of a method collection that is not a method.
    NotAMethod,
    /// The value-mapping wrapper with another number of arguments than two.
    MapValueArity(usize),
    /// An argument of the value-mapping wrapper that is not a type.
    MapValueNonType,
    /// A parameter bound by a pattern other than a plain name, where a body
    /// has to be synthesized.
    NonIdentParam,
    /// A declaration that is neither a type declaration nor a method
    /// collection.
    UnsupportedItem,
}

} // verus!
