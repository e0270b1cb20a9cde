//! The structural description of a target type, as a front end hands it over.
//!
//! The library never reads source text: its input is a [`TypeDescriptor`],
//! a name plus an ordered list of named fields, each carrying its declared
//! type and the metadata attributes that were written on it.

use vstd::prelude::*;

verus! {

/// A declared type, reduced to what the library inspects: the outermost
/// constructor name and the ordered type parameters, each itself a declared
/// type. `Vec<String>` becomes head `"Vec"` with one argument of head
/// `"String"`; a type without parameters has an empty argument list.
#[derive(Debug, PartialEq, Eq)]
pub struct DeclaredType {
    /// The outermost constructor name.
    pub head: String,
    /// The type parameters of the outermost constructor, in order.
    pub args: Vec<DeclaredType>,
}

/// The value of one metadata attribute. Only a simple string literal is ever
/// accepted; every other shape is kept just long enough to be rejected.
#[derive(Debug, PartialEq, Eq)]
pub enum AttrValue {
    /// A simple string literal.
    Text(String),
    /// Anything that is not a simple string literal.
    NotText,
}

/// One metadata attribute on a field: a single `key = value` pair.
#[derive(Debug, PartialEq, Eq)]
pub struct AttributeDescriptor {
    /// The attribute's key.
    pub key: String,
    /// The attribute's value.
    pub value: AttrValue,
}

/// One named field of the target type.
#[derive(Debug, PartialEq, Eq)]
pub struct FieldDescriptor {
    /// The field's name.
    pub name: String,
    /// The field's declared type.
    pub ty: DeclaredType,
    /// The metadata attributes written on the field, in order. At most one is
    /// legal; the resolver rejects the rest.
    pub attrs: Vec<AttributeDescriptor>,
}

/// The target type: its name, its visibility (carried through verbatim to the
/// generated artifact), and its ordered named fields.
#[derive(Debug, PartialEq, Eq)]
pub struct TypeDescriptor {
    /// The target type's name.
    pub name: String,
    /// The target type's visibility, e.g. `"pub"`, or empty for inherited.
    pub visibility: String,
    /// The ordered named fields.
    pub fields: Vec<FieldDescriptor>,
}

/// Compares a string against a literal by contents.
pub(crate) fn text_is(s: &String, lit: &str) -> (r: bool)
    ensures
        r == (s@ == lit@),
{
    let l: String = String::from_str(lit);
    *s == l
}

} // verus!
