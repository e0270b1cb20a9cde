//! Field classification: deciding whether a field holds a plain required
//! value, an optional value, or an accumulating sequence.
//!
//! Classification is purely structural: it matches the outermost constructor
//! name of the declared type against the recognized optional wrapper
//! (`Option`) and the recognized sequence wrapper (`Vec`), each of which must
//! carry exactly one type parameter. Everything else — including a recognized
//! name with the wrong parameter count — is a plain required value. Only the
//! outermost layer is ever unwrapped: a sequence nested inside an optional is
//! an optional field whose inner type happens to be a sequence.

use vstd::prelude::*;

use crate::descriptor::DeclaredType;
use crate::descriptor::text_is;

verus! {

/// The derived kind of a field: a plain required value of the declared type,
/// an optional value of the wrapped type, or an accumulating sequence of the
/// element type.
pub enum FieldKind {
    /// A plain value; the field must be set before construction.
    Required(DeclaredType),
    /// An optional value; absence is a legal final state.
    Optional(DeclaredType),
    /// An ordered sequence of elements; empty is a legal final state.
    Sequence(DeclaredType),
}

/// What `classify` returns for a declared type.
pub open spec fn spec_classify(ty: DeclaredType) -> FieldKind {
    if ty.head@ == "Option"@ && ty.args@.len() == 1 {
        FieldKind::Optional(ty.args@[0])
    } else if ty.head@ == "Vec"@ && ty.args@.len() == 1 {
        FieldKind::Sequence(ty.args@[0])
    } else {
        FieldKind::Required(ty)
    }
}

/// Classifies a field's declared type. Total: every type has exactly one kind.
pub fn classify(ty: DeclaredType) -> (kind: FieldKind)
    ensures
        kind == spec_classify(ty),
{
    let optional = text_is(&ty.head, "Option");
    let sequence = text_is(&ty.head, "Vec");
    if (optional || sequence) && ty.args.len() == 1 {
        let DeclaredType { head: _, mut args } = ty;
        let inner = args.remove(0);
        if optional {
            FieldKind::Optional(inner)
        } else {
            FieldKind::Sequence(inner)
        }
    } else {
        FieldKind::Required(ty)
    }
}

} // verus!
