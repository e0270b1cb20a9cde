//! Attribute resolution: turning a field's metadata into an accumulator
//! configuration, or into the diagnostic that aborts synthesis.
//!
//! A field may carry one metadata block, `each = "name"`, asking for an
//! accumulator method that appends a single element to the field under the
//! given name. The rules are checked in order: no attribute means no
//! configuration; more than one block, or a key other than `each`, is an
//! unsupported attribute; a value that is not a simple string literal is
//! malformed; a well-formed accumulator attribute on a field that is not an
//! accumulating sequence is misapplied. The first diagnostic produced across
//! a type's fields aborts synthesis of the whole type.

use vstd::prelude::*;

use crate::classify::FieldKind;
use crate::classify::spec_classify;
use crate::descriptor::AttrValue;
use crate::descriptor::AttributeDescriptor;
use crate::descriptor::FieldDescriptor;
use crate::descriptor::text_is;

verus! {

/// The accumulator configuration of a sequence field: the name under which
/// the element-appending method is generated. The element such a method takes
/// is the sequence field's element type, which the synthesizer records in the
/// field's storage slot.
#[derive(Debug, PartialEq, Eq)]
pub struct AccumulatorConfig {
    /// The generated accumulator method's name.
    pub method_name: String,
}

/// A synthesis-aborting error: a human-readable message and the name of the
/// field it was produced for.
#[derive(Debug, PartialEq, Eq)]
pub struct Diagnostic {
    /// What went wrong.
    pub message: String,
    /// The field the message is about.
    pub field: String,
}

/// The outcome of resolving one field's metadata, at the specification level:
/// no configuration, an accumulator method name, or a diagnostic message.
pub enum Resolution {
    /// The field has no metadata.
    NoConfig,
    /// The field asks for an accumulator method of the given name.
    Config(String),
    /// The metadata is rejected with the given message.
    Fail(Seq<char>),
}

/// What `resolve` decides for a field's metadata and kind, with the rules
/// applied in order.
pub open spec fn spec_resolution(attrs: Seq<AttributeDescriptor>, kind: FieldKind) -> Resolution {
    if attrs.len() == 0 {
        Resolution::NoConfig
    } else if attrs.len() != 1 {
        Resolution::Fail("unsupported attribute"@)
    } else if attrs[0].key@ != "each"@ {
        Resolution::Fail("unsupported attribute"@)
    } else {
        match attrs[0].value {
            AttrValue::NotText => Resolution::Fail("malformed attribute value"@),
            AttrValue::Text(name) => if kind is Sequence {
                Resolution::Config(name)
            } else {
                Resolution::Fail("accumulator attribute requires a sequence-typed field"@)
            },
        }
    }
}

/// What resolution decides for a whole field, classification included.
pub open spec fn spec_resolve_field(field: FieldDescriptor) -> Resolution {
    spec_resolution(field.attrs@, spec_classify(field.ty))
}

/// The accumulator method name a field asks for, when its resolution is a
/// configuration.
pub open spec fn spec_config_name(field: FieldDescriptor) -> String
    recommends
        spec_resolve_field(field) is Config,
{
    spec_resolve_field(field)->Config_0
}

/// Resolves one field's metadata against its kind: an accumulator
/// configuration, a diagnostic, or nothing. The field is handed over as its
/// pieces — its name (for the diagnostic) and its attributes — so that the
/// caller may keep ownership of its declared type. Succeeds exactly when the
/// field carries no metadata, or one well-formed accumulator attribute on a
/// sequence field.
pub fn resolve(name: &String, attrs: &Vec<AttributeDescriptor>, kind: &FieldKind) -> (r: Result<
    Option<AccumulatorConfig>,
    Diagnostic,
>)
    ensures
        match spec_resolution(attrs@, *kind) {
            Resolution::NoConfig => r matches Ok(c) && c is None,
            Resolution::Config(m) => r matches Ok(c) && c matches Some(cfg) && cfg.method_name
                == m,
            Resolution::Fail(msg) => r matches Err(d) && d.message@ == msg && d.field == *name,
        },
{
    if attrs.len() == 0 {
        return Ok(None);
    }
    if attrs.len() != 1 {
        return Err(unsupported(name));
    }
    let attr = &attrs[0];
    if !text_is(&attr.key, "each") {
        return Err(unsupported(name));
    }
    match &attr.value {
        AttrValue::NotText => Err(
            Diagnostic {
                message: String::from_str("malformed attribute value"),
                field: name.clone(),
            },
        ),
        AttrValue::Text(method_name) => match kind {
            FieldKind::Sequence(_) => Ok(
                Some(AccumulatorConfig { method_name: method_name.clone() }),
            ),
            _ => Err(
                Diagnostic {
                    message: String::from_str(
                        "accumulator attribute requires a sequence-typed field",
                    ),
                    field: name.clone(),
                },
            ),
        },
    }
}

/// The diagnostic for a metadata block that is not the recognized one.
fn unsupported(name: &String) -> (d: Diagnostic)
    ensures
        d.message@ == "unsupported attribute"@,
        d.field == *name,
{
    Diagnostic { message: String::from_str("unsupported attribute"), field: name.clone() }
}

} // verus!
