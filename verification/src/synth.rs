//! Code synthesis: from a type descriptor to the builder artifact.
//!
//! The synthesizer walks the fields in order, classifies each one, resolves
//! its metadata, and emits the builder's plan: one storage slot per field, the
//! generated method set, and the names the artifact is attached to. The first
//! diagnostic encountered aborts the whole type — no partial artifact is ever
//! produced.

use vstd::prelude::*;

use crate::classify::FieldKind;
use crate::classify::classify;
use crate::classify::spec_classify;
use crate::descriptor::DeclaredType;
use crate::descriptor::text_is;
use crate::descriptor::FieldDescriptor;
use crate::descriptor::TypeDescriptor;
use crate::resolve::Diagnostic;
use crate::resolve::Resolution;
use crate::resolve::resolve;
use crate::resolve::spec_config_name;
use crate::resolve::spec_resolve_field;

verus! {

/// What a builder slot holds between construction and `build`.
#[derive(Clone, Copy, Debug, PartialEq, Eq)]
pub enum SlotRole {
    /// An absent-or-present wrapper that must be present at `build` time.
    Required,
    /// An absent-or-present wrapper that may stay absent.
    Optional,
    /// An accumulating sequence, starting empty.
    Sequence,
}

/// One storage slot of the generated builder. Required and optional slots
/// store an absent-or-present wrapper of `inner`; sequence slots store a
/// sequence of `inner` elements, never wrapped.
#[derive(Debug, PartialEq, Eq)]
pub struct SlotDecl {
    /// The field the slot stores.
    pub field_name: String,
    /// How the slot is stored and validated.
    pub role: SlotRole,
    /// The inner type: the declared type itself for a required field, the
    /// wrapped type for an optional field, the element type for a sequence.
    pub inner: DeclaredType,
}

/// What a generated method does to its slot.
#[derive(Clone, Copy, Debug, PartialEq, Eq)]
pub enum MethodKind {
    /// Takes one inner-type value and marks the slot present.
    SetValue,
    /// Takes a whole sequence and replaces the slot's contents.
    SetSequence,
    /// Takes one element and appends it to the slot's contents.
    Append,
}

/// One generated builder method. The parameter type is determined by the slot
/// it writes: the slot's inner type for `SetValue` and `Append`, a sequence of
/// it for `SetSequence`.
#[derive(Debug, PartialEq, Eq)]
pub struct MethodDecl {
    /// The generated method's name.
    pub name: String,
    /// The index of the slot the method writes.
    pub field: usize,
    /// What the method does to that slot.
    pub kind: MethodKind,
}

/// The generated artifact: the builder's storage, its method set, and the
/// names it is attached to. The factory entry point on the target type
/// constructs the builder with every wrapper slot absent and every sequence
/// slot empty.
#[derive(Debug)]
pub struct Artifact {
    /// The target type the builder constructs.
    pub target_name: String,
    /// The generated builder type's name: the target's name with `Builder`
    /// appended.
    pub builder_name: String,
    /// The builder type's visibility, carried over from the target.
    pub visibility: String,
    /// One storage slot per field, in field order.
    pub slots: Vec<SlotDecl>,
    /// The generated methods, in field order.
    pub methods: Vec<MethodDecl>,
}

/// The storage slot generated for a field.
pub open spec fn spec_slot(field: FieldDescriptor) -> SlotDecl {
    match spec_classify(field.ty) {
        FieldKind::Required(t) => SlotDecl {
            field_name: field.name,
            role: SlotRole::Required,
            inner: t,
        },
        FieldKind::Optional(t) => SlotDecl {
            field_name: field.name,
            role: SlotRole::Optional,
            inner: t,
        },
        FieldKind::Sequence(t) => SlotDecl {
            field_name: field.name,
            role: SlotRole::Sequence,
            inner: t,
        },
    }
}

/// The methods generated for the field at slot index `idx`. A field without
/// metadata gets one whole-value setter, named after itself. An accumulator
/// whose name differs from the field's keeps the whole-sequence setter beside
/// it; one whose name equals the field's replaces it, so that the two never
/// collide. A field whose resolution fails generates nothing — synthesis
/// aborts before its methods could be emitted.
pub open spec fn spec_methods_for(field: FieldDescriptor, idx: int) -> Seq<MethodDecl> {
    match spec_resolve_field(field) {
        Resolution::NoConfig => seq![
            MethodDecl {
                name: field.name,
                field: idx as usize,
                kind: if spec_classify(field.ty) is Sequence {
                    MethodKind::SetSequence
                } else {
                    MethodKind::SetValue
                },
            },
        ],
        Resolution::Config(name) => if name@ == field.name@ {
            seq![MethodDecl { name: name, field: idx as usize, kind: MethodKind::Append }]
        } else {
            seq![
                MethodDecl { name: field.name, field: idx as usize, kind: MethodKind::SetSequence },
                MethodDecl { name: name, field: idx as usize, kind: MethodKind::Append },
            ]
        },
        Resolution::Fail(_) => Seq::empty(),
    }
}

/// The slots generated for the first `n` fields, in order.
pub open spec fn spec_slots_upto(fields: Seq<FieldDescriptor>, n: int) -> Seq<SlotDecl>
    decreases n,
{
    if n <= 0 {
        Seq::empty()
    } else {
        spec_slots_upto(fields, n - 1).push(spec_slot(fields[n - 1]))
    }
}

/// The methods generated for the first `n` fields, in order.
pub open spec fn spec_methods_upto(fields: Seq<FieldDescriptor>, n: int) -> Seq<MethodDecl>
    decreases n,
{
    if n <= 0 {
        Seq::empty()
    } else {
        spec_methods_upto(fields, n - 1) + spec_methods_for(fields[n - 1], n - 1)
    }
}

/// The slots generated for all fields.
pub open spec fn spec_slots(fields: Seq<FieldDescriptor>) -> Seq<SlotDecl> {
    spec_slots_upto(fields, fields.len() as int)
}

/// The methods generated for all fields.
pub open spec fn spec_methods(fields: Seq<FieldDescriptor>) -> Seq<MethodDecl> {
    spec_methods_upto(fields, fields.len() as int)
}

/// The first field, from index `i` on, whose resolution fails, together with
/// its message.
pub open spec fn spec_first_fail_at(fields: Seq<FieldDescriptor>, i: int) -> Option<
    (int, Seq<char>),
>
    decreases fields.len() - i,
{
    if i < 0 || i >= fields.len() {
        None
    } else {
        match spec_resolve_field(fields[i]) {
            Resolution::Fail(msg) => Some((i, msg)),
            _ => spec_first_fail_at(fields, i + 1),
        }
    }
}

/// The first field whose resolution fails, if any: the diagnostic that aborts
/// synthesis.
pub open spec fn spec_first_fail(fields: Seq<FieldDescriptor>) -> Option<(int, Seq<char>)> {
    spec_first_fail_at(fields, 0)
}

/// What the artifact generated for a descriptor looks like.
pub open spec fn is_artifact_for(a: Artifact, td: TypeDescriptor) -> bool {
    &&& a.target_name == td.name
    &&& a.builder_name@ == td.name@ + "Builder"@
    &&& a.visibility == td.visibility
    &&& a.slots@ == spec_slots(td.fields@)
    &&& a.methods@ == spec_methods(td.fields@)
}

/// A method declaration that fits a slot list: it writes an existing slot,
/// and its kind agrees with the slot's role.
pub open spec fn method_wf(m: MethodDecl, slots: Seq<SlotDecl>) -> bool {
    &&& (m.field as int) < slots.len()
    &&& match m.kind {
        MethodKind::SetValue => !(slots[m.field as int].role is Sequence),
        MethodKind::SetSequence => slots[m.field as int].role is Sequence,
        MethodKind::Append => slots[m.field as int].role is Sequence,
    }
}

/// An artifact whose every method fits its slots.
pub open spec fn artifact_wf(a: Artifact) -> bool {
    forall|k: int|
        0 <= k < a.methods@.len() ==> method_wf(#[trigger] a.methods@[k], a.slots@)
}

/// Synthesizes the builder artifact for a type descriptor. Succeeds exactly
/// when every field's metadata resolves; otherwise it returns the first
/// diagnostic, in field order, and no artifact.
#[verifier::loop_isolation(false)]
pub fn synthesize(td: TypeDescriptor) -> (r: Result<Artifact, Diagnostic>)
    ensures
        r is Ok <==> spec_first_fail(td.fields@) is None,
        r matches Ok(a) ==> is_artifact_for(a, td) && artifact_wf(a),
        r matches Err(d) ==> spec_first_fail(td.fields@) matches Some((j, msg)) && d.field
            == td.fields@[j].name && d.message@ == msg,
{
    let TypeDescriptor { name, visibility, mut fields } = td;
    let ghost all: Seq<FieldDescriptor> = fields@;
    let mut slots: Vec<SlotDecl> = Vec::new();
    let mut methods: Vec<MethodDecl> = Vec::new();
    let mut idx: usize = 0;
    let total = fields.len();
    while fields.len() > 0
        invariant
            idx + fields@.len() == all.len(),
            total == all.len(),
            fields@ == all.skip(idx as int),
            slots@ == spec_slots_upto(all, idx as int),
            methods@ == spec_methods_upto(all, idx as int),
            spec_first_fail_at(all, 0) == spec_first_fail_at(all, idx as int),
        decreases fields@.len(),
    {
        let field = fields.remove(0);
        proof {
            assert(field == all[idx as int]);
            assert(fields@ =~= all.skip(idx as int + 1));
        }
        let FieldDescriptor { name: fname, ty, attrs } = field;
        let kind = classify(ty);
        let cfg = match resolve(&fname, &attrs, &kind) {
            Err(d) => {
                proof {
                    assert(spec_first_fail_at(all, idx as int) matches Some((j, msg)) && j
                        == idx as int && msg == d.message@);
                }
                return Err(d);
            },
            Ok(c) => c,
        };
        let (role, inner) = match kind {
            FieldKind::Required(t) => (SlotRole::Required, t),
            FieldKind::Optional(t) => (SlotRole::Optional, t),
            FieldKind::Sequence(t) => (SlotRole::Sequence, t),
        };
        slots.push(SlotDecl { field_name: fname.clone(), role, inner });
        match cfg {
            None => {
                let mkind = match role {
                    SlotRole::Sequence => MethodKind::SetSequence,
                    _ => MethodKind::SetValue,
                };
                methods.push(MethodDecl { name: fname, field: idx, kind: mkind });
            },
            Some(config) => {
                if config.method_name == fname {
                    methods.push(
                        MethodDecl { name: config.method_name, field: idx, kind: MethodKind::Append },
                    );
                } else {
                    methods.push(
                        MethodDecl { name: fname, field: idx, kind: MethodKind::SetSequence },
                    );
                    methods.push(
                        MethodDecl { name: config.method_name, field: idx, kind: MethodKind::Append },
                    );
                }
            },
        }
        proof {
            assert(slots@ =~= spec_slots_upto(all, idx as int + 1));
            assert(methods@ =~= spec_methods_upto(all, idx as int + 1));
        }
        idx = idx + 1;
    }
    let builder_name = name.clone().concat("Builder");
    let artifact = Artifact { target_name: name, builder_name, visibility, slots, methods };
    proof {
        lemma_slots_shape(all, all.len() as int);
        lemma_methods_fit(all, all.len() as int);
    }
    Ok(artifact)
}

/// The slot list for the first `n` fields has one slot per field, in order.
proof fn lemma_slots_shape(fields: Seq<FieldDescriptor>, n: int)
    requires
        0 <= n <= fields.len(),
    ensures
        spec_slots_upto(fields, n).len() == n,
        forall|j: int| 0 <= j < n ==> spec_slots_upto(fields, n)[j] == spec_slot(fields[j]),
    decreases n,
{
    if n > 0 {
        lemma_slots_shape(fields, n - 1);
    }
}

/// Every method generated for the first `n` fields fits the full slot list.
proof fn lemma_methods_fit(fields: Seq<FieldDescriptor>, n: int)
    requires
        0 <= n <= fields.len() <= usize::MAX,
    ensures
        forall|k: int|
            0 <= k < spec_methods_upto(fields, n).len() ==> method_wf(
                #[trigger] spec_methods_upto(fields, n)[k],
                spec_slots(fields),
            ),
    decreases n,
{
    lemma_slots_shape(fields, fields.len() as int);
    if n > 0 {
        lemma_methods_fit(fields, n - 1);
        let prefix = spec_methods_upto(fields, n - 1);
        let new = spec_methods_for(fields[n - 1], n - 1);
        assert forall|k: int| 0 <= k < spec_methods_upto(fields, n).len() implies method_wf(
            #[trigger] spec_methods_upto(fields, n)[k],
            spec_slots(fields),
        ) by {
            if k < prefix.len() {
                assert(spec_methods_upto(fields, n)[k] == prefix[k]);
                assert(method_wf(prefix[k], spec_slots(fields)));
            } else {
                let m = new[k - prefix.len()];
                assert(spec_methods_upto(fields, n)[k] == m);
                assert(spec_slots(fields)[n - 1] == spec_slot(fields[n - 1]));
                assert(m.field as int == n - 1);
                match spec_resolve_field(fields[n - 1]) {
                    Resolution::NoConfig => {
                        assert(method_wf(m, spec_slots(fields)));
                    },
                    Resolution::Config(_) => {
                        assert(spec_classify(fields[n - 1].ty) is Sequence);
                        assert(method_wf(m, spec_slots(fields)));
                    },
                    Resolution::Fail(_) => {
                        assert(false);
                    },
                }
            }
        }
    }
}

/// A method generated for one field is among the methods generated for a
/// prefix of the field list that covers it.
proof fn lemma_methods_upto_contains(fields: Seq<FieldDescriptor>, n: int, i: int, m: MethodDecl)
    requires
        0 <= i < n <= fields.len(),
        spec_methods_for(fields[i], i).contains(m),
    ensures
        spec_methods_upto(fields, n).contains(m),
    decreases n,
{
    let prefix = spec_methods_upto(fields, n - 1);
    let new = spec_methods_for(fields[n - 1], n - 1);
    if i == n - 1 {
        let j = choose|j: int| 0 <= j < new.len() && new[j] == m;
        assert(spec_methods_upto(fields, n)[prefix.len() + j] == m);
    } else {
        lemma_methods_upto_contains(fields, n - 1, i, m);
        let j = choose|j: int| 0 <= j < prefix.len() && prefix[j] == m;
        assert(spec_methods_upto(fields, n)[j] == m);
    }
}

/// Every generated method that writes slot `i` comes from field `i` alone.
proof fn lemma_methods_upto_partition(fields: Seq<FieldDescriptor>, n: int, i: int)
    requires
        0 <= n <= fields.len() <= usize::MAX,
        0 <= i,
    ensures
        forall|k: int|
            0 <= k < spec_methods_upto(fields, n).len() && (#[trigger] spec_methods_upto(
                fields,
                n,
            )[k]).field as int == i ==> spec_methods_for(fields[i], i).contains(
                spec_methods_upto(fields, n)[k],
            ),
    decreases n,
{
    if n > 0 {
        lemma_methods_upto_partition(fields, n - 1, i);
        let prefix = spec_methods_upto(fields, n - 1);
        let new = spec_methods_for(fields[n - 1], n - 1);
        assert forall|k: int|
            0 <= k < spec_methods_upto(fields, n).len() && (#[trigger] spec_methods_upto(
                fields,
                n,
            )[k]).field as int == i implies spec_methods_for(fields[i], i).contains(
            spec_methods_upto(fields, n)[k],
        ) by {
            if k < prefix.len() {
                assert(spec_methods_upto(fields, n)[k] == prefix[k]);
            } else {
                let j = k - prefix.len();
                assert(spec_methods_upto(fields, n)[k] == new[j]);
                if new[j].field as int == i {
                    assert(i == n - 1);
                    assert(spec_methods_for(fields[i], i)[j] == new[j]);
                }
            }
        }
    }
}

/// Law: a sequence field whose accumulator name differs from the field's own
/// name keeps both generated methods — the whole-sequence setter under the
/// field's name, and the accumulator under the configured name — and they
/// write the same slot.
pub proof fn lemma_distinct_accumulator_keeps_setter(fields: Seq<FieldDescriptor>, i: int)
    requires
        0 <= i < fields.len() <= usize::MAX,
        spec_resolve_field(fields[i]) is Config,
        spec_config_name(fields[i])@ != fields[i].name@,
    ensures
        spec_methods(fields).contains(
            (MethodDecl { name: fields[i].name, field: i as usize, kind: MethodKind::SetSequence }),
        ),
        spec_methods(fields).contains(
            (MethodDecl {
                name: spec_config_name(fields[i]),
                field: i as usize,
                kind: MethodKind::Append,
            }),
        ),
{
    let new = spec_methods_for(fields[i], i);
    assert(new.contains(new[0]));
    assert(new.contains(new[1]));
    lemma_methods_upto_contains(fields, fields.len() as int, i, new[0]);
    lemma_methods_upto_contains(fields, fields.len() as int, i, new[1]);
}

/// Law: a sequence field whose accumulator name equals the field's own name
/// generates the accumulator and nothing else — the whole-sequence setter is
/// suppressed rather than generated beside it.
pub proof fn lemma_matching_accumulator_suppresses_setter(fields: Seq<FieldDescriptor>, i: int)
    requires
        0 <= i < fields.len() <= usize::MAX,
        spec_resolve_field(fields[i]) is Config,
        spec_config_name(fields[i])@ == fields[i].name@,
    ensures
        spec_methods(fields).contains(
            (MethodDecl {
                name: spec_config_name(fields[i]),
                field: i as usize,
                kind: MethodKind::Append,
            }),
        ),
        forall|k: int|
            0 <= k < spec_methods(fields).len() && (#[trigger] spec_methods(fields)[k]).field
                as int == i ==> spec_methods(fields)[k] == (MethodDecl {
                name: spec_config_name(fields[i]),
                field: i as usize,
                kind: MethodKind::Append,
            }),
{
    let new = spec_methods_for(fields[i], i);
    assert(new.contains(new[0]));
    lemma_methods_upto_contains(fields, fields.len() as int, i, new[0]);
    lemma_methods_upto_partition(fields, fields.len() as int, i);
    assert forall|k: int|
        0 <= k < spec_methods(fields).len() && (#[trigger] spec_methods(fields)[k]).field as int
            == i implies spec_methods(fields)[k] == new[0] by {
        let m = spec_methods(fields)[k];
        assert(new.contains(m));
        let j = choose|j: int| 0 <= j < new.len() && new[j] == m;
        assert(j == 0);
    }
}

/// Law: one failing field aborts the whole type — if any field's metadata
/// resolution fails, synthesis reports a diagnostic and emits no artifact.
pub proof fn lemma_fail_aborts(fields: Seq<FieldDescriptor>, i: int)
    requires
        0 <= i < fields.len(),
        spec_resolve_field(fields[i]) is Fail,
    ensures
        spec_first_fail(fields) is Some,
{
    lemma_fail_aborts_at(fields, 0, i);
}

/// The first-failure search cannot come up empty while a failing field lies
/// ahead of it.
proof fn lemma_fail_aborts_at(fields: Seq<FieldDescriptor>, j: int, i: int)
    requires
        0 <= j <= i < fields.len(),
        spec_resolve_field(fields[i]) is Fail,
    ensures
        spec_first_fail_at(fields, j) is Some,
    decreases i - j,
{
    if j < i {
        match spec_resolve_field(fields[j]) {
            Resolution::Fail(_) => {},
            _ => lemma_fail_aborts_at(fields, j + 1, i),
        }
    }
}

/// The first generated method, from index `i` on, that bears the given name.
pub open spec fn spec_find_method(methods: Seq<MethodDecl>, name: Seq<char>, i: int) -> Option<int>
    decreases methods.len() - i,
{
    if i < 0 || i >= methods.len() {
        None
    } else if methods[i].name@ == name {
        Some(i)
    } else {
        spec_find_method(methods, name, i + 1)
    }
}

/// Looks a generated method up by its name: the first one in method order, or
/// nothing when the artifact generates no method of that name.
#[verifier::loop_isolation(false)]
pub fn find_method(a: &Artifact, name: &str) -> (r: Option<usize>)
    ensures
        match spec_find_method(a.methods@, name@, 0) {
            Some(j) => r matches Some(m) && m as int == j,
            None => r is None,
        },
{
    let mut i: usize = 0;
    while i < a.methods.len()
        invariant
            i <= a.methods@.len(),
            spec_find_method(a.methods@, name@, 0) == spec_find_method(a.methods@, name@, i as int),
        decreases a.methods@.len() - i,
    {
        if text_is(&a.methods[i].name, name) {
            return Some(i);
        }
        i = i + 1;
    }
    None
}

} // verus!
