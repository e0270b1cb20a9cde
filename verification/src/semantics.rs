//! The meaning of a generated builder: an executable state over an artifact's
//! slots, the generated methods' effect on it, and the validated construction
//! step.
//!
//! A [`BuilderState`] holds one [`SlotState`] per slot of an
//! [`Artifact`](crate::synth::Artifact): wrapper slots are absent until a
//! setter marks them present, sequence slots accumulate elements. A builder is
//! complete when every required slot is present; `build` succeeds exactly
//! then, and otherwise reports the first required field still missing, in
//! field order, leaving the state untouched so the caller may set more fields
//! and retry.
//!
//! The module reasons over a ghost mirror of the state, a sequence of
//! [`SlotModel`] values, so that every method's effect is a point update and
//! the laws of the builder — overwriting, replacement, accumulation in call
//! order — are equations between such sequences.

use vstd::prelude::*;

use crate::synth::Artifact;
use crate::synth::SlotRole;
use crate::synth::artifact_wf;
use crate::synth::method_wf;

verus! {

/// What one builder slot holds at run time. Stored values are carried as
/// opaque strings: the semantics only moves them, never inspects them.
#[derive(Debug, PartialEq, Eq)]
pub enum SlotState {
    /// A wrapper slot with nothing in it.
    Missing,
    /// A wrapper slot holding a value.
    Present(String),
    /// A sequence slot and its accumulated elements.
    Elems(Vec<String>),
}

/// The run-time state of a generated builder: one slot state per slot
/// declaration, in slot order.
#[derive(Debug, PartialEq, Eq)]
pub struct BuilderState {
    /// The slot states, in the artifact's slot order.
    pub slots: Vec<SlotState>,
}

/// The ghost mirror of one slot.
pub enum SlotModel {
    /// A wrapper slot with nothing in it.
    Vacant,
    /// A wrapper slot holding a value.
    Filled(String),
    /// A sequence slot and its accumulated elements.
    Items(Seq<String>),
}

/// The ghost mirror of one slot state.
pub open spec fn slot_model(st: SlotState) -> SlotModel {
    match st {
        SlotState::Missing => SlotModel::Vacant,
        SlotState::Present(v) => SlotModel::Filled(v),
        SlotState::Elems(vs) => SlotModel::Items(vs@),
    }
}

/// The ghost mirror of a whole builder state.
pub open spec fn state_model(s: BuilderState) -> Seq<SlotModel> {
    s.slots@.map_values(|st: SlotState| slot_model(st))
}

/// A state that fits an artifact: one state per slot, sequence slots holding
/// elements and wrapper slots holding at most one value.
pub open spec fn state_wf(a: Artifact, s: BuilderState) -> bool {
    &&& s.slots@.len() == a.slots@.len()
    &&& forall|i: int|
        0 <= i < a.slots@.len() ==> match (#[trigger] a.slots@[i]).role {
            SlotRole::Sequence => s.slots@[i] is Elems,
            _ => !(s.slots@[i] is Elems),
        }
}

/// What the factory puts into a slot: sequence slots start empty, wrapper
/// slots start absent.
pub open spec fn spec_initial(d: crate::synth::SlotDecl) -> SlotModel {
    if d.role is Sequence {
        SlotModel::Items(Seq::empty())
    } else {
        SlotModel::Vacant
    }
}

/// The factory entry point's meaning: a builder with every wrapper slot
/// absent and every sequence slot empty.
pub fn new_builder(a: &Artifact) -> (s: BuilderState)
    ensures
        state_wf(*a, s),
        state_model(s).len() == a.slots@.len(),
        forall|i: int|
            0 <= i < a.slots@.len() ==> state_model(s)[i] == spec_initial(#[trigger] a.slots@[i]),
{
    let mut slots: Vec<SlotState> = Vec::new();
    let mut i: usize = 0;
    while i < a.slots.len()
        invariant
            i <= a.slots@.len(),
            slots@.len() == i,
            forall|k: int|
                0 <= k < i ==> slot_model(#[trigger] slots@[k]) == spec_initial(a.slots@[k]),
            forall|k: int|
                0 <= k < i ==> match a.slots@[k].role {
                    SlotRole::Sequence => (#[trigger] slots@[k]) is Elems,
                    _ => !(slots@[k] is Elems),
                },
        decreases a.slots@.len() - i,
    {
        let st = match a.slots[i].role {
            SlotRole::Sequence => SlotState::Elems(Vec::new()),
            _ => SlotState::Missing,
        };
        slots.push(st);
        i = i + 1;
    }
    BuilderState { slots }
}

impl BuilderState {
    /// The effect of a generated whole-value setter: it marks its slot present
    /// with the given value, overwriting whatever the slot held.
    pub fn set_value(&mut self, a: &Artifact, m: usize, value: String)
        requires
            artifact_wf(*a),
            state_wf(*a, *old(self)),
            m < a.methods@.len(),
            a.methods@[m as int].kind is SetValue,
        ensures
            state_wf(*a, *final(self)),
            state_model(*final(self)) == state_model(*old(self)).update(
                a.methods@[m as int].field as int,
                SlotModel::Filled(value),
            ),
    {
        let f = a.methods[m].field;
        proof {
            assert(method_wf(a.methods@[m as int], a.slots@));
        }
        let _prior = self.slots.remove(f);
        self.slots.insert(f, SlotState::Present(value));
        proof {
            assert(self.slots@ =~= old(self).slots@.update(
                f as int,
                SlotState::Present(value),
            ));
            assert(state_model(*self) =~= state_model(*old(self)).update(
                f as int,
                SlotModel::Filled(value),
            ));
        }
    }

    /// The effect of a generated whole-sequence setter: it replaces its slot's
    /// contents with the given elements, discarding whatever was accumulated
    /// or set before.
    pub fn replace_sequence(&mut self, a: &Artifact, m: usize, values: Vec<String>)
        requires
            artifact_wf(*a),
            state_wf(*a, *old(self)),
            m < a.methods@.len(),
            a.methods@[m as int].kind is SetSequence,
        ensures
            state_wf(*a, *final(self)),
            state_model(*final(self)) == state_model(*old(self)).update(
                a.methods@[m as int].field as int,
                SlotModel::Items(values@),
            ),
    {
        let f = a.methods[m].field;
        proof {
            assert(method_wf(a.methods@[m as int], a.slots@));
        }
        let ghost elems = values@;
        let _prior = self.slots.remove(f);
        self.slots.insert(f, SlotState::Elems(values));
        proof {
            assert(self.slots@ =~= old(self).slots@.update(f as int, SlotState::Elems(values)));
            assert(state_model(*self) =~= state_model(*old(self)).update(
                f as int,
                SlotModel::Items(elems),
            ));
        }
    }

    /// The effect of a generated accumulator method: it appends one element to
    /// its sequence slot, keeping everything accumulated before.
    pub fn append_element(&mut self, a: &Artifact, m: usize, value: String)
        requires
            artifact_wf(*a),
            state_wf(*a, *old(self)),
            m < a.methods@.len(),
            a.methods@[m as int].kind is Append,
        ensures
            state_wf(*a, *final(self)),
            state_model(*final(self)) == append_model(
                state_model(*old(self)),
                a.methods@[m as int].field as int,
                value,
            ),
    {
        let f = a.methods[m].field;
        proof {
            assert(method_wf(a.methods@[m as int], a.slots@));
        }
        let slot = self.slots.remove(f);
        match slot {
            SlotState::Elems(mut vs) => {
                let ghost before = vs@;
                vs.push(value);
                self.slots.insert(f, SlotState::Elems(vs));
                proof {
                    assert(self.slots@ =~= old(self).slots@.update(
                        f as int,
                        SlotState::Elems(vs),
                    ));
                    assert(state_model(*old(self))[f as int] == SlotModel::Items(before));
                    assert(state_model(*self) =~= append_model(
                        state_model(*old(self)),
                        f as int,
                        value,
                    ));
                }
            },
            _ => unreached(),
        }
    }
}

/// The ghost effect of one accumulator call on a state model: one element
/// appended to the slot's items. On a slot that holds no items the call is
/// meaningless and the model is left as it is; the executable method never
/// reaches that case.
pub open spec fn append_model(m: Seq<SlotModel>, f: int, v: String) -> Seq<SlotModel> {
    if 0 <= f < m.len() && m[f] is Items {
        m.update(f, SlotModel::Items(m[f]->Items_0.push(v)))
    } else {
        m
    }
}

/// One field of a constructed target instance: a plain value for a required
/// field, a present-or-absent value for an optional field, the accumulated
/// elements for a sequence field.
#[derive(Debug, PartialEq, Eq)]
pub enum FieldValue {
    /// A required field's value.
    One(String),
    /// An optional field's present-or-absent value, passed through unchanged.
    Maybe(Option<String>),
    /// A sequence field's elements, passed through unchanged; empty is a
    /// legal final value.
    Many(Vec<String>),
}

/// A constructed target instance: one value per field, in field order.
#[derive(Debug, PartialEq, Eq)]
pub struct Instance {
    /// The field values, in the artifact's slot order.
    pub fields: Vec<FieldValue>,
}

/// The recoverable failure of a `build` call: a required field was never set.
/// The builder is left untouched, so the caller may set it and retry.
#[derive(Debug, PartialEq, Eq)]
pub struct BuildError {
    /// The name of the first required field still missing, in field order.
    pub field: String,
}

impl BuildError {
    /// The error text the generated `build` reports for this failure.
    pub fn message(&self) -> (m: String)
        ensures
            m@ == "Required field '"@ + self.field@ + "' is missing"@,
    {
        let mut m = String::from_str("Required field '");
        m.append(self.field.as_str());
        m.append("' is missing");
        m
    }
}

/// A complete builder: every required slot holds a value. `build` succeeds
/// exactly here; anywhere else the builder is incomplete and `build` reports
/// the first missing required field.
pub open spec fn spec_complete(a: Artifact, s: BuilderState) -> bool {
    forall|i: int|
        0 <= i < a.slots@.len() && (#[trigger] a.slots@[i]).role is Required ==> !(state_model(
            s,
        )[i] is Vacant)
}

/// The first required slot, from index `i` on, that holds no value.
pub open spec fn spec_first_missing(a: Artifact, s: BuilderState, i: int) -> Option<int>
    decreases a.slots@.len() - i,
{
    if i < 0 || i >= a.slots@.len() {
        None
    } else if a.slots@[i].role is Required && state_model(s)[i] is Vacant {
        Some(i)
    } else {
        spec_first_missing(a, s, i + 1)
    }
}

/// How a constructed field value reflects its slot: a required slot hands its
/// value over, an optional slot passes its present-or-absent state through,
/// and a sequence slot passes its accumulated elements through.
pub open spec fn spec_output(d: crate::synth::SlotDecl, st: SlotModel, fv: FieldValue) -> bool {
    match d.role {
        SlotRole::Required => st matches SlotModel::Filled(v) && fv == FieldValue::One(v),
        SlotRole::Optional => match st {
            SlotModel::Vacant => fv == FieldValue::Maybe(None::<String>),
            SlotModel::Filled(v) => fv == FieldValue::Maybe(Some(v)),
            SlotModel::Items(_) => false,
        },
        SlotRole::Sequence => st matches SlotModel::Items(vs) && fv matches FieldValue::Many(out)
            && out@ == vs,
    }
}

/// Copies a vector of strings element for element.
fn clone_text_vec(v: &Vec<String>) -> (r: Vec<String>)
    ensures
        r@ == v@,
{
    let mut r: Vec<String> = Vec::new();
    let mut i: usize = 0;
    while i < v.len()
        invariant
            i <= v@.len(),
            r@.len() == i,
            forall|k: int| 0 <= k < i ==> #[trigger] r@[k] == v@[k],
        decreases v@.len() - i,
    {
        r.push(v[i].clone());
        i = i + 1;
    }
    proof {
        assert(r@ =~= v@);
    }
    r
}

/// The validated construction step: succeeds exactly when the builder is
/// complete, handing every field's value over as `spec_output` says; fails on
/// the first required field still missing, in field order, checking no
/// further fields and leaving the builder untouched.
#[verifier::loop_isolation(false)]
pub fn build(a: &Artifact, s: &BuilderState) -> (r: Result<Instance, BuildError>)
    requires
        state_wf(*a, *s),
    ensures
        r is Ok <==> spec_complete(*a, *s),
        r matches Err(e) ==> spec_first_missing(*a, *s, 0) matches Some(j) && e.field
            == a.slots@[j].field_name,
        r matches Ok(inst) ==> inst.fields@.len() == a.slots@.len() && forall|i: int|
            0 <= i < a.slots@.len() ==> spec_output(
                a.slots@[i],
                state_model(*s)[i],
                #[trigger] inst.fields@[i],
            ),
{
    let mut i: usize = 0;
    while i < a.slots.len()
        invariant
            i <= a.slots@.len(),
            spec_first_missing(*a, *s, 0) == spec_first_missing(*a, *s, i as int),
            forall|k: int|
                0 <= k < i ==> !((#[trigger] a.slots@[k]).role is Required && state_model(
                    *s,
                )[k] is Vacant),
        decreases a.slots@.len() - i,
    {
        let required = match a.slots[i].role {
            SlotRole::Required => true,
            _ => false,
        };
        let missing = match &s.slots[i] {
            SlotState::Missing => true,
            _ => false,
        };
        if required && missing {
            proof {
                assert(spec_first_missing(*a, *s, i as int) == Some(i as int));
            }
            return Err(BuildError { field: a.slots[i].field_name.clone() });
        }
        i = i + 1;
    }
    let mut out: Vec<FieldValue> = Vec::new();
    let mut i: usize = 0;
    while i < a.slots.len()
        invariant
            i <= a.slots@.len(),
            out@.len() == i,
            spec_complete(*a, *s),
            forall|k: int|
                0 <= k < i ==> spec_output(a.slots@[k], state_model(*s)[k], #[trigger] out@[k]),
        decreases a.slots@.len() - i,
    {
        let fv = match a.slots[i].role {
            SlotRole::Required => match &s.slots[i] {
                SlotState::Present(v) => FieldValue::One(v.clone()),
                _ => unreached(),
            },
            SlotRole::Optional => match &s.slots[i] {
                SlotState::Missing => FieldValue::Maybe(None),
                SlotState::Present(v) => FieldValue::Maybe(Some(v.clone())),
                SlotState::Elems(_) => unreached(),
            },
            SlotRole::Sequence => match &s.slots[i] {
                SlotState::Elems(vs) => FieldValue::Many(clone_text_vec(vs)),
                _ => unreached(),
            },
        };
        out.push(fv);
        i = i + 1;
    }
    Ok(Instance { fields: out })
}

/// The ghost effect of a run of accumulator calls on a state model, in call
/// order: the first element of `values` is appended first.
pub open spec fn append_all(m: Seq<SlotModel>, f: int, values: Seq<String>) -> Seq<SlotModel>
    decreases values.len(),
{
    if values.len() == 0 {
        m
    } else {
        append_model(append_all(m, f, values.drop_last()), f, values.last())
    }
}

/// Law: the first-missing search finds exactly the first required slot that
/// holds no value, and comes up empty exactly on a complete builder. Together
/// with `build`'s contract this says a build fails naming the first field
/// still missing and succeeds once every required field is set — however the
/// builder got into that state.
pub proof fn lemma_build_gate(a: Artifact, s: BuilderState)
    ensures
        spec_first_missing(a, s, 0) is None <==> spec_complete(a, s),
        spec_first_missing(a, s, 0) matches Some(j) ==> 0 <= j < a.slots@.len()
            && a.slots@[j].role is Required && state_model(s)[j] is Vacant && forall|k: int|
            0 <= k < j ==> !((#[trigger] a.slots@[k]).role is Required && state_model(
                s,
            )[k] is Vacant),
{
    lemma_build_gate_at(a, s, 0);
}

/// The first-missing search from `i` on, characterized over the slots it
/// scans.
proof fn lemma_build_gate_at(a: Artifact, s: BuilderState, i: int)
    requires
        0 <= i <= a.slots@.len(),
    ensures
        spec_first_missing(a, s, i) is None <==> (forall|k: int|
            i <= k < a.slots@.len() ==> !((#[trigger] a.slots@[k]).role is Required && state_model(
                s,
            )[k] is Vacant)),
        spec_first_missing(a, s, i) matches Some(j) ==> i <= j < a.slots@.len()
            && a.slots@[j].role is Required && state_model(s)[j] is Vacant && forall|k: int|
            i <= k < j ==> !((#[trigger] a.slots@[k]).role is Required && state_model(
                s,
            )[k] is Vacant),
    decreases a.slots@.len() - i,
{
    if i < a.slots@.len() {
        lemma_build_gate_at(a, s, i + 1);
    }
}

/// Law: slots that are not required never block a build — two states that
/// agree on the required slots are complete or incomplete together, whatever
/// their optional and sequence slots hold.
pub proof fn lemma_nonrequired_never_blocks(a: Artifact, s1: BuilderState, s2: BuilderState)
    requires
        state_model(s1).len() == a.slots@.len(),
        state_model(s2).len() == a.slots@.len(),
        forall|i: int|
            0 <= i < a.slots@.len() && (#[trigger] a.slots@[i]).role is Required ==> state_model(
                s1,
            )[i] == state_model(s2)[i],
    ensures
        spec_complete(a, s1) <==> spec_complete(a, s2),
{
}

/// Law: setters overwrite — writing the same slot twice keeps the last value
/// written and nothing of the first, whether the writes fill a wrapper slot
/// or replace a sequence slot.
pub proof fn lemma_overwrite(m: Seq<SlotModel>, f: int, first: SlotModel, second: SlotModel)
    requires
        0 <= f < m.len(),
    ensures
        m.update(f, first).update(f, second) == m.update(f, second),
{
    assert(m.update(f, first).update(f, second) =~= m.update(f, second));
}

/// Law: writes to distinct slots commute — fields may be set in any order
/// without changing the builder they produce.
pub proof fn lemma_distinct_updates_commute(
    m: Seq<SlotModel>,
    f1: int,
    f2: int,
    v1: SlotModel,
    v2: SlotModel,
)
    requires
        0 <= f1 < m.len(),
        0 <= f2 < m.len(),
        f1 != f2,
    ensures
        m.update(f1, v1).update(f2, v2) == m.update(f2, v2).update(f1, v1),
{
    assert(m.update(f1, v1).update(f2, v2) =~= m.update(f2, v2).update(f1, v1));
}

/// Law: the whole-sequence setter replaces — the slot's result holds exactly
/// the elements handed over, with no trace of what any two prior histories
/// left in it.
pub proof fn lemma_replace_ignores_prior(
    m1: Seq<SlotModel>,
    m2: Seq<SlotModel>,
    f: int,
    vs: Seq<String>,
)
    requires
        0 <= f < m1.len(),
        0 <= f < m2.len(),
    ensures
        m1.update(f, SlotModel::Items(vs))[f] == m2.update(f, SlotModel::Items(vs))[f],
{
}

/// Law: accumulator calls append one element each, in call order, and touch
/// no other slot — after a run of calls the slot holds what it held before
/// followed by the appended elements.
pub proof fn lemma_appends_accumulate(m: Seq<SlotModel>, f: int, values: Seq<String>)
    requires
        0 <= f < m.len(),
        m[f] is Items,
    ensures
        append_all(m, f, values).len() == m.len(),
        append_all(m, f, values)[f] == SlotModel::Items(m[f]->Items_0 + values),
        forall|k: int| 0 <= k < m.len() && k != f ==> append_all(m, f, values)[k] == m[k],
    decreases values.len(),
{
    if values.len() == 0 {
        assert(m[f]->Items_0 + values =~= m[f]->Items_0);
    } else {
        lemma_appends_accumulate(m, f, values.drop_last());
        assert((m[f]->Items_0 + values.drop_last()).push(values.last()) =~= m[f]->Items_0
            + values);
    }
}

/// Law: a whole-sequence replacement wins over any prior accumulator calls —
/// replacing after a run of appends leaves the same builder as replacing
/// without them.
pub proof fn lemma_replace_wins(m: Seq<SlotModel>, f: int, appended: Seq<String>, vs: Seq<String>)
    requires
        0 <= f < m.len(),
        m[f] is Items,
    ensures
        append_all(m, f, appended).update(f, SlotModel::Items(vs)) == m.update(
            f,
            SlotModel::Items(vs),
        ),
{
    lemma_appends_accumulate(m, f, appended);
    assert(append_all(m, f, appended).update(f, SlotModel::Items(vs)) =~= m.update(
        f,
        SlotModel::Items(vs),
    ));
}

} // verus!
