//! The dynamic semantics of a generated unit, and the builder laws.
//!
//! A builder's runtime state is one slot per field. A setter call targets
//! one field with one argument; construction pulls every slot, failing on
//! the first required field whose slot is still absent. The semantics is
//! given over an arbitrary value domain `V`, so the laws below hold of
//! every element type a record could use.
//!
//! The laws proved here are the builder laws of the generator: what a
//! run of setter calls followed by construction yields, field by field,
//! for every record definition the generator accepts.

use vstd::prelude::*;

use crate::classify::FieldShapeModel;
use crate::classify::classify_model;
use crate::classify::each_override_model;
use crate::emit::FieldPlanModel;
use crate::emit::GeneratedUnitModel;
use crate::emit::InitKind;
use crate::emit::PullKind;
use crate::emit::SetterBodyKind;
use crate::emit::generate_model;
use crate::emit::plan_for_field_model;
use crate::emit::plans_for_model;
use crate::model::DiagnosticModel;
use crate::model::FieldDescriptorModel;
use crate::model::RecordBodyModel;
use crate::model::RecordDefModel;

verus! {

/// The argument handed to one setter call: a single value or element,
/// or a whole collection.
#[verifier::ext_equal]
pub enum SetterArg<V> {
    One { value: V },
    Whole { items: Seq<V> },
}

/// What one builder storage field holds at some moment.
#[verifier::ext_equal]
pub enum Slot<V> {
    /// Nothing was assigned yet (optional-wrapped storage).
    Vacant,
    /// A single value was assigned.
    Filled { value: V },
    /// The accumulated or assigned collection.
    Items { items: Seq<V> },
}

/// One field's value in the constructed record.
#[allow(inconsistent_fields)]
#[verifier::ext_equal]
pub enum FieldValModel<V> {
    /// A required plain field's value.
    Required { value: V },
    /// An optional field's value; absence is a valid outcome.
    Optional { value: Option<V> },
    /// A collection field's elements.
    Collection { items: Seq<V> },
}

/// One setter call: the index of the targeted field, and the argument.
pub struct SetterCall<V> {
    pub field: int,
    pub arg: SetterArg<V>,
}

/// A slot's default value under an initializer.
pub open spec fn init_slot<V>(k: InitKind) -> Slot<V> {
    match k {
        InitKind::Absent => Slot::Vacant,
        InitKind::EmptyCollection => Slot::Items { items: Seq::empty() },
    }
}

/// The builder's starting state: every slot at its default.
pub open spec fn init_state<V>(plans: Seq<FieldPlanModel>) -> Seq<Slot<V>> {
    Seq::new(plans.len(), |i: int| init_slot(plans[i].storage.init))
}

/// The elements a slot holds; empty unless it holds a collection.
pub open spec fn slot_items<V>(s: Slot<V>) -> Seq<V> {
    match s {
        Slot::Items { items } => items,
        _ => Seq::empty(),
    }
}

/// What one setter call does to its own field's slot. An argument whose
/// shape does not fit the setter's body leaves the slot unchanged.
pub open spec fn apply_setter<V>(body: SetterBodyKind, slot: Slot<V>, arg: SetterArg<V>) -> Slot<
    V,
> {
    match body {
        SetterBodyKind::AssignOptional => match arg {
            SetterArg::One { value } => Slot::Filled { value },
            _ => slot,
        },
        SetterBodyKind::AssignOptionalFromPlain => match arg {
            SetterArg::One { value } => Slot::Filled { value },
            _ => slot,
        },
        SetterBodyKind::PushElement => match arg {
            SetterArg::One { value } => Slot::Items { items: slot_items(slot).push(value) },
            _ => slot,
        },
        SetterBodyKind::AssignCollectionWhole => match arg {
            SetterArg::Whole { items } => Slot::Items { items },
            _ => slot,
        },
    }
}

/// One setter call applied to the whole state; a call out of range
/// changes nothing.
pub open spec fn step<V>(
    plans: Seq<FieldPlanModel>,
    state: Seq<Slot<V>>,
    c: SetterCall<V>,
) -> Seq<Slot<V>> {
    if 0 <= c.field < plans.len() && c.field < state.len() {
        state.update(c.field, apply_setter(plans[c.field].setter.body, state[c.field], c.arg))
    } else {
        state
    }
}

/// The state after a run of setter calls from the starting state.
pub open spec fn run<V>(plans: Seq<FieldPlanModel>, calls: Seq<SetterCall<V>>) -> Seq<Slot<V>>
    decreases calls.len(),
{
    if calls.len() == 0 {
        init_state(plans)
    } else {
        step(plans, run(plans, calls.drop_last()), calls.last())
    }
}

/// The first index at or after `i` whose field is required and still
/// vacant.
pub open spec fn first_missing_from<V>(
    plans: Seq<FieldPlanModel>,
    state: Seq<Slot<V>>,
    i: int,
) -> Option<int>
    decreases plans.len() - i,
{
    if i < 0 || i >= plans.len() {
        None
    } else if plans[i].pull.kind == PullKind::UnwrapRequired && state[i] is Vacant {
        Some(i)
    } else {
        first_missing_from(plans, state, i + 1)
    }
}

/// The first required field still vacant, if any.
pub open spec fn first_missing<V>(plans: Seq<FieldPlanModel>, state: Seq<Slot<V>>) -> Option<
    int,
> {
    first_missing_from(plans, state, 0)
}

/// The constructed value of one field from its slot. Never applied to a
/// vacant required slot: construction fails first.
pub open spec fn pull_field<V>(kind: PullKind, slot: Slot<V>) -> FieldValModel<V> {
    match kind {
        PullKind::CloneOptional => FieldValModel::Optional {
            value: match slot {
                Slot::Filled { value } => Some(value),
                _ => None,
            },
        },
        PullKind::CloneCollection => FieldValModel::Collection { items: slot_items(slot) },
        PullKind::UnwrapRequired => match slot {
            Slot::Filled { value } => FieldValModel::Required { value },
            _ => FieldValModel::Required { value: arbitrary() },
        },
    }
}

/// Construction: the record's field values in order, or the name of the
/// first required field left vacant.
pub open spec fn build_model<V>(plans: Seq<FieldPlanModel>, state: Seq<Slot<V>>) -> Result<
    Seq<FieldValModel<V>>,
    Seq<char>,
> {
    match first_missing(plans, state) {
        Some(i) => Err(plans[i].pull.field_name),
        None => Ok(Seq::new(plans.len(), |i: int| pull_field(plans[i].pull.kind, state[i]))),
    }
}

/// The arguments of the calls that target one field, in call order.
pub open spec fn calls_for<V>(calls: Seq<SetterCall<V>>, field: int) -> Seq<SetterArg<V>>
    decreases calls.len(),
{
    if calls.len() == 0 {
        Seq::empty()
    } else if calls.last().field == field {
        calls_for(calls.drop_last(), field).push(calls.last().arg)
    } else {
        calls_for(calls.drop_last(), field)
    }
}

/// A slot after replaying a list of arguments through one setter body.
pub open spec fn replay<V>(body: SetterBodyKind, slot: Slot<V>, args: Seq<SetterArg<V>>) -> Slot<
    V,
>
    decreases args.len(),
{
    if args.len() == 0 {
        slot
    } else {
        apply_setter(body, replay(body, slot, args.drop_last()), args.last())
    }
}

/// No required field's slot holds a collection. Every state a generated
/// unit reaches satisfies this: a required field's setter assigns one
/// value and its slot starts absent.
pub open spec fn required_slots_single<V>(
    plans: Seq<FieldPlanModel>,
    state: Seq<Slot<V>>,
) -> bool {
    forall|i: int|
        0 <= i < plans.len() && (#[trigger] plans[i]).pull.kind == PullKind::UnwrapRequired ==> !(
        state[i] is Items)
}

/// A setter that assigns one value never leaves a collection in a slot
/// that held none.
pub proof fn lemma_replay_assign_keeps_single<V>(slot: Slot<V>, args: Seq<SetterArg<V>>)
    requires
        !(slot is Items),
    ensures
        !(replay(SetterBodyKind::AssignOptionalFromPlain, slot, args) is Items),
    decreases args.len(),
{
    if args.len() == 0 {
    } else {
        lemma_replay_assign_keeps_single(slot, args.drop_last());
    }
}

/// A run keeps one slot per field.
pub proof fn lemma_run_len<V>(plans: Seq<FieldPlanModel>, calls: Seq<SetterCall<V>>)
    ensures
        run(plans, calls).len() == plans.len(),
    decreases calls.len(),
{
    if calls.len() == 0 {
    } else {
        lemma_run_len(plans, calls.drop_last());
    }
}

/// A field's slot after a run depends only on the calls that target the
/// field: it equals its default replayed through them.
pub proof fn lemma_run_projects<V>(
    plans: Seq<FieldPlanModel>,
    calls: Seq<SetterCall<V>>,
    field: int,
)
    requires
        0 <= field < plans.len(),
    ensures
        run(plans, calls)[field] == replay(
            plans[field].setter.body,
            init_slot(plans[field].storage.init),
            calls_for(calls, field),
        ),
    decreases calls.len(),
{
    if calls.len() == 0 {
    } else {
        lemma_run_projects(plans, calls.drop_last(), field);
        lemma_run_len(plans, calls.drop_last());
        let c = calls.last();
        if c.field == field {
            assert(calls_for(calls, field).drop_last() =~= calls_for(calls.drop_last(), field));
            assert(calls_for(calls, field).last() == c.arg);
            assert(calls_for(calls, field).len() > 0);
        } else {
            assert(calls_for(calls, field) == calls_for(calls.drop_last(), field));
        }
    }
}

/// A field no call targets contributes no arguments.
pub proof fn lemma_calls_for_absent<V>(calls: Seq<SetterCall<V>>, field: int)
    requires
        forall|k: int| 0 <= k < calls.len() ==> (#[trigger] calls[k]).field != field,
    ensures
        calls_for(calls, field) == Seq::<SetterArg<V>>::empty(),
    decreases calls.len(),
{
    if calls.len() == 0 {
    } else {
        lemma_calls_for_absent(calls.drop_last(), field);
    }
}

/// With no required field vacant, the missing-field search finds nothing.
proof fn lemma_first_missing_none_from<V>(
    plans: Seq<FieldPlanModel>,
    state: Seq<Slot<V>>,
    i: int,
)
    requires
        forall|k: int|
            i <= k < plans.len() && (#[trigger] plans[k]).pull.kind == PullKind::UnwrapRequired
                ==> !(state[k] is Vacant),
    ensures
        first_missing_from(plans, state, i) is None,
    decreases plans.len() - i,
{
    if i < 0 || i >= plans.len() {
    } else {
        lemma_first_missing_none_from(plans, state, i + 1);
    }
}

/// With no required field vacant, construction succeeds.
pub proof fn lemma_build_succeeds<V>(plans: Seq<FieldPlanModel>, state: Seq<Slot<V>>)
    requires
        forall|k: int|
            0 <= k < plans.len() && (#[trigger] plans[k]).pull.kind == PullKind::UnwrapRequired
                ==> !(state[k] is Vacant),
    ensures
        build_model(plans, state) is Ok,
{
    lemma_first_missing_none_from(plans, state, 0);
}

/// With some required field vacant, the search finds the first one, at
/// or before any given vacant required field.
proof fn lemma_first_missing_finds_from<V>(
    plans: Seq<FieldPlanModel>,
    state: Seq<Slot<V>>,
    i: int,
    j: int,
)
    requires
        0 <= i <= j < plans.len(),
        state.len() == plans.len(),
        plans[j].pull.kind == PullKind::UnwrapRequired,
        state[j] is Vacant,
    ensures
        first_missing_from(plans, state, i) matches Some(m) && i <= m <= j
            && plans[m].pull.kind == PullKind::UnwrapRequired && state[m] is Vacant && (forall|
            k: int,
        |
            i <= k < m && (#[trigger] plans[k]).pull.kind == PullKind::UnwrapRequired ==> !(
            state[k] is Vacant)),
    decreases plans.len() - i,
{
    if plans[i].pull.kind == PullKind::UnwrapRequired && state[i] is Vacant {
    } else {
        lemma_first_missing_finds_from(plans, state, i + 1, j);
    }
}

/// With a required field vacant, construction fails and names the first
/// vacant required field.
pub proof fn lemma_build_fails<V>(plans: Seq<FieldPlanModel>, state: Seq<Slot<V>>, j: int)
    requires
        0 <= j < plans.len(),
        state.len() == plans.len(),
        plans[j].pull.kind == PullKind::UnwrapRequired,
        state[j] is Vacant,
    ensures
        build_model(plans, state) matches Err(name) && exists|m: int|
            0 <= m <= j && (#[trigger] plans[m]).pull.kind == PullKind::UnwrapRequired
                && state[m] is Vacant && name == plans[m].pull.field_name && (forall|k: int|
                0 <= k < m && (#[trigger] plans[k]).pull.kind == PullKind::UnwrapRequired ==> !(
                state[k] is Vacant)),
{
    lemma_first_missing_finds_from(plans, state, 0, j);
    let m = first_missing_from(plans, state, 0)->Some_0;
    assert(0 <= m <= j && plans[m].pull.kind == PullKind::UnwrapRequired && state[m] is Vacant
        && build_model(plans, state)->Err_0 == plans[m].pull.field_name && (forall|k: int|
        0 <= k < m && (#[trigger] plans[k]).pull.kind == PullKind::UnwrapRequired ==> !(
        state[k] is Vacant)));
}

} // verus!
