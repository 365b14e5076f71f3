//! The builder laws: what the generated builder does, proved for every
//! record definition the generator accepts and every value domain.
//!
//! Each law quantifies over a record definition whose generation
//! succeeded, a run of setter calls on the generated unit, and the
//! values passed; it pins down the constructed record, or the failure,
//! through the dynamic semantics of the unit's plans.

use vstd::prelude::*;

use crate::classify::FieldShapeModel;
use crate::classify::classify_model;
use crate::classify::each_override_model;
use crate::emit::FieldPlanModel;
use crate::emit::GeneratedUnitModel;
use crate::emit::InitKind;
use crate::emit::PullKind;
use crate::emit::SetterBodyKind;
use crate::emit::generate_model;
use crate::emit::plan_for_field_model;
use crate::emit::plans_for_model;
use crate::model::DiagnosticKind;
use crate::model::DiagnosticModel;
use crate::model::FieldDescriptorModel;
use crate::model::RecordBodyModel;
use crate::model::RecordDefModel;
use crate::semantics::FieldValModel;
use crate::semantics::SetterArg;
use crate::semantics::SetterCall;
use crate::semantics::Slot;
use crate::semantics::build_model;
use crate::semantics::calls_for;
use crate::semantics::init_slot;
use crate::semantics::lemma_build_fails;
use crate::semantics::lemma_build_succeeds;
use crate::semantics::lemma_calls_for_absent;
use crate::semantics::lemma_replay_assign_keeps_single;
use crate::semantics::lemma_run_len;
use crate::semantics::lemma_run_projects;
use crate::semantics::replay;
use crate::semantics::required_slots_single;
use crate::semantics::run;

verus! {

/// The field list of a record definition with named fields.
pub open spec fn def_fields(d: RecordDefModel) -> Seq<FieldDescriptorModel> {
    d.body->NamedFields_fields
}

/// Each plan of an accepted field list is its own field's plan, in
/// declaration order.
pub proof fn lemma_plans_pointwise(fields: Seq<FieldDescriptorModel>, plans: Seq<FieldPlanModel>)
    requires
        plans_for_model(fields) == Ok::<Seq<FieldPlanModel>, DiagnosticModel>(plans),
    ensures
        plans.len() == fields.len(),
        forall|i: int|
            0 <= i < fields.len() ==> plan_for_field_model(fields[i]) == Ok::<
                FieldPlanModel,
                DiagnosticModel,
            >(#[trigger] plans[i]),
    decreases fields.len(),
{
    if fields.len() == 0 {
    } else {
        let ps = plans_for_model(fields.drop_last())->Ok_0;
        lemma_plans_pointwise(fields.drop_last(), ps);
    }
}

/// A generated unit's plans are the record's fields' plans, in order.
pub proof fn lemma_unit_plans(d: RecordDefModel, unit: GeneratedUnitModel)
    requires
        generate_model(d) == Ok::<GeneratedUnitModel, DiagnosticModel>(unit),
    ensures
        d.body is NamedFields,
        unit.plans.len() == def_fields(d).len(),
        forall|i: int|
            0 <= i < def_fields(d).len() ==> plan_for_field_model(def_fields(d)[i]) == Ok::<
                FieldPlanModel,
                DiagnosticModel,
            >(#[trigger] unit.plans[i]),
{
    lemma_plans_pointwise(def_fields(d), unit.plans);
}

/// One setter call per field, in field order, each with one value.
pub open spec fn one_call_per_field<V>(vals: Seq<V>) -> Seq<SetterCall<V>> {
    Seq::new(
        vals.len(),
        |i: int| SetterCall { field: i, arg: SetterArg::One { value: vals[i] } },
    )
}

/// Under one call per field, each field sees exactly its own value.
proof fn lemma_one_call_per_field_projects<V>(vals: Seq<V>, j: int)
    requires
        0 <= j < vals.len(),
    ensures
        calls_for(one_call_per_field(vals), j) == seq![SetterArg::One { value: vals[j] }],
    decreases vals.len(),
{
    let calls = one_call_per_field(vals);
    assert(calls.drop_last() =~= one_call_per_field(vals.drop_last()));
    if j == vals.len() - 1 {
        lemma_calls_for_absent::<V>(calls.drop_last(), j);
        assert(calls_for(calls, j) =~= seq![SetterArg::One { value: vals[j] }]);
    } else {
        lemma_one_call_per_field_projects(vals.drop_last(), j);
    }
}

/// Law: for a record of only plain fields, calling every setter once and
/// then constructing succeeds, and each constructed field is exactly the
/// value its setter was given.
pub proof fn lemma_all_plain_round_trip<V>(
    d: RecordDefModel,
    unit: GeneratedUnitModel,
    vals: Seq<V>,
)
    requires
        generate_model(d) == Ok::<GeneratedUnitModel, DiagnosticModel>(unit),
        forall|i: int|
            0 <= i < def_fields(d).len() ==> classify_model(
                (#[trigger] def_fields(d)[i]).ty,
            ) is Plain,
        vals.len() == def_fields(d).len(),
    ensures
        build_model(unit.plans, run(unit.plans, one_call_per_field(vals))) == Ok::<
            Seq<FieldValModel<V>>,
            Seq<char>,
        >(Seq::new(vals.len(), |i: int| FieldValModel::Required { value: vals[i] })),
{
    lemma_unit_plans(d, unit);
    let plans = unit.plans;
    let calls = one_call_per_field::<V>(vals);
    let state = run(plans, calls);
    lemma_run_len(plans, calls);
    assert forall|i: int| 0 <= i < plans.len() implies state[i] == (Slot::Filled {
        value: vals[i],
    }) by {
        lemma_run_projects(plans, calls, i);
        lemma_one_call_per_field_projects(vals, i);
        let args = calls_for(calls, i);
        assert(args.drop_last() =~= Seq::<SetterArg<V>>::empty());
    };
    lemma_build_succeeds(plans, state);
    assert(build_model(plans, state)->Ok_0 =~= Seq::new(
        vals.len(),
        |i: int| FieldValModel::Required { value: vals[i] },
    ));
}

/// Law: an optional field left unset never blocks construction; when
/// every required field was given a value, construction succeeds and the
/// unset optional field is absent in the result.
pub proof fn lemma_optional_unset_is_absent<V>(
    d: RecordDefModel,
    unit: GeneratedUnitModel,
    calls: Seq<SetterCall<V>>,
    j: int,
)
    requires
        generate_model(d) == Ok::<GeneratedUnitModel, DiagnosticModel>(unit),
        0 <= j < def_fields(d).len(),
        classify_model(def_fields(d)[j].ty) is Optional,
        forall|k: int| 0 <= k < calls.len() ==> (#[trigger] calls[k]).field != j,
        forall|i: int|
            0 <= i < unit.plans.len() && (#[trigger] unit.plans[i]).pull.kind
                == PullKind::UnwrapRequired ==> !(run(unit.plans, calls)[i] is Vacant),
    ensures
        build_model(unit.plans, run(unit.plans, calls)) matches Ok(vals) && vals[j] == (
        FieldValModel::Optional { value: Option::<V>::None }),
{
    lemma_unit_plans(d, unit);
    let plans = unit.plans;
    let state = run(plans, calls);
    lemma_run_len(plans, calls);
    lemma_build_succeeds(plans, state);
    lemma_run_projects(plans, calls, j);
    lemma_calls_for_absent::<V>(calls, j);
}

/// Law: a collection field with a per-element override accumulates in
/// call order: when its setter was called exactly twice, with `e1` then
/// `e2`, the field holds `[e1, e2]`, and a successful construction
/// yields exactly that collection for the field.
pub proof fn lemma_each_setter_accumulates<V>(
    d: RecordDefModel,
    unit: GeneratedUnitModel,
    calls: Seq<SetterCall<V>>,
    j: int,
    e1: V,
    e2: V,
)
    requires
        generate_model(d) == Ok::<GeneratedUnitModel, DiagnosticModel>(unit),
        0 <= j < def_fields(d).len(),
        classify_model(def_fields(d)[j].ty) is Collection,
        each_override_model(def_fields(d)[j].attrs) matches Ok(o) && o is Some,
        calls_for(calls, j) == seq![
            SetterArg::One { value: e1 },
            SetterArg::One { value: e2 },
        ],
    ensures
        run(unit.plans, calls)[j] == (Slot::Items { items: seq![e1, e2] }),
        build_model(unit.plans, run(unit.plans, calls)) matches Ok(vals) ==> vals[j] == (
        FieldValModel::Collection { items: seq![e1, e2] }),
{
    lemma_unit_plans(d, unit);
    let plans = unit.plans;
    lemma_run_len(plans, calls);
    lemma_run_projects(plans, calls, j);
    assert(plans[j].setter.body == SetterBodyKind::PushElement);
    assert(plans[j].storage.init == InitKind::EmptyCollection);
    let args = calls_for(calls, j);
    let body = plans[j].setter.body;
    let start = init_slot::<V>(plans[j].storage.init);
    assert(args.drop_last() =~= seq![SetterArg::One { value: e1 }]);
    assert(args.drop_last().drop_last() =~= Seq::<SetterArg<V>>::empty());
    assert(replay(body, start, args.drop_last().drop_last()) == start);
    assert(replay(body, start, args.drop_last()) == (Slot::Items {
        items: Seq::<V>::empty().push(e1),
    }));
    assert(Seq::<V>::empty().push(e1).push(e2) =~= seq![e1, e2]);
    assert(replay(body, start, args) == (Slot::Items { items: seq![e1, e2] }));
}

/// Law: a collection field without an override replaces wholesale — the
/// last whole-collection call wins: after its setter was called with
/// `first` and then with `second`, the field holds exactly `second`,
/// not a concatenation, and a successful construction yields `second`.
pub proof fn lemma_whole_setter_replaces<V>(
    d: RecordDefModel,
    unit: GeneratedUnitModel,
    calls: Seq<SetterCall<V>>,
    j: int,
    first: Seq<V>,
    second: Seq<V>,
)
    requires
        generate_model(d) == Ok::<GeneratedUnitModel, DiagnosticModel>(unit),
        0 <= j < def_fields(d).len(),
        classify_model(def_fields(d)[j].ty) is Collection,
        each_override_model(def_fields(d)[j].attrs) == Ok::<Option<Seq<char>>, DiagnosticKind>(
            Option::None,
        ),
        calls_for(calls, j) == seq![
            SetterArg::Whole { items: first },
            SetterArg::Whole { items: second },
        ],
    ensures
        run(unit.plans, calls)[j] == (Slot::Items { items: second }),
        build_model(unit.plans, run(unit.plans, calls)) matches Ok(vals) ==> vals[j] == (
        FieldValModel::Collection { items: second }),
{
    lemma_unit_plans(d, unit);
    let plans = unit.plans;
    lemma_run_len(plans, calls);
    lemma_run_projects(plans, calls, j);
    let args = calls_for(calls, j);
    assert(args.drop_last() =~= seq![SetterArg::Whole { items: first }]);
    assert(args.drop_last().drop_last() =~= Seq::<SetterArg<V>>::empty());
}

/// Law: a record with a required plain field never set does not
/// construct: construction fails naming a required field still unset —
/// the first such field, so the unset field itself when every required
/// field before it was set — and no record value is produced.
pub proof fn lemma_required_unset_fails<V>(
    d: RecordDefModel,
    unit: GeneratedUnitModel,
    calls: Seq<SetterCall<V>>,
    j: int,
)
    requires
        generate_model(d) == Ok::<GeneratedUnitModel, DiagnosticModel>(unit),
        0 <= j < def_fields(d).len(),
        classify_model(def_fields(d)[j].ty) is Plain,
        forall|k: int| 0 <= k < calls.len() ==> (#[trigger] calls[k]).field != j,
    ensures
        build_model(unit.plans, run(unit.plans, calls)) matches Err(name) && exists|m: int|
            0 <= m < unit.plans.len() && (#[trigger] unit.plans[m]).pull.kind
                == PullKind::UnwrapRequired && run(unit.plans, calls)[m] is Vacant && name
                == unit.plans[m].pull.field_name,
        (forall|k: int|
            0 <= k < j && (#[trigger] unit.plans[k]).pull.kind == PullKind::UnwrapRequired ==> !(
            run(unit.plans, calls)[k] is Vacant)) ==> build_model(
            unit.plans,
            run(unit.plans, calls),
        ) == Err::<Seq<FieldValModel<V>>, Seq<char>>(def_fields(d)[j].name),
{
    lemma_unit_plans(d, unit);
    let plans = unit.plans;
    let state = run(plans, calls);
    lemma_run_len(plans, calls);
    lemma_run_projects(plans, calls, j);
    lemma_calls_for_absent::<V>(calls, j);
    lemma_build_fails(plans, state, j);
}

/// In a generated unit, a required field's slot never holds a
/// collection, whatever calls were made: its setter assigns one value
/// and its slot starts absent.
pub proof fn lemma_generated_required_slots_single<V>(
    d: RecordDefModel,
    unit: GeneratedUnitModel,
    calls: Seq<SetterCall<V>>,
)
    requires
        generate_model(d) == Ok::<GeneratedUnitModel, DiagnosticModel>(unit),
    ensures
        required_slots_single(unit.plans, run(unit.plans, calls)),
{
    lemma_unit_plans(d, unit);
    let plans = unit.plans;
    lemma_run_len(plans, calls);
    assert forall|i: int|
        0 <= i < plans.len() && (#[trigger] plans[i]).pull.kind
            == PullKind::UnwrapRequired implies !(run(plans, calls)[i] is Items) by {
        lemma_run_projects(plans, calls, i);
        assert(plans[i].setter.body == SetterBodyKind::AssignOptionalFromPlain);
        assert(plans[i].storage.init == InitKind::Absent);
        lemma_replay_assign_keeps_single(init_slot::<V>(plans[i].storage.init), calls_for(calls, i));
    };
}

/// Law: generation is deterministic — the same record definition yields
/// the same generated unit, with the same setter names and the same
/// shapes; generation has no hidden state beyond the definition itself.
pub proof fn lemma_generation_deterministic(a: RecordDefModel, b: RecordDefModel)
    requires
        a == b,
    ensures
        generate_model(a) == generate_model(b),
{
}

} // verus!
