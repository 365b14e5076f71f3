//! An executable interpreter of generated units over string values: a
//! builder state with one slot per plan, a setter-call step, and the
//! validating construction step. Each operation is proved to follow the
//! dynamic semantics, so a run of this interpreter exhibits exactly the
//! behaviour the builder laws describe.

use vstd::prelude::*;
use vstd::pervasive::VecAdditionalExecFns;
use vstd::pervasive::unreached;
use vstd::string::StringExecFns;

use crate::emit::GeneratedUnit;
use crate::emit::InitKind;
use crate::emit::PullKind;
use crate::emit::SetterBodyKind;
use crate::model::copy_string;
use crate::semantics::FieldValModel;
use crate::semantics::SetterArg;
use crate::semantics::SetterCall;
use crate::semantics::Slot;
use crate::semantics::build_model;
use crate::semantics::first_missing;
use crate::semantics::first_missing_from;
use crate::semantics::init_slot;
use crate::semantics::lemma_build_fails;
use crate::semantics::pull_field;
use crate::semantics::init_state;
use crate::semantics::required_slots_single;
use crate::semantics::step;

verus! {

/// An argument for one setter call, over string values.
#[derive(Debug, PartialEq, Eq)]
pub enum ArgValue {
    One { value: String },
    Whole { items: Vec<String> },
}

impl View for ArgValue {
    type V = SetterArg<Seq<char>>;

    open spec fn view(&self) -> SetterArg<Seq<char>> {
        match self {
            ArgValue::One { value } => SetterArg::One { value: value@ },
            ArgValue::Whole { items } => SetterArg::Whole { items: items.deep_view() },
        }
    }
}

/// One storage slot of the running builder.
#[derive(Debug, PartialEq, Eq)]
pub enum SlotValue {
    Vacant,
    Filled { value: String },
    Items { items: Vec<String> },
}

impl View for SlotValue {
    type V = Slot<Seq<char>>;

    open spec fn view(&self) -> Slot<Seq<char>> {
        match self {
            SlotValue::Vacant => Slot::Vacant,
            SlotValue::Filled { value } => Slot::Filled { value: value@ },
            SlotValue::Items { items } => Slot::Items { items: items.deep_view() },
        }
    }
}

impl DeepView for SlotValue {
    type V = Slot<Seq<char>>;

    open spec fn deep_view(&self) -> Slot<Seq<char>> {
        self.view()
    }
}

/// One field of a constructed record.
#[derive(Debug, PartialEq, Eq)]
#[allow(inconsistent_fields)]
pub enum FieldValue {
    Required { value: String },
    Optional { value: Option<String> },
    Collection { items: Vec<String> },
}

impl View for FieldValue {
    type V = FieldValModel<Seq<char>>;

    open spec fn view(&self) -> FieldValModel<Seq<char>> {
        match self {
            FieldValue::Required { value } => FieldValModel::Required { value: value@ },
            FieldValue::Optional { value } => FieldValModel::Optional {
                value: value.deep_view(),
            },
            FieldValue::Collection { items } => FieldValModel::Collection {
                items: items.deep_view(),
            },
        }
    }
}

impl DeepView for FieldValue {
    type V = FieldValModel<Seq<char>>;

    open spec fn deep_view(&self) -> FieldValModel<Seq<char>> {
        self.view()
    }
}

/// The running state of a generated builder: one slot per field plan.
#[derive(Debug)]
pub struct BuilderState {
    pub slots: Vec<SlotValue>,
}

impl View for BuilderState {
    type V = Seq<Slot<Seq<char>>>;

    open spec fn view(&self) -> Seq<Slot<Seq<char>>> {
        self.slots.deep_view()
    }
}

impl BuilderState {
    /// A unit's starting state: every slot at its default.
    pub fn new(unit: &GeneratedUnit) -> (s: Self)
        ensures
            s@ == init_state::<Seq<char>>(unit@.plans),
    {
        let mut slots: Vec<SlotValue> = Vec::new();
        let mut i: usize = 0;
        while i < unit.plans.len()
            invariant
                i <= unit.plans.len(),
                slots.deep_view().len() == i,
                forall|k: int|
                    0 <= k < i ==> slots.deep_view()[k] == init_slot::<Seq<char>>(
                        (#[trigger] unit@.plans[k]).storage.init,
                    ),
            decreases unit.plans.len() - i,
        {
            let ghost before = slots.deep_view();
            match unit.plans[i].storage.init {
                InitKind::Absent => slots.push(SlotValue::Vacant),
                InitKind::EmptyCollection => slots.push(
                    SlotValue::Items { items: Vec::new() },
                ),
            }
            proof {
                let ii = i as int;
                assert(slots.deep_view() =~~= before.push(
                    init_slot::<Seq<char>>(unit@.plans[ii].storage.init),
                ));
            }
            i += 1;
        }
        let s = BuilderState { slots };
        proof {
            assert(s@ =~= init_state::<Seq<char>>(unit@.plans));
        }
        s
    }

    /// Applies one setter call to the targeted field's slot; a call out
    /// of range changes nothing.
    pub fn set(&mut self, unit: &GeneratedUnit, field: usize, arg: ArgValue)
        ensures
            final(self)@ == step(
                unit@.plans,
                old(self)@,
                SetterCall { field: field as int, arg: arg@ },
            ),
    {
        let ghost c = SetterCall { field: field as int, arg: arg@ };
        if field < self.slots.len() && field < unit.plans.len() {
            let ghost before = self@;
            match unit.plans[field].setter.body {
                SetterBodyKind::AssignOptional | SetterBodyKind::AssignOptionalFromPlain => {
                    match arg {
                        ArgValue::One { value } => {
                            self.slots.set(field, SlotValue::Filled { value });
                        },
                        ArgValue::Whole { .. } => {},
                    }
                },
                SetterBodyKind::PushElement => {
                    match arg {
                        ArgValue::One { value } => {
                            let mut items: Vec<String> = match &self.slots[field] {
                                SlotValue::Items { items } => {
                                    let copy = items.clone();
                                    proof {
                                        assert(copy@ =~= items@);
                                    }
                                    copy
                                },
                                _ => Vec::new(),
                            };
                            items.push(value);
                            self.slots.set(field, SlotValue::Items { items });
                        },
                        ArgValue::Whole { .. } => {},
                    }
                },
                SetterBodyKind::AssignCollectionWhole => {
                    match arg {
                        ArgValue::Whole { items } => {
                            self.slots.set(field, SlotValue::Items { items });
                        },
                        ArgValue::One { .. } => {},
                    }
                },
            }
            proof {
                assert(self@ =~~= step(unit@.plans, before, c));
            }
        }
    }

    /// Constructs the record's field values in declaration order, or
    /// fails with a message naming the first required field still unset.
    /// The state must fit the unit: one slot per plan, no collection in
    /// a required field's slot — true of every state reached from
    /// [`BuilderState::new`] by [`BuilderState::set`] on a generated
    /// unit.
    pub fn build(&self, unit: &GeneratedUnit) -> (r: Result<Vec<FieldValue>, String>)
        requires
            self@.len() == unit@.plans.len(),
            required_slots_single(unit@.plans, self@),
        ensures
            build_model(unit@.plans, self@) matches Ok(vals) ==> (r matches Ok(rv)
                && rv.deep_view() == vals),
            build_model(unit@.plans, self@) matches Err(name) ==> (r matches Err(m) && m@ == name
                + " is required"@),
    {
        let ghost plans = unit@.plans;
        let ghost state = self@;
        let mut i: usize = 0;
        while i < unit.plans.len()
            invariant
                i <= unit.plans.len(),
                plans == unit@.plans,
                state == self@,
                state.len() == plans.len(),
                first_missing(plans, state) == first_missing_from(plans, state, i as int),
            decreases unit.plans.len() - i,
        {
            let required = unit.plans[i].pull.kind == PullKind::UnwrapRequired;
            let vacant = match &self.slots[i] {
                SlotValue::Vacant => true,
                _ => false,
            };
            if required && vacant {
                let m = copy_string(&unit.plans[i].pull.field_name).concat(" is required");
                return Err(m);
            }
            i += 1;
        }
        proof {
            assert(first_missing(plans, state) is None);
        }
        let mut out: Vec<FieldValue> = Vec::new();
        let mut j: usize = 0;
        while j < unit.plans.len()
            invariant
                j <= unit.plans.len(),
                plans == unit@.plans,
                state == self@,
                state.len() == plans.len(),
                required_slots_single(plans, state),
                first_missing(plans, state) is None,
                out.deep_view().len() == j,
                forall|k: int|
                    0 <= k < j ==> out.deep_view()[k] == pull_field(
                        (#[trigger] plans[k]).pull.kind,
                        state[k],
                    ),
            decreases unit.plans.len() - j,
        {
            let ghost before = out.deep_view();
            let val: FieldValue = match unit.plans[j].pull.kind {
                PullKind::CloneOptional => {
                    let value: Option<String> = match &self.slots[j] {
                        SlotValue::Filled { value } => Some(value.clone()),
                        _ => None,
                    };
                    FieldValue::Optional { value }
                },
                PullKind::CloneCollection => {
                    let items: Vec<String> = match &self.slots[j] {
                        SlotValue::Items { items } => {
                            let copy = items.clone();
                            proof {
                                assert(copy@ =~= items@);
                            }
                            copy
                        },
                        _ => Vec::new(),
                    };
                    FieldValue::Collection { items }
                },
                PullKind::UnwrapRequired => {
                    match &self.slots[j] {
                        SlotValue::Filled { value } => FieldValue::Required {
                            value: value.clone(),
                        },
                        SlotValue::Vacant => {
                            proof {
                                lemma_build_fails(plans, state, j as int);
                            }
                            return unreached();
                        },
                        SlotValue::Items { .. } => {
                            proof {
                                let jj = j as int;
                                assert(plans[jj].pull.kind == PullKind::UnwrapRequired);
                                assert(state[jj] is Items);
                                assert(false);
                            }
                            return unreached();
                        },
                    }
                },
            };
            proof {
                let jj = j as int;
                assert(val@ =~~= pull_field(plans[jj].pull.kind, state[jj]));
            }
            out.push(val);
            proof {
                assert(out.deep_view() =~~= before.push(val@));
            }
            j += 1;
        }
        proof {
            assert(out.deep_view() =~~= build_model(plans, state)->Ok_0);
        }
        Ok(out)
    }
}

} // verus!
