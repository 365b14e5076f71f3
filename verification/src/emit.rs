//! The code emitter: from a record definition to a generated unit.
//!
//! For each field, exactly one plan is emitted — the builder's storage
//! field with its default initializer, the setter method, and the pull
//! (construction) step — and the plans keep field declaration order. The
//! generated unit is this list of plans together with the record's name
//! and the builder type's name. Rendering the unit as source text is a
//! separate, unverified concern.

use vstd::prelude::*;
use vstd::string::StringExecFns;

use crate::classify::FieldShape;
use crate::classify::FieldShapeModel;
use crate::classify::classify;
use crate::classify::classify_model;
use crate::classify::each_override;
use crate::classify::each_override_model;
use crate::classify::optional_wrapper_name;
use crate::model::Diagnostic;
use crate::model::DiagnosticKind;
use crate::model::DiagnosticModel;
use crate::model::FieldDescriptor;
use crate::model::FieldDescriptorModel;
use crate::model::RecordBody;
use crate::model::RecordBodyModel;
use crate::model::RecordDef;
use crate::model::RecordDefModel;
use crate::model::TypeExpr;
use crate::model::TypeExprModel;
use crate::model::copy_string;
use crate::model::copy_type;

verus! {

/// What a setter's body does to its builder field.
#[derive(Debug, Clone, Copy, PartialEq, Eq, Structural)]
pub enum SetterBodyKind {
    /// Wrap the given value and assign it (optional-wrapped storage).
    AssignOptional,
    /// Append the given element to the stored collection.
    PushElement,
    /// Replace the whole stored collection with the given one.
    AssignCollectionWhole,
    /// Wrap the given plain value and assign it (required field).
    AssignOptionalFromPlain,
}

/// A builder storage field's default value.
#[derive(Debug, Clone, Copy, PartialEq, Eq, Structural)]
pub enum InitKind {
    /// The field starts absent.
    Absent,
    /// The field starts as an empty collection.
    EmptyCollection,
}

/// How the validating constructor pulls a field's final value.
#[derive(Debug, Clone, Copy, PartialEq, Eq, Structural)]
pub enum PullKind {
    /// Take the optional value as it stands; absence is allowed.
    CloneOptional,
    /// Take the accumulated collection as it stands.
    CloneCollection,
    /// Take the stored value, or fail naming the field if it is absent.
    UnwrapRequired,
}

/// One setter method of the generated builder.
#[derive(Debug, PartialEq, Eq)]
pub struct SetterSpec {
    pub method_name: String,
    pub param_ty: TypeExpr,
    pub body: SetterBodyKind,
}

/// The mathematical shape of a [`SetterSpec`].
pub struct SetterSpecModel {
    pub method_name: Seq<char>,
    pub param_ty: TypeExprModel,
    pub body: SetterBodyKind,
}

impl View for SetterSpec {
    type V = SetterSpecModel;

    open spec fn view(&self) -> SetterSpecModel {
        SetterSpecModel {
            method_name: self.method_name@,
            param_ty: self.param_ty@,
            body: self.body,
        }
    }
}

/// One storage field of the generated builder type, with its default.
#[derive(Debug, PartialEq, Eq)]
pub struct StorageSpec {
    pub field_name: String,
    pub storage_ty: TypeExpr,
    pub init: InitKind,
}

/// The mathematical shape of a [`StorageSpec`].
pub struct StorageSpecModel {
    pub field_name: Seq<char>,
    pub storage_ty: TypeExprModel,
    pub init: InitKind,
}

impl View for StorageSpec {
    type V = StorageSpecModel;

    open spec fn view(&self) -> StorageSpecModel {
        StorageSpecModel {
            field_name: self.field_name@,
            storage_ty: self.storage_ty@,
            init: self.init,
        }
    }
}

/// One pull step of the generated validating constructor.
#[derive(Debug, PartialEq, Eq)]
pub struct PullSpec {
    pub field_name: String,
    pub kind: PullKind,
}

/// The mathematical shape of a [`PullSpec`].
pub struct PullSpecModel {
    pub field_name: Seq<char>,
    pub kind: PullKind,
}

impl View for PullSpec {
    type V = PullSpecModel;

    open spec fn view(&self) -> PullSpecModel {
        PullSpecModel { field_name: self.field_name@, kind: self.kind }
    }
}

/// Everything emitted for one record field: storage, setter, pull.
#[derive(Debug, PartialEq, Eq)]
pub struct FieldPlan {
    pub storage: StorageSpec,
    pub setter: SetterSpec,
    pub pull: PullSpec,
}

/// The mathematical shape of a [`FieldPlan`].
pub struct FieldPlanModel {
    pub storage: StorageSpecModel,
    pub setter: SetterSpecModel,
    pub pull: PullSpecModel,
}

impl View for FieldPlan {
    type V = FieldPlanModel;

    open spec fn view(&self) -> FieldPlanModel {
        FieldPlanModel { storage: self.storage@, setter: self.setter@, pull: self.pull@ }
    }
}

impl DeepView for FieldPlan {
    type V = FieldPlanModel;

    open spec fn deep_view(&self) -> FieldPlanModel {
        self.view()
    }
}

/// The generated unit: the record's name, the builder type's name, and
/// one plan per record field, in field declaration order.
#[derive(Debug, PartialEq, Eq)]
pub struct GeneratedUnit {
    pub record_name: String,
    pub builder_name: String,
    pub plans: Vec<FieldPlan>,
}

/// The mathematical shape of a [`GeneratedUnit`].
pub struct GeneratedUnitModel {
    pub record_name: Seq<char>,
    pub builder_name: Seq<char>,
    pub plans: Seq<FieldPlanModel>,
}

impl View for GeneratedUnit {
    type V = GeneratedUnitModel;

    open spec fn view(&self) -> GeneratedUnitModel {
        GeneratedUnitModel {
            record_name: self.record_name@,
            builder_name: self.builder_name@,
            plans: self.plans.deep_view(),
        }
    }
}

/// The generated builder type's name: the record's name with `Builder`
/// appended.
pub open spec fn builder_name_model(record_name: Seq<char>) -> Seq<char> {
    record_name + "Builder"@
}

/// The plan emitted for one field, or the diagnostic that aborts
/// generation. A faulty `each` value is fatal whatever the field's
/// shape; the override changes only a collection's setter, which then
/// appends one element per call instead of replacing the whole
/// collection; a plain field is stored behind the optional wrapper and
/// pulled as required.
pub open spec fn plan_for_field_model(f: FieldDescriptorModel) -> Result<
    FieldPlanModel,
    DiagnosticModel,
> {
    match each_override_model(f.attrs) {
        Err(k) => Err(DiagnosticModel { kind: k, subject: f.name }),
        Ok(ov) => Ok(
            match classify_model(f.ty) {
                FieldShapeModel::Optional { inner } => FieldPlanModel {
                    storage: StorageSpecModel {
                        field_name: f.name,
                        storage_ty: f.ty,
                        init: InitKind::Absent,
                    },
                    setter: SetterSpecModel {
                        method_name: f.name,
                        param_ty: inner,
                        body: SetterBodyKind::AssignOptional,
                    },
                    pull: PullSpecModel { field_name: f.name, kind: PullKind::CloneOptional },
                },
                FieldShapeModel::Collection { elem } => FieldPlanModel {
                    storage: StorageSpecModel {
                        field_name: f.name,
                        storage_ty: f.ty,
                        init: InitKind::EmptyCollection,
                    },
                    setter: match ov {
                        Some(each_name) => SetterSpecModel {
                            method_name: each_name,
                            param_ty: elem,
                            body: SetterBodyKind::PushElement,
                        },
                        None => SetterSpecModel {
                            method_name: f.name,
                            param_ty: f.ty,
                            body: SetterBodyKind::AssignCollectionWhole,
                        },
                    },
                    pull: PullSpecModel { field_name: f.name, kind: PullKind::CloneCollection },
                },
                FieldShapeModel::Plain { ty } => FieldPlanModel {
                    storage: StorageSpecModel {
                        field_name: f.name,
                        storage_ty: TypeExprModel::Single {
                            name: optional_wrapper_name(),
                            arg: Box::new(ty),
                        },
                        init: InitKind::Absent,
                    },
                    setter: SetterSpecModel {
                        method_name: f.name,
                        param_ty: ty,
                        body: SetterBodyKind::AssignOptionalFromPlain,
                    },
                    pull: PullSpecModel { field_name: f.name, kind: PullKind::UnwrapRequired },
                },
            },
        ),
    }
}

/// Emits the plan for one field per [`plan_for_field_model`].
pub fn plan_for_field(f: &FieldDescriptor) -> (r: Result<FieldPlan, Diagnostic>)
    ensures
        plan_for_field_model(f@) matches Ok(p) ==> (r matches Ok(rp) && rp@ == p),
        plan_for_field_model(f@) matches Err(d) ==> (r matches Err(rd) && rd@ == d),
{
    let over = match each_override(&f.name, &f.attrs) {
        Ok(o) => o,
        Err(d) => {
            return Err(d);
        },
    };
    match classify(&f.ty) {
        FieldShape::Optional { inner } => Ok(
            FieldPlan {
                storage: StorageSpec {
                    field_name: copy_string(&f.name),
                    storage_ty: copy_type(&f.ty),
                    init: InitKind::Absent,
                },
                setter: SetterSpec {
                    method_name: copy_string(&f.name),
                    param_ty: inner,
                    body: SetterBodyKind::AssignOptional,
                },
                pull: PullSpec { field_name: copy_string(&f.name), kind: PullKind::CloneOptional },
            },
        ),
        FieldShape::Collection { elem } => {
            let setter = match over {
                Some(each_name) => SetterSpec {
                    method_name: each_name,
                    param_ty: elem,
                    body: SetterBodyKind::PushElement,
                },
                None => SetterSpec {
                    method_name: copy_string(&f.name),
                    param_ty: copy_type(&f.ty),
                    body: SetterBodyKind::AssignCollectionWhole,
                },
            };
            Ok(
                FieldPlan {
                    storage: StorageSpec {
                        field_name: copy_string(&f.name),
                        storage_ty: copy_type(&f.ty),
                        init: InitKind::EmptyCollection,
                    },
                    setter,
                    pull: PullSpec {
                        field_name: copy_string(&f.name),
                        kind: PullKind::CloneCollection,
                    },
                },
            )
        },
        FieldShape::Plain { ty } => Ok(
            FieldPlan {
                storage: StorageSpec {
                    field_name: copy_string(&f.name),
                    storage_ty: TypeExpr::Single {
                        name: "Option".to_owned(),
                        arg: Box::new(copy_type(&ty)),
                    },
                    init: InitKind::Absent,
                },
                setter: SetterSpec {
                    method_name: copy_string(&f.name),
                    param_ty: ty,
                    body: SetterBodyKind::AssignOptionalFromPlain,
                },
                pull: PullSpec { field_name: copy_string(&f.name), kind: PullKind::UnwrapRequired },
            },
        ),
    }
}

/// The plans for a field list, in declaration order; the first faulty
/// field's diagnostic aborts the whole list.
pub open spec fn plans_for_model(fields: Seq<FieldDescriptorModel>) -> Result<
    Seq<FieldPlanModel>,
    DiagnosticModel,
>
    decreases fields.len(),
{
    if fields.len() == 0 {
        Ok(Seq::empty())
    } else {
        match plans_for_model(fields.drop_last()) {
            Err(d) => Err(d),
            Ok(ps) => match plan_for_field_model(fields.last()) {
                Err(d) => Err(d),
                Ok(p) => Ok(ps.push(p)),
            },
        }
    }
}

/// A faulty field behind an all-good prefix settles the whole list on
/// its diagnostic.
proof fn lemma_plans_for_err(fields: Seq<FieldDescriptorModel>, i: int)
    requires
        0 <= i < fields.len(),
        plans_for_model(fields.take(i)) is Ok,
        plan_for_field_model(fields[i]) is Err,
    ensures
        plans_for_model(fields) == Err::<Seq<FieldPlanModel>, DiagnosticModel>(
            plan_for_field_model(fields[i])->Err_0,
        ),
    decreases fields.len(),
{
    if i == fields.len() - 1 {
        assert(fields.drop_last() =~= fields.take(i));
    } else {
        assert(fields.drop_last().take(i) =~= fields.take(i));
        lemma_plans_for_err(fields.drop_last(), i);
        assert(fields.drop_last()[i] == fields[i]);
    }
}

/// The whole generation step per [`generate_model`]: reject a body
/// without named fields, else plan every field in order and name the
/// builder type after the record.
pub open spec fn generate_model(d: RecordDefModel) -> Result<GeneratedUnitModel, DiagnosticModel> {
    match d.body {
        RecordBodyModel::NamedFields { fields } => match plans_for_model(fields) {
            Err(diag) => Err(diag),
            Ok(plans) => Ok(
                GeneratedUnitModel {
                    record_name: d.name,
                    builder_name: builder_name_model(d.name),
                    plans,
                },
            ),
        },
        _ => Err(DiagnosticModel { kind: DiagnosticKind::NotNamedFieldsRecord, subject: d.name }),
    }
}

/// Generates the builder unit for a record definition, or the first
/// diagnostic, per [`generate_model`].
pub fn generate(def: &RecordDef) -> (r: Result<GeneratedUnit, Diagnostic>)
    ensures
        generate_model(def@) matches Ok(u) ==> (r matches Ok(ru) && ru@ == u),
        generate_model(def@) matches Err(d) ==> (r matches Err(rd) && rd@ == d),
{
    match &def.body {
        RecordBody::NamedFields { fields } => {
            let ghost fs: Seq<FieldDescriptorModel> = fields.deep_view();
            let mut plans: Vec<FieldPlan> = Vec::new();
            proof {
                assert(def@.body == (RecordBodyModel::NamedFields { fields: fs }));
                assert(fs.take(0) =~= Seq::<FieldDescriptorModel>::empty());
                assert(plans.deep_view() =~= Seq::<FieldPlanModel>::empty());
            }
            let mut i: usize = 0;
            while i < fields.len()
                invariant
                    i <= fields.len(),
                    fs == fields.deep_view(),
                    def@.body == (RecordBodyModel::NamedFields { fields: fs }),
                    plans_for_model(fs.take(i as int)) == Ok::<_, DiagnosticModel>(
                        plans.deep_view(),
                    ),
                decreases fields.len() - i,
            {
                proof {
                    assert(fs[i as int] == fields[i as int].deep_view());
                }
                match plan_for_field(&fields[i]) {
                    Ok(p) => {
                        let ghost before: Seq<FieldPlanModel> = plans.deep_view();
                        plans.push(p);
                        proof {
                            assert(plans.deep_view() =~= before.push(p@));
                            assert(fs.take(i as int + 1).drop_last() =~= fs.take(i as int));
                            assert(fs.take(i as int + 1).last() == fs[i as int]);
                        }
                    },
                    Err(d) => {
                        proof {
                            lemma_plans_for_err(fs, i as int);
                        }
                        return Err(d);
                    },
                }
                i += 1;
            }
            proof {
                assert(fs.take(i as int) =~= fs);
            }
            let builder_name = copy_string(&def.name).concat("Builder");
            Ok(
                GeneratedUnit {
                    record_name: copy_string(&def.name),
                    builder_name,
                    plans,
                },
            )
        },
        RecordBody::TupleFields => Err(
            Diagnostic {
                kind: DiagnosticKind::NotNamedFieldsRecord,
                subject: copy_string(&def.name),
            },
        ),
        RecordBody::Variants => Err(
            Diagnostic {
                kind: DiagnosticKind::NotNamedFieldsRecord,
                subject: copy_string(&def.name),
            },
        ),
    }
}

} // verus!
