//! The input model: a record definition as the generator sees it.
//!
//! A record is a name plus a body; only a body of named fields allows
//! generation. Each field carries its name, its declared type and the
//! key/value pairs found in its directive attributes, in source order.
//! A declared type is modelled structurally just as far as classification
//! needs: a bare path name, a path name with exactly one generic type
//! argument, or anything else kept as opaque text.

use vstd::prelude::*;

verus! {

/// A declared type, modelled by its outermost syntactic form.
///
/// `Single` is a path type whose last segment carries exactly one generic
/// type argument — the only form the classifier recognizes specially.
/// `Bare` is a path type with no type arguments. Every other form (several
/// type arguments, references, tuples, ...) is carried as `Opaque` text:
/// the generator never looks inside it.
#[derive(Debug, PartialEq, Eq)]
pub enum TypeExpr {
    Bare { name: String },
    Single { name: String, arg: Box<TypeExpr> },
    Opaque { text: String },
}

/// The mathematical shape of a [`TypeExpr`].
pub enum TypeExprModel {
    Bare { name: Seq<char> },
    Single { name: Seq<char>, arg: Box<TypeExprModel> },
    Opaque { text: Seq<char> },
}

impl TypeExpr {
    /// The structural model of this declared type.
    pub open spec fn model(&self) -> TypeExprModel
        decreases self,
    {
        match self {
            TypeExpr::Bare { name } => TypeExprModel::Bare { name: name@ },
            TypeExpr::Single { name, arg } => TypeExprModel::Single {
                name: name@,
                arg: Box::new(arg.model()),
            },
            TypeExpr::Opaque { text } => TypeExprModel::Opaque { text: text@ },
        }
    }
}

impl View for TypeExpr {
    type V = TypeExprModel;

    open spec fn view(&self) -> TypeExprModel {
        self.model()
    }
}

impl DeepView for TypeExpr {
    type V = TypeExprModel;

    open spec fn deep_view(&self) -> TypeExprModel {
        self.view()
    }
}

/// The value of one directive key, as found after the `=` sign.
///
/// Only a string literal is usable as a setter name; the other two forms
/// are kept apart because they draw distinct diagnostics.
#[derive(Debug, PartialEq, Eq)]
pub enum AttrValue {
    StrLit { value: String },
    OtherLit,
    NotLit,
}

/// The mathematical shape of an [`AttrValue`].
pub enum AttrValueModel {
    StrLit { value: Seq<char> },
    OtherLit,
    NotLit,
}

impl View for AttrValue {
    type V = AttrValueModel;

    open spec fn view(&self) -> AttrValueModel {
        match self {
            AttrValue::StrLit { value } => AttrValueModel::StrLit { value: value@ },
            AttrValue::OtherLit => AttrValueModel::OtherLit,
            AttrValue::NotLit => AttrValueModel::NotLit,
        }
    }
}

impl DeepView for AttrValue {
    type V = AttrValueModel;

    open spec fn deep_view(&self) -> AttrValueModel {
        self.view()
    }
}

/// One `key = value` pair of a field's directive attribute.
#[derive(Debug, PartialEq, Eq)]
pub struct AttrPair {
    pub key: String,
    pub value: AttrValue,
}

/// The mathematical shape of an [`AttrPair`].
pub struct AttrPairModel {
    pub key: Seq<char>,
    pub value: AttrValueModel,
}

impl View for AttrPair {
    type V = AttrPairModel;

    open spec fn view(&self) -> AttrPairModel {
        AttrPairModel { key: self.key@, value: self.value@ }
    }
}

impl DeepView for AttrPair {
    type V = AttrPairModel;

    open spec fn deep_view(&self) -> AttrPairModel {
        self.view()
    }
}

/// One field of a record with named fields: its name, its declared type,
/// and the `key = value` pairs of its directive attributes, in source order.
#[derive(Debug, PartialEq, Eq)]
pub struct FieldDescriptor {
    pub name: String,
    pub ty: TypeExpr,
    pub attrs: Vec<AttrPair>,
}

/// The mathematical shape of a [`FieldDescriptor`].
pub struct FieldDescriptorModel {
    pub name: Seq<char>,
    pub ty: TypeExprModel,
    pub attrs: Seq<AttrPairModel>,
}

impl View for FieldDescriptor {
    type V = FieldDescriptorModel;

    open spec fn view(&self) -> FieldDescriptorModel {
        FieldDescriptorModel {
            name: self.name@,
            ty: self.ty@,
            attrs: self.attrs.deep_view(),
        }
    }
}

impl DeepView for FieldDescriptor {
    type V = FieldDescriptorModel;

    open spec fn deep_view(&self) -> FieldDescriptorModel {
        self.view()
    }
}

/// The body of a record definition. Generation is defined only for
/// `NamedFields`; a tuple-style body or a sum (variant) body is rejected
/// with a diagnostic.
#[derive(Debug, PartialEq, Eq)]
pub enum RecordBody {
    NamedFields { fields: Vec<FieldDescriptor> },
    TupleFields,
    Variants,
}

/// The mathematical shape of a [`RecordBody`].
pub enum RecordBodyModel {
    NamedFields { fields: Seq<FieldDescriptorModel> },
    TupleFields,
    Variants,
}

impl View for RecordBody {
    type V = RecordBodyModel;

    open spec fn view(&self) -> RecordBodyModel {
        match self {
            RecordBody::NamedFields { fields } => RecordBodyModel::NamedFields {
                fields: fields.deep_view(),
            },
            RecordBody::TupleFields => RecordBodyModel::TupleFields,
            RecordBody::Variants => RecordBodyModel::Variants,
        }
    }
}

impl DeepView for RecordBody {
    type V = RecordBodyModel;

    open spec fn deep_view(&self) -> RecordBodyModel {
        self.view()
    }
}

/// A record type definition: the generator's whole input.
#[derive(Debug, PartialEq, Eq)]
pub struct RecordDef {
    pub name: String,
    pub body: RecordBody,
}

/// The mathematical shape of a [`RecordDef`].
pub struct RecordDefModel {
    pub name: Seq<char>,
    pub body: RecordBodyModel,
}

impl View for RecordDef {
    type V = RecordDefModel;

    open spec fn view(&self) -> RecordDefModel {
        RecordDefModel { name: self.name@, body: self.body@ }
    }
}

impl DeepView for RecordDef {
    type V = RecordDefModel;

    open spec fn deep_view(&self) -> RecordDefModel {
        self.view()
    }
}

/// What went wrong, without the subject's name.
#[derive(Debug, Clone, Copy, PartialEq, Eq)]
pub enum DiagnosticKind {
    /// The input is not a record with named fields.
    NotNamedFieldsRecord,
    /// The value given for `each` is not a literal at all.
    EachValueNotLiteral,
    /// The value given for `each` is a literal, but not a string literal.
    EachValueNotStringLiteral,
}

/// A generation-time diagnostic: the kind of fault and the name of the
/// offending record or field.
#[derive(Debug, PartialEq, Eq)]
pub struct Diagnostic {
    pub kind: DiagnosticKind,
    pub subject: String,
}

/// The mathematical shape of a [`Diagnostic`].
pub struct DiagnosticModel {
    pub kind: DiagnosticKind,
    pub subject: Seq<char>,
}

impl View for Diagnostic {
    type V = DiagnosticModel;

    open spec fn view(&self) -> DiagnosticModel {
        DiagnosticModel { kind: self.kind, subject: self.subject@ }
    }
}

impl DeepView for Diagnostic {
    type V = DiagnosticModel;

    open spec fn deep_view(&self) -> DiagnosticModel {
        self.view()
    }
}

/// Copies a string, preserving its characters.
pub fn copy_string(s: &String) -> (r: String)
    ensures
        r@ == s@,
{
    s.clone()
}

/// Copies a declared type, preserving its structure.
pub fn copy_type(t: &TypeExpr) -> (r: TypeExpr)
    ensures
        r@ == t@,
    decreases *t,
{
    match t {
        TypeExpr::Bare { name } => TypeExpr::Bare { name: copy_string(name) },
        TypeExpr::Single { name, arg } => TypeExpr::Single {
            name: copy_string(name),
            arg: Box::new(copy_type(arg)),
        },
        TypeExpr::Opaque { text } => TypeExpr::Opaque { text: copy_string(text) },
    }
}

} // verus!
