//! The field classifier: the shape of a declared type, and the per-element
//! setter-name override read from a field's directive attributes.
//!
//! A declared type whose last path segment is the recognized optional
//! wrapper (`Option`) with exactly one type argument is `Optional`; one
//! whose last segment is the recognized growable collection (`Vec`) with
//! exactly one type argument is `Collection`; every other form — bare
//! names, other generics, non-path types — is `Plain`, kept whole, with
//! no recursive unwrapping.
//!
//! The override scan walks the directive pairs in source order and stops
//! at the first `each` key: a string-literal value names the per-element
//! setter; any other value is a generation-time fault. Pairs under other
//! keys are accepted and ignored.

use vstd::prelude::*;

use crate::model::AttrPair;
use crate::model::AttrPairModel;
use crate::model::AttrValue;
use crate::model::AttrValueModel;
use crate::model::Diagnostic;
use crate::model::DiagnosticKind;
use crate::model::TypeExpr;
use crate::model::TypeExprModel;
use crate::model::copy_string;
use crate::model::copy_type;

verus! {

/// The recognized optional wrapper's name.
pub open spec fn optional_wrapper_name() -> Seq<char> {
    "Option"@
}

/// The recognized growable collection's name.
pub open spec fn collection_name() -> Seq<char> {
    "Vec"@
}

/// The shape of one field's declared type, driving which setter form,
/// storage field and construction step are emitted for it.
#[derive(Debug, PartialEq, Eq)]
pub enum FieldShape {
    /// The declared type is the optional wrapper over `inner`.
    Optional { inner: TypeExpr },
    /// The declared type is the growable collection over `elem`.
    Collection { elem: TypeExpr },
    /// Any other declared type, kept whole.
    Plain { ty: TypeExpr },
}

/// The mathematical shape of a [`FieldShape`].
pub enum FieldShapeModel {
    Optional { inner: TypeExprModel },
    Collection { elem: TypeExprModel },
    Plain { ty: TypeExprModel },
}

impl View for FieldShape {
    type V = FieldShapeModel;

    open spec fn view(&self) -> FieldShapeModel {
        match self {
            FieldShape::Optional { inner } => FieldShapeModel::Optional { inner: inner@ },
            FieldShape::Collection { elem } => FieldShapeModel::Collection { elem: elem@ },
            FieldShape::Plain { ty } => FieldShapeModel::Plain { ty: ty@ },
        }
    }
}

impl DeepView for FieldShape {
    type V = FieldShapeModel;

    open spec fn deep_view(&self) -> FieldShapeModel {
        self.view()
    }
}

/// The shape of a declared type: optional wrapper and collection are
/// recognized only as a single-segment name with exactly one type
/// argument; everything else is plain.
pub open spec fn classify_model(t: TypeExprModel) -> FieldShapeModel {
    match t {
        TypeExprModel::Single { name, arg } => if name == optional_wrapper_name() {
            FieldShapeModel::Optional { inner: *arg }
        } else if name == collection_name() {
            FieldShapeModel::Collection { elem: *arg }
        } else {
            FieldShapeModel::Plain { ty: TypeExprModel::Single { name, arg } }
        },
        _ => FieldShapeModel::Plain { ty: t },
    }
}

/// Tests a string against a literal by characters.
pub fn string_eq_lit(s: &String, lit: &str) -> (r: bool)
    ensures
        r == (s@ == lit@),
{
    let l: String = lit.to_owned();
    *s == l
}

/// Classifies one declared type per [`classify_model`].
pub fn classify(t: &TypeExpr) -> (s: FieldShape)
    ensures
        s@ == classify_model(t@),
{
    match t {
        TypeExpr::Single { name, arg } => {
            if string_eq_lit(name, "Option") {
                FieldShape::Optional { inner: copy_type(arg) }
            } else if string_eq_lit(name, "Vec") {
                FieldShape::Collection { elem: copy_type(arg) }
            } else {
                FieldShape::Plain { ty: copy_type(t) }
            }
        },
        _ => FieldShape::Plain { ty: copy_type(t) },
    }
}

/// The per-element setter-name override of a field: the value of the first
/// `each` pair among its directive pairs, in source order. A string-literal
/// value is the override; another literal or a non-literal value is a
/// fault of its own kind; pairs under other keys are passed over.
pub open spec fn each_override_model(attrs: Seq<AttrPairModel>) -> Result<
    Option<Seq<char>>,
    DiagnosticKind,
>
    decreases attrs.len(),
{
    if attrs.len() == 0 {
        Ok(None)
    } else if attrs[0].key == "each"@ {
        match attrs[0].value {
            AttrValueModel::StrLit { value } => Ok(Some(value)),
            AttrValueModel::OtherLit => Err(DiagnosticKind::EachValueNotStringLiteral),
            AttrValueModel::NotLit => Err(DiagnosticKind::EachValueNotLiteral),
        }
    } else {
        each_override_model(attrs.skip(1))
    }
}

/// Scans a field's directive pairs for its `each` override, per
/// [`each_override_model`]; a faulty value draws a diagnostic naming
/// the field.
pub fn each_override(field_name: &String, attrs: &Vec<AttrPair>) -> (r: Result<
    Option<String>,
    Diagnostic,
>)
    ensures
        each_override_model(attrs.deep_view()) matches Ok(o) ==> (r matches Ok(ro)
            && ro.deep_view() == o),
        each_override_model(attrs.deep_view()) matches Err(k) ==> (r matches Err(d) && d.kind == k
            && d.subject@ == field_name@),
{
    let ghost whole: Seq<AttrPairModel> = attrs.deep_view();
    proof {
        assert(whole.skip(0) =~= whole);
    }
    let mut i: usize = 0;
    while i < attrs.len()
        invariant
            0 <= i <= attrs.len(),
            whole == attrs.deep_view(),
            each_override_model(whole) == each_override_model(whole.skip(i as int)),
        decreases attrs.len() - i,
    {
        let pair = &attrs[i];
        proof {
            assert(whole.skip(i as int)[0] == whole[i as int]);
        }
        if string_eq_lit(&pair.key, "each") {
            match &pair.value {
                AttrValue::StrLit { value } => {
                    return Ok(Some(copy_string(value)));
                },
                AttrValue::OtherLit => {
                    return Err(
                        Diagnostic {
                            kind: DiagnosticKind::EachValueNotStringLiteral,
                            subject: copy_string(field_name),
                        },
                    );
                },
                AttrValue::NotLit => {
                    return Err(
                        Diagnostic {
                            kind: DiagnosticKind::EachValueNotLiteral,
                            subject: copy_string(field_name),
                        },
                    );
                },
            }
        }
        proof {
            assert(whole.skip(i as int).skip(1) =~= whole.skip(i as int + 1));
        }
        i += 1;
    }
    proof {
        assert(whole.skip(i as int) =~= Seq::<AttrPairModel>::empty());
    }
    Ok(None)
}

} // verus!
