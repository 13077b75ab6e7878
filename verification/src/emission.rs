//! The code that an approved declaration receives.

use vstd::prelude::*;
use crate::annotation::{has_stable_repr, stable_repr_among, Annotation, AnnotationView};
use crate::declaration::{
    field_types, DeclarationView, Fields, FieldsView, Shape, ShapeView, TypeDeclaration,
};
use crate::error::{AttestError, ErrorView};

verus! {

/// The hidden routine whose body holds one obligation per field: a call that
/// compiles only if the field's type has a fixed layout.
#[derive(Clone, Debug, PartialEq, Eq)]
pub struct VerificationRoutine {
    /// The routine's name, derived from the name of the type.
    pub name: String,
    /// The field types to check, in declaration order.
    pub obligations: Vec<String>,
}

/// The mathematical value of a [`VerificationRoutine`].
pub struct RoutineView {
    pub name: Seq<char>,
    pub obligations: Seq<Seq<char>>,
}

impl View for VerificationRoutine {
    type V = RoutineView;

    open spec fn view(&self) -> RoutineView {
        RoutineView { name: self.name@, obligations: self.obligations.deep_view() }
    }
}

impl DeepView for VerificationRoutine {
    type V = RoutineView;

    open spec fn deep_view(&self) -> RoutineView {
        self@
    }
}

/// What is emitted for a declaration: the verification routine, where the type
/// has fields, and the grant of the capability to the type.
#[derive(Clone, Debug, PartialEq, Eq)]
pub struct Emission {
    /// The routine that holds the obligations; none for a type without fields.
    pub routine: Option<VerificationRoutine>,
    /// The name of the type that is granted the capability.
    pub grantee: String,
}

/// The mathematical value of an [`Emission`].
pub struct EmissionView {
    pub routine: Option<RoutineView>,
    pub grantee: Seq<char>,
}

impl View for Emission {
    type V = EmissionView;

    open spec fn view(&self) -> EmissionView {
        EmissionView { routine: self.routine.deep_view(), grantee: self.grantee@ }
    }
}

impl EmissionView {
    /// The field types that the compiler has to check, in declaration order.
    pub open spec fn obligations(self) -> Seq<Seq<char>> {
        match self.routine {
            Some(routine) => routine.obligations,
            None => Seq::empty(),
        }
    }
}

/// An identifier without the `r#` that marks it as raw.
pub open spec fn unraw(name: Seq<char>) -> Seq<char> {
    if name.len() >= 2 && name[0] == 'r' && name[1] == '#' {
        name.skip(2)
    } else {
        name
    }
}

/// The name of the verification routine for the type `name`. A raw name goes
/// in without its `r#`, so that the whole is an identifier again.
pub open spec fn routine_name(name: Seq<char>) -> Seq<char> {
    "__ensure_fixed_layout_for_"@ + unraw(name)
}

/// The outcome of the check on a record: nothing to emit without fields, a
/// refusal for fields without a marker of a stable representation, and else the
/// routine with one obligation per field.
pub open spec fn stable_layout_check(
    name: Seq<char>,
    fields: FieldsView,
    annotations: Seq<AnnotationView>,
) -> Result<Option<RoutineView>, ErrorView> {
    if fields.types().len() == 0 {
        Ok(None)
    } else if !stable_repr_among(annotations) {
        Err(ErrorView::MissingStabilityAnnotation)
    } else {
        Ok(Some(RoutineView { name: routine_name(name), obligations: fields.types() }))
    }
}

/// The outcome of the expansion of a declaration.
pub open spec fn expansion(declaration: DeclarationView) -> Result<EmissionView, ErrorView> {
    match declaration.shape {
        ShapeView::NonRecord => Err(ErrorView::UnsupportedShape),
        ShapeView::Record(fields) => match stable_layout_check(
            declaration.name,
            fields,
            declaration.annotations,
        ) {
            Ok(routine) => Ok(EmissionView { routine, grantee: declaration.name }),
            Err(error) => Err(error),
        },
    }
}

/// The identifier `name` without the `r#` that marks it as raw.
fn without_raw_marker(name: &str) -> (rest: &str)
    ensures
        rest@ == unraw(name@),
{
    let len = name.unicode_len();
    if len >= 2 && name.get_char(0) == 'r' && name.get_char(1) == '#' {
        name.substring_char(2, len)
    } else {
        name
    }
}

/// Checks that a record may be attested and builds its verification routine.
///
/// A record without fields needs no marker and gets no routine. A record with
/// fields is refused unless `repr(C)` or `repr(transparent)` is among its
/// annotations; its routine holds one obligation per field.
pub fn ensure_struct_has_stable_layout(
    name: &str,
    s: &Fields,
    attrs: &Vec<Annotation>,
) -> (outcome: Result<Option<VerificationRoutine>, AttestError>)
    ensures
        match outcome {
            Ok(routine) => stable_layout_check(name@, s@, attrs.deep_view()) == Ok::<
                Option<RoutineView>,
                ErrorView,
            >(routine.deep_view()),
            Err(error) => stable_layout_check(name@, s@, attrs.deep_view()) == Err::<
                Option<RoutineView>,
                ErrorView,
            >(error@),
        },
{
    let field_types = field_types(s);
    if field_types.len() == 0 {
        return Ok(None);
    }
    if !has_stable_repr(attrs) {
        return Err(AttestError::MissingStabilityAnnotation);
    }
    let prefix = String::from_str("__ensure_fixed_layout_for_");
    let routine = prefix.concat(without_raw_marker(name));
    Ok(Some(VerificationRoutine { name: routine, obligations: field_types }))
}

/// Expands a declaration into what is emitted for it.
///
/// Only records are supported. The emission of a record holds the routine from
/// [`ensure_struct_has_stable_layout`] and the grant for the declared type.
pub fn expand(input: &TypeDeclaration) -> (outcome: Result<Emission, AttestError>)
    ensures
        match outcome {
            Ok(emission) => expansion(input@) == Ok::<EmissionView, ErrorView>(emission@),
            Err(error) => expansion(input@) == Err::<EmissionView, ErrorView>(error@),
        },
{
    match &input.shape {
        Shape::Record(s) => {
            match ensure_struct_has_stable_layout(input.name.as_str(), s, &input.annotations) {
                Ok(routine) => Ok(Emission { routine, grantee: input.name.clone() }),
                Err(error) => Err(error),
            }
        },
        Shape::NonRecord => Err(AttestError::UnsupportedShape),
    }
}

/// The text of one obligation: a call of the compile-time check on a field
/// type.
pub open spec fn rendered_obligation(field: Seq<char>) -> Seq<char> {
    "::mem_markers::ensure_fixed_layout::<"@ + field + ">(); "@
}

/// The text of the obligations, one after the other in declaration order.
pub open spec fn rendered_obligations(obligations: Seq<Seq<char>>) -> Seq<char>
    decreases obligations.len(),
{
    if obligations.len() == 0 {
        Seq::empty()
    } else {
        rendered_obligations(obligations.drop_last()) + rendered_obligation(obligations.last())
    }
}

impl RoutineView {
    /// The text of the routine: a function without parameters whose body holds
    /// the obligations and nothing else.
    pub open spec fn rendered(self) -> Seq<char> {
        "#[allow(missing_docs)] #[allow(non_snake_case)] fn "@ + self.name + "() { "@
            + rendered_obligations(self.obligations) + "} "@
    }
}

impl EmissionView {
    /// The text of the grant: the marker trait implemented for the type.
    pub open spec fn rendered_grant(self) -> Seq<char> {
        "unsafe impl ::mem_markers::FixedLayout for "@ + self.grantee + " {}"@
    }

    /// The text of the whole emission: the routine, where there is one, and
    /// then the grant.
    pub open spec fn rendered(self) -> Seq<char> {
        match self.routine {
            Some(routine) => routine.rendered() + self.rendered_grant(),
            None => self.rendered_grant(),
        }
    }
}

impl VerificationRoutine {
    /// Writes the routine out as source text.
    pub fn render(&self) -> (text: String)
        ensures
            text@ == self@.rendered(),
    {
        let mut text = String::from_str("#[allow(missing_docs)] #[allow(non_snake_case)] fn ");
        text.append(self.name.as_str());
        text.append("() { ");
        let ghost head = text@;
        let mut i: usize = 0;
        while i < self.obligations.len()
            invariant
                i <= self.obligations.len(),
                text@ == head + rendered_obligations(self.obligations.deep_view().take(i as int)),
            decreases self.obligations.len() - i,
        {
            let ghost all = self.obligations.deep_view();
            assert(all.take(i + 1).drop_last() =~= all.take(i as int));
            text.append("::mem_markers::ensure_fixed_layout::<");
            text.append(self.obligations[i].as_str());
            text.append(">(); ");
            i += 1;
        }
        assert(self.obligations.deep_view().take(i as int) =~= self.obligations.deep_view());
        text.append("} ");
        text
    }
}

impl Emission {
    /// Writes the emission out as source text: the verification routine, where
    /// there is one, followed by the grant.
    pub fn render(&self) -> (text: String)
        ensures
            text@ == self@.rendered(),
    {
        let mut text = match &self.routine {
            Some(routine) => routine.render(),
            None => String::new(),
        };
        text.append("unsafe impl ::mem_markers::FixedLayout for ");
        text.append(self.grantee.as_str());
        text.append(" {}");
        text
    }
}

} // verus!
