//! What holds of every attestation.

use vstd::prelude::*;
use crate::annotation::stable_repr_among;
use crate::declaration::{DeclarationView, ShapeView};
use crate::discharge::{
    all_discharged, attestation, is_first_unsatisfied, lemma_first_unsatisfied_unique,
};
use crate::emission::{expansion, routine_name, EmissionView, RoutineView};
use crate::error::ErrorView;

verus! {

/// A record without fields is approved whatever its annotations are: it gets
/// the grant and no verification routine, and its attestation succeeds
/// whichever types carry the capability.
pub proof fn law_empty_record_is_approved(declaration: DeclarationView, capable: Seq<Seq<char>>)
    requires
        declaration.shape matches ShapeView::Record(fields) && fields.types().len() == 0,
    ensures
        expansion(declaration) == Ok::<EmissionView, ErrorView>(
            EmissionView { routine: None, grantee: declaration.name },
        ),
        attestation(declaration, capable) == Ok::<Seq<Seq<char>>, ErrorView>(
            capable.push(declaration.name),
        ),
{
}

/// A record with fields and without a marker of a stable representation is
/// refused for the missing annotation, and so is its attestation.
pub proof fn law_fields_need_stable_repr(declaration: DeclarationView, capable: Seq<Seq<char>>)
    requires
        declaration.shape matches ShapeView::Record(fields) && fields.types().len() >= 1,
        !stable_repr_among(declaration.annotations),
    ensures
        expansion(declaration) == Err::<EmissionView, ErrorView>(
            ErrorView::MissingStabilityAnnotation,
        ),
        attestation(declaration, capable) == Err::<Seq<Seq<char>>, ErrorView>(
            ErrorView::MissingStabilityAnnotation,
        ),
{
}

/// A record with fields and a marker of a stable representation is expanded
/// into a routine with one obligation per field, in declaration order, and the
/// grant.
pub proof fn law_annotated_record_is_expanded(declaration: DeclarationView)
    requires
        declaration.shape matches ShapeView::Record(fields) && fields.types().len() >= 1,
        stable_repr_among(declaration.annotations),
    ensures
        expansion(declaration) == Ok::<EmissionView, ErrorView>(
            EmissionView {
                routine: Some(
                    RoutineView {
                        name: routine_name(declaration.name),
                        obligations: declaration.shape->Record_0.types(),
                    },
                ),
                grantee: declaration.name,
            },
        ),
{
}

/// Whatever is emitted holds the grant for the declared type together with one
/// obligation for each of its fields, in declaration order: no grant comes
/// without the obligations that justify it.
pub proof fn law_grant_comes_with_every_obligation(declaration: DeclarationView)
    requires
        expansion(declaration) is Ok,
    ensures
        declaration.shape is Record,
        expansion(declaration)->Ok_0.grantee == declaration.name,
        expansion(declaration)->Ok_0.obligations() == declaration.shape->Record_0.types(),
{
}

/// Only a record is attested, and one with fields only if it has a marker of a
/// stable representation and each of its field types carries the capability.
pub proof fn law_attested_record_qualifies(declaration: DeclarationView, capable: Seq<Seq<char>>)
    requires
        attestation(declaration, capable) is Ok,
    ensures
        declaration.shape is Record,
        declaration.shape->Record_0.types().len() >= 1 ==> {
            &&& stable_repr_among(declaration.annotations)
            &&& all_discharged(declaration.shape->Record_0.types(), capable)
        },
{
}

/// A record with fields, a marker of a stable representation and only field
/// types that carry the capability is attested: the declared type carries the
/// capability from then on, and every type that carried it still does.
pub proof fn law_capable_fields_are_attested(declaration: DeclarationView, capable: Seq<Seq<char>>)
    requires
        declaration.shape matches ShapeView::Record(fields) && fields.types().len() >= 1,
        stable_repr_among(declaration.annotations),
        forall|i: int|
            0 <= i < declaration.shape->Record_0.types().len() ==> capable.contains(
                #[trigger] declaration.shape->Record_0.types()[i],
            ),
    ensures
        attestation(declaration, capable) is Ok,
        attestation(declaration, capable)->Ok_0 == capable.push(declaration.name),
        attestation(declaration, capable)->Ok_0.contains(declaration.name),
        forall|field: Seq<char>|
            capable.contains(field) ==> attestation(declaration, capable)->Ok_0.contains(field),
{
    let granted = capable.push(declaration.name);
    assert(granted[capable.len() as int] == declaration.name);
    assert forall|field: Seq<char>| capable.contains(field) implies granted.contains(field) by {
        let i = choose|i: int| 0 <= i < capable.len() && capable[i] == field;
        assert(granted[i] == field);
    }
}

/// Once a type is attested, a record whose fields are of that type or of types
/// that carried the capability before is attested in turn: the first
/// attestation need not be asked for again.
pub proof fn law_attestation_lasts(
    first: DeclarationView,
    second: DeclarationView,
    capable: Seq<Seq<char>>,
)
    requires
        attestation(first, capable) is Ok,
        second.shape matches ShapeView::Record(fields) && fields.types().len() >= 1,
        stable_repr_among(second.annotations),
        forall|i: int|
            0 <= i < second.shape->Record_0.types().len() ==> {
                let field = #[trigger] second.shape->Record_0.types()[i];
                field == first.name || capable.contains(field)
            },
    ensures
        attestation(second, attestation(first, capable)->Ok_0) is Ok,
{
    let granted = attestation(first, capable)->Ok_0;
    assert(granted[capable.len() as int] == first.name);
    let fields = second.shape->Record_0.types();
    assert forall|i: int| 0 <= i < fields.len() implies granted.contains(#[trigger] fields[i]) by {
        if fields[i] != first.name {
            let j = choose|j: int| 0 <= j < capable.len() && capable[j] == fields[i];
            assert(granted[j] == fields[i]);
        }
    }
}

/// A record with fields and a marker of a stable representation, one of whose
/// field types lacks the capability, is refused: its attestation is the error
/// that names the first such type in declaration order, so nothing is granted.
pub proof fn law_incapable_field_is_refused(
    declaration: DeclarationView,
    capable: Seq<Seq<char>>,
    k: int,
)
    requires
        declaration.shape matches ShapeView::Record(fields) && fields.types().len() >= 1,
        stable_repr_among(declaration.annotations),
        is_first_unsatisfied(declaration.shape->Record_0.types(), capable, k),
    ensures
        attestation(declaration, capable) == Err::<Seq<Seq<char>>, ErrorView>(
            ErrorView::UnsatisfiedFieldObligation(declaration.shape->Record_0.types()[k]),
        ),
{
    lemma_first_unsatisfied_unique(declaration.shape->Record_0.types(), capable, k);
}

/// Where some field type lacks the capability, one of them is the first.
pub proof fn lemma_some_obligation_is_first(obligations: Seq<Seq<char>>, capable: Seq<Seq<char>>)
    requires
        !all_discharged(obligations, capable),
    ensures
        exists|k: int| is_first_unsatisfied(obligations, capable, k),
    decreases obligations.len(),
{
    let i = choose|i: int| 0 <= i < obligations.len() && !capable.contains(#[trigger] obligations[i]);
    let head = obligations.take(i);
    if all_discharged(head, capable) {
        assert forall|j: int| 0 <= j < i implies capable.contains(#[trigger] obligations[j]) by {
            assert(head[j] == obligations[j]);
        }
        assert(is_first_unsatisfied(obligations, capable, i));
    } else {
        lemma_some_obligation_is_first(head, capable);
        let k = choose|k: int| is_first_unsatisfied(head, capable, k);
        assert forall|j: int| 0 <= j < k implies capable.contains(#[trigger] obligations[j]) by {
            assert(head[j] == obligations[j]);
        }
        assert(is_first_unsatisfied(obligations, capable, k));
    }
}

/// A record with fields and a marker of a stable representation is refused for
/// an unsatisfied obligation if one of its field types lacks the capability.
/// The type that the error names is such a field type.
pub proof fn law_refusal_names_an_incapable_field(
    declaration: DeclarationView,
    capable: Seq<Seq<char>>,
)
    requires
        declaration.shape matches ShapeView::Record(fields) && fields.types().len() >= 1,
        stable_repr_among(declaration.annotations),
        !all_discharged(declaration.shape->Record_0.types(), capable),
    ensures
        attestation(declaration, capable) matches Err(ErrorView::UnsatisfiedFieldObligation(field))
            && declaration.shape->Record_0.types().contains(field) && !capable.contains(field),
{
    let fields = declaration.shape->Record_0.types();
    lemma_some_obligation_is_first(fields, capable);
    let k = choose|k: int| is_first_unsatisfied(fields, capable, k);
    lemma_first_unsatisfied_unique(fields, capable, k);
}

/// A declaration that is no record is refused as unsupported, whatever its
/// annotations are and whichever types carry the capability.
pub proof fn law_non_record_is_unsupported(declaration: DeclarationView, capable: Seq<Seq<char>>)
    requires
        declaration.shape is NonRecord,
    ensures
        expansion(declaration) == Err::<EmissionView, ErrorView>(ErrorView::UnsupportedShape),
        attestation(declaration, capable) == Err::<Seq<Seq<char>>, ErrorView>(
            ErrorView::UnsupportedShape,
        ),
{
}

/// The order of the fields does not decide the outcome: two records with the
/// same name and annotations whose field types are the same up to their order
/// are both expanded or both refused, and both attested or both refused.
pub proof fn law_field_order_is_irrelevant(
    one: DeclarationView,
    other: DeclarationView,
    capable: Seq<Seq<char>>,
)
    requires
        one.shape is Record,
        other.shape is Record,
        one.name == other.name,
        one.annotations == other.annotations,
        one.shape->Record_0.types().to_multiset() == other.shape->Record_0.types().to_multiset(),
    ensures
        expansion(one) is Ok <==> expansion(other) is Ok,
        expansion(one) is Err ==> expansion(one)->Err_0 == expansion(other)->Err_0,
        attestation(one, capable) is Ok <==> attestation(other, capable) is Ok,
        attestation(one, capable) is Ok ==> attestation(one, capable) == attestation(
            other,
            capable,
        ),
{
    let a = one.shape->Record_0.types();
    let b = other.shape->Record_0.types();
    a.to_multiset_ensures();
    b.to_multiset_ensures();
    assert forall|field: Seq<char>| a.contains(field) <==> b.contains(field) by {
        assert(a.to_multiset().count(field) == b.to_multiset().count(field));
    }
    if all_discharged(a, capable) {
        assert forall|i: int| 0 <= i < b.len() implies capable.contains(#[trigger] b[i]) by {
            assert(a.contains(b[i]));
        }
    }
    if all_discharged(b, capable) {
        assert forall|i: int| 0 <= i < a.len() implies capable.contains(#[trigger] a[i]) by {
            assert(b.contains(a[i]));
        }
    }
}

} // verus!
