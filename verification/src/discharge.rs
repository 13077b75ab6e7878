//! The discharge of obligations against the types that are known to have a
//! fixed layout, and the attestation as a whole.
//!
//! A type is identified by its text. The types that carry the capability are
//! kept as a list; only membership matters.

use vstd::prelude::*;
use crate::declaration::{DeclarationView, TypeDeclaration};
use crate::emission::{expand, expansion, Emission};
use crate::error::{AttestError, ErrorView};

verus! {

/// Whether every obligation names a type that carries the capability.
pub open spec fn all_discharged(obligations: Seq<Seq<char>>, capable: Seq<Seq<char>>) -> bool {
    forall|i: int| 0 <= i < obligations.len() ==> capable.contains(#[trigger] obligations[i])
}

/// Whether the obligation at `k` is the first, in declaration order, whose
/// type lacks the capability.
pub open spec fn is_first_unsatisfied(
    obligations: Seq<Seq<char>>,
    capable: Seq<Seq<char>>,
    k: int,
) -> bool {
    &&& 0 <= k < obligations.len()
    &&& !capable.contains(obligations[k])
    &&& forall|j: int| 0 <= j < k ==> capable.contains(#[trigger] obligations[j])
}

/// The outcome of the discharge: success where every obligation holds, and else
/// the error that names the type of the first that does not.
pub open spec fn discharge_outcome(
    obligations: Seq<Seq<char>>,
    capable: Seq<Seq<char>>,
) -> Result<(), ErrorView> {
    if all_discharged(obligations, capable) {
        Ok(())
    } else {
        let k = choose|k: int| is_first_unsatisfied(obligations, capable, k);
        Err(ErrorView::UnsatisfiedFieldObligation(obligations[k]))
    }
}

/// The outcome of an attestation: the error of the expansion or of the
/// discharge, and else the capable types with the declared type added.
pub open spec fn attestation(
    declaration: DeclarationView,
    capable: Seq<Seq<char>>,
) -> Result<Seq<Seq<char>>, ErrorView> {
    match expansion(declaration) {
        Err(error) => Err(error),
        Ok(emission) => match discharge_outcome(emission.obligations(), capable) {
            Err(error) => Err(error),
            Ok(()) => Ok(capable.push(declaration.name)),
        },
    }
}

/// At most one obligation is the first unsatisfied one.
pub proof fn lemma_first_unsatisfied_unique(
    obligations: Seq<Seq<char>>,
    capable: Seq<Seq<char>>,
    k: int,
)
    requires
        is_first_unsatisfied(obligations, capable, k),
    ensures
        !all_discharged(obligations, capable),
        (choose|c: int| is_first_unsatisfied(obligations, capable, c)) == k,
        discharge_outcome(obligations, capable) == Err::<(), ErrorView>(
            ErrorView::UnsatisfiedFieldObligation(obligations[k]),
        ),
{
}

/// Whether the type `field` is among the types that carry the capability.
pub fn carries_capability(capable: &Vec<String>, field: &str) -> (found: bool)
    ensures
        found == capable.deep_view().contains(field@),
{
    let wanted = String::from_str(field);
    let mut i: usize = 0;
    while i < capable.len()
        invariant
            i <= capable.len(),
            wanted@ == field@,
            forall|j: int| 0 <= j < i ==> capable.deep_view()[j] != field@,
        decreases capable.len() - i,
    {
        assert(capable.deep_view()[i as int] == capable[i as int]@);
        if capable[i] == wanted {
            return true;
        }
        i += 1;
    }
    false
}

/// Discharges the obligations of an emission, in declaration order, against the
/// types that carry the capability.
///
/// Fails at the first obligation whose type carries none, and names that type.
pub fn discharge(emission: &Emission, capable: &Vec<String>) -> (outcome: Result<(), AttestError>)
    ensures
        match outcome {
            Ok(()) => discharge_outcome(emission@.obligations(), capable.deep_view()) == Ok::<
                (),
                ErrorView,
            >(()),
            Err(error) => discharge_outcome(emission@.obligations(), capable.deep_view()) == Err::<
                (),
                ErrorView,
            >(error@),
        },
{
    match &emission.routine {
        None => Ok(()),
        Some(routine) => {
            let ghost obligations = routine.obligations.deep_view();
            let mut i: usize = 0;
            while i < routine.obligations.len()
                invariant
                    i <= routine.obligations.len(),
                    obligations == routine.obligations.deep_view(),
                    obligations == emission@.obligations(),
                    forall|j: int|
                        0 <= j < i ==> capable.deep_view().contains(#[trigger] obligations[j]),
                decreases routine.obligations.len() - i,
            {
                if !carries_capability(capable, routine.obligations[i].as_str()) {
                    proof {
                        lemma_first_unsatisfied_unique(obligations, capable.deep_view(), i as int);
                    }
                    return Err(
                        AttestError::UnsatisfiedFieldObligation(routine.obligations[i].clone()),
                    );
                }
                i += 1;
            }
            Ok(())
        },
    }
}

/// Attests a declaration against the types that carry the capability.
///
/// The declaration is expanded and its obligations are discharged. On success
/// the declared type is added to the capable types; on failure they stay as
/// they were.
pub fn attest(input: &TypeDeclaration, capable: &mut Vec<String>) -> (outcome: Result<
    (),
    AttestError,
>)
    ensures
        match outcome {
            Ok(()) => attestation(input@, old(capable).deep_view()) == Ok::<
                Seq<Seq<char>>,
                ErrorView,
            >(final(capable).deep_view()),
            Err(error) => {
                &&& attestation(input@, old(capable).deep_view()) == Err::<
                    Seq<Seq<char>>,
                    ErrorView,
                >(error@)
                &&& final(capable).deep_view() == old(capable).deep_view()
            },
        },
{
    let emission = match expand(input) {
        Ok(emission) => emission,
        Err(error) => {
            return Err(error);
        },
    };
    match discharge(&emission, capable) {
        Ok(()) => {
            capable.push(input.name.clone());
            assert(capable.deep_view() =~= old(capable).deep_view().push(input.name@));
            Ok(())
        },
        Err(error) => Err(error),
    }
}

} // verus!
