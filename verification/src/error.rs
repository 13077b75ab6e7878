//! The reasons for which an attestation is refused.

use vstd::prelude::*;

verus! {

/// Why a declaration did not receive the fixed-layout attestation.
#[derive(Clone, Debug, PartialEq, Eq)]
pub enum AttestError {
    /// The declaration is no record: an enum or a union.
    UnsupportedShape,
    /// The record has fields but no `repr(C)` or `repr(transparent)`.
    MissingStabilityAnnotation,
    /// The named field type does not itself have a fixed layout.
    UnsatisfiedFieldObligation(String),
}

/// The mathematical value of an [`AttestError`].
pub enum ErrorView {
    UnsupportedShape,
    MissingStabilityAnnotation,
    UnsatisfiedFieldObligation(Seq<char>),
}

impl View for AttestError {
    type V = ErrorView;

    open spec fn view(&self) -> ErrorView {
        match self {
            AttestError::UnsupportedShape => ErrorView::UnsupportedShape,
            AttestError::MissingStabilityAnnotation => ErrorView::MissingStabilityAnnotation,
            AttestError::UnsatisfiedFieldObligation(field_type) =>
                ErrorView::UnsatisfiedFieldObligation(field_type@),
        }
    }
}

impl ErrorView {
    /// The text that is shown for this error.
    pub open spec fn message(self) -> Seq<char> {
        match self {
            ErrorView::UnsupportedShape => "FixedLayout is only supported on structs"@,
            ErrorView::MissingStabilityAnnotation =>
                "FixedLayout trait requires #[repr(C)] or #[repr(transparent)] on structs with fields"@,
            ErrorView::UnsatisfiedFieldObligation(field_type) =>
                "FixedLayout is not implemented for the field type "@ + field_type,
        }
    }
}

impl AttestError {
    /// The text that is shown for this error.
    pub fn message(&self) -> (text: String)
        ensures
            text@ == self@.message(),
    {
        match self {
            AttestError::UnsupportedShape =>
                String::from_str("FixedLayout is only supported on structs"),
            AttestError::MissingStabilityAnnotation => String::from_str(
                "FixedLayout trait requires #[repr(C)] or #[repr(transparent)] on structs with fields",
            ),
            AttestError::UnsatisfiedFieldObligation(field_type) => String::from_str(
                "FixedLayout is not implemented for the field type ",
            ).concat(field_type.as_str()),
        }
    }
}

} // verus!
