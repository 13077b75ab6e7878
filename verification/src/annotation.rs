//! Annotations and the evidence of a stable representation among them.
//!
//! An annotation is held by its structure, as far as the decision reads it:
//! whether it is a list, the identifier that names the list, and the entries of
//! the list.

use vstd::prelude::*;

verus! {

/// One entry of a list annotation, such as the `C` in `#[repr(C)]`.
#[derive(Clone, Debug, PartialEq, Eq)]
pub enum ListEntry {
    /// A bare path. It holds the path's identifier where the path is a single
    /// identifier, and nothing where it is longer or starts with `::`.
    Path(Option<String>),
    /// A list, a name with a value, or a literal.
    Other,
}

/// The mathematical value of a [`ListEntry`].
pub enum ListEntryView {
    Path(Option<Seq<char>>),
    Other,
}

impl View for ListEntry {
    type V = ListEntryView;

    open spec fn view(&self) -> ListEntryView {
        match self {
            ListEntry::Path(ident) => ListEntryView::Path(ident.deep_view()),
            ListEntry::Other => ListEntryView::Other,
        }
    }
}

impl DeepView for ListEntry {
    type V = ListEntryView;

    open spec fn deep_view(&self) -> ListEntryView {
        self@
    }
}

/// An annotation attached to a declaration.
#[derive(Clone, Debug, PartialEq, Eq)]
pub enum Annotation {
    /// A bare path, such as `#[test]`.
    Path,
    /// A path followed by a list in parentheses, such as `#[repr(C)]`. It holds
    /// the path's identifier, where the path is a single identifier, and the
    /// entries of the list in order.
    List(Option<String>, Vec<ListEntry>),
    /// A path with a value, such as `#[doc = "text"]`.
    NameValue,
    /// Tokens of no such structure.
    Unstructured,
}

/// The mathematical value of an [`Annotation`].
pub enum AnnotationView {
    Path,
    List(Option<Seq<char>>, Seq<ListEntryView>),
    NameValue,
    Unstructured,
}

impl View for Annotation {
    type V = AnnotationView;

    open spec fn view(&self) -> AnnotationView {
        match self {
            Annotation::Path => AnnotationView::Path,
            Annotation::List(ident, entries) => AnnotationView::List(
                ident.deep_view(),
                entries.deep_view(),
            ),
            Annotation::NameValue => AnnotationView::NameValue,
            Annotation::Unstructured => AnnotationView::Unstructured,
        }
    }
}

impl DeepView for Annotation {
    type V = AnnotationView;

    open spec fn deep_view(&self) -> AnnotationView {
        self@
    }
}

/// Whether a path is the single identifier `word`.
pub open spec fn is_ident(ident: Option<Seq<char>>, word: Seq<char>) -> bool {
    ident == Some(word)
}

impl AnnotationView {
    /// Whether this is one of the two markers of a stable representation:
    /// `repr(C)` or `repr(transparent)`. The list must hold that one entry and
    /// nothing else.
    pub open spec fn is_stable_repr(self) -> bool {
        &&& self matches AnnotationView::List(ident, entries)
        &&& is_ident(ident, "repr"@)
        &&& entries.len() == 1
        &&& entries[0] matches ListEntryView::Path(entry)
        &&& (is_ident(entry, "C"@) || is_ident(entry, "transparent"@))
    }
}

/// Whether a marker of a stable representation is among the annotations.
pub open spec fn stable_repr_among(annotations: Seq<AnnotationView>) -> bool {
    exists|i: int| 0 <= i < annotations.len() && (#[trigger] annotations[i]).is_stable_repr()
}

/// Whether `ident` is the single identifier `word`.
fn ident_is(ident: &Option<String>, word: &str) -> (same: bool)
    ensures
        same == is_ident(ident.deep_view(), word@),
{
    match ident {
        Some(name) => *name == String::from_str(word),
        None => false,
    }
}

/// Whether an annotation is `repr(C)` or `repr(transparent)`.
pub fn is_stable_repr(annotation: &Annotation) -> (stable: bool)
    ensures
        stable == annotation@.is_stable_repr(),
{
    match annotation {
        Annotation::List(ident, entries) => {
            if !ident_is(ident, "repr") || entries.len() != 1 {
                return false;
            }
            match &entries[0] {
                ListEntry::Path(entry) => ident_is(entry, "C") || ident_is(entry, "transparent"),
                ListEntry::Other => false,
            }
        },
        Annotation::Path => false,
        Annotation::NameValue => false,
        Annotation::Unstructured => false,
    }
}

/// Whether a marker of a stable representation, `repr(C)` or
/// `repr(transparent)`, is among the annotations.
pub fn has_stable_repr(attrs: &Vec<Annotation>) -> (found: bool)
    ensures
        found == stable_repr_among(attrs.deep_view()),
{
    let mut i: usize = 0;
    while i < attrs.len()
        invariant
            i <= attrs.len(),
            forall|j: int| 0 <= j < i ==> !(#[trigger] attrs.deep_view()[j]).is_stable_repr(),
        decreases attrs.len() - i,
    {
        assert(attrs.deep_view()[i as int] == attrs[i as int]@);
        if is_stable_repr(&attrs[i]) {
            return true;
        }
        i += 1;
    }
    false
}

} // verus!
