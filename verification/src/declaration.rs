//! The type declaration that an attestation is requested for.

use vstd::prelude::*;
use crate::annotation::{Annotation, AnnotationView};

verus! {

/// The fields of a record, each given by the text of its declared type, in
/// declaration order.
#[derive(Clone, Debug, PartialEq, Eq)]
pub enum Fields {
    /// Fields with names, as in `struct S { a: A, b: B }`.
    Named(Vec<String>),
    /// Fields by position, as in `struct S(A, B);`.
    Positional(Vec<String>),
    /// No fields at all, as in `struct S;`.
    Unit,
}

/// The mathematical value of a [`Fields`].
pub enum FieldsView {
    Named(Seq<Seq<char>>),
    Positional(Seq<Seq<char>>),
    Unit,
}

impl FieldsView {
    /// The declared field types, in declaration order.
    pub open spec fn types(self) -> Seq<Seq<char>> {
        match self {
            FieldsView::Named(types) => types,
            FieldsView::Positional(types) => types,
            FieldsView::Unit => Seq::empty(),
        }
    }
}

impl View for Fields {
    type V = FieldsView;

    open spec fn view(&self) -> FieldsView {
        match self {
            Fields::Named(types) => FieldsView::Named(types.deep_view()),
            Fields::Positional(types) => FieldsView::Positional(types.deep_view()),
            Fields::Unit => FieldsView::Unit,
        }
    }
}

/// What kind of type a declaration introduces.
#[derive(Clone, Debug, PartialEq, Eq)]
pub enum Shape {
    /// A record: a struct with named fields, positional fields or none.
    Record(Fields),
    /// Anything else, such as an enum or a union.
    NonRecord,
}

/// The mathematical value of a [`Shape`].
pub enum ShapeView {
    Record(FieldsView),
    NonRecord,
}

impl View for Shape {
    type V = ShapeView;

    open spec fn view(&self) -> ShapeView {
        match self {
            Shape::Record(fields) => ShapeView::Record(fields@),
            Shape::NonRecord => ShapeView::NonRecord,
        }
    }
}

/// A type declaration: its name, the annotations attached to it, in the order
/// in which they are written, and its shape.
#[derive(Clone, Debug, PartialEq, Eq)]
pub struct TypeDeclaration {
    pub name: String,
    pub annotations: Vec<Annotation>,
    pub shape: Shape,
}

/// The mathematical value of a [`TypeDeclaration`].
pub struct DeclarationView {
    pub name: Seq<char>,
    pub annotations: Seq<AnnotationView>,
    pub shape: ShapeView,
}

impl View for TypeDeclaration {
    type V = DeclarationView;

    open spec fn view(&self) -> DeclarationView {
        DeclarationView {
            name: self.name@,
            annotations: self.annotations.deep_view(),
            shape: self.shape@,
        }
    }
}

/// Copies a list of texts.
fn clone_texts(texts: &Vec<String>) -> (copy: Vec<String>)
    ensures
        copy.deep_view() == texts.deep_view(),
{
    let mut copy: Vec<String> = Vec::new();
    let mut i: usize = 0;
    while i < texts.len()
        invariant
            i <= texts.len(),
            copy.len() == i,
            forall|j: int| 0 <= j < i ==> copy[j]@ == texts[j]@,
        decreases texts.len() - i,
    {
        copy.push(texts[i].clone());
        i += 1;
    }
    copy
}

/// The declared types of a record's fields, in declaration order.
pub fn field_types(s: &Fields) -> (types: Vec<String>)
    ensures
        types.deep_view() == s@.types(),
{
    match s {
        Fields::Named(types) => clone_texts(types),
        Fields::Positional(types) => clone_texts(types),
        Fields::Unit => {
            let types: Vec<String> = Vec::new();
            types
        },
    }
}

} // verus!
