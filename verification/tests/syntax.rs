use fixed_layout::annotation::{has_stable_repr, Annotation, ListEntry};
use fixed_layout::declaration::{Fields, Shape, TypeDeclaration};
use fixed_layout::discharge::attest;
use fixed_layout::emission::{expand, Emission, VerificationRoutine};
use fixed_layout::error::AttestError;
use quote::ToTokens;
use syn::{Data, DeriveInput, Meta, NestedMeta};

fn texts(items: &[&str]) -> Vec<String> {
    items.iter().map(|item| item.to_string()).collect()
}

fn ident_of(path: &syn::Path) -> Option<String> {
    path.get_ident().map(|ident| ident.to_string())
}

fn entry_of(entry: &NestedMeta) -> ListEntry {
    match entry {
        NestedMeta::Meta(Meta::Path(path)) => ListEntry::Path(ident_of(path)),
        NestedMeta::Meta(Meta::List(_)) => ListEntry::Other,
        NestedMeta::Meta(Meta::NameValue(_)) => ListEntry::Other,
        NestedMeta::Lit(_) => ListEntry::Other,
    }
}

fn annotation_of(attr: &syn::Attribute) -> Annotation {
    match attr.parse_meta() {
        Ok(Meta::Path(_)) => Annotation::Path,
        Ok(Meta::NameValue(_)) => Annotation::NameValue,
        Ok(Meta::List(list)) => {
            Annotation::List(ident_of(&list.path), list.nested.iter().map(entry_of).collect())
        }
        Err(_) => Annotation::Unstructured,
    }
}

fn declaration_of(source: &str) -> TypeDeclaration {
    let input = syn::parse_str::<DeriveInput>(source).unwrap();
    let shape = match &input.data {
        Data::Struct(s) => {
            let types = s.fields.iter().map(|f| f.ty.to_token_stream().to_string()).collect();
            Shape::Record(match &s.fields {
                syn::Fields::Named(_) => Fields::Named(types),
                syn::Fields::Unnamed(_) => Fields::Positional(types),
                syn::Fields::Unit => Fields::Unit,
            })
        }
        Data::Enum(_) => Shape::NonRecord,
        Data::Union(_) => Shape::NonRecord,
    };
    let annotations = input.attrs.iter().map(annotation_of).collect();
    TypeDeclaration { name: input.ident.to_string(), annotations, shape }
}

#[test]
fn header_source_with_repr_c_is_attested() {
    let declaration = declaration_of("#[repr(C)] struct Header { a: u32, b: u32 }");
    assert_eq!(
        expand(&declaration),
        Ok(Emission {
            routine: Some(VerificationRoutine {
                name: "__ensure_fixed_layout_for_Header".to_string(),
                obligations: texts(&["u32", "u32"]),
            }),
            grantee: "Header".to_string(),
        })
    );
    let mut capable = texts(&["u32"]);
    assert_eq!(attest(&declaration, &mut capable), Ok(()));
    assert_eq!(capable, texts(&["u32", "Header"]));
}

#[test]
fn header_source_without_annotation_is_refused() {
    let declaration = declaration_of("struct Header { a: u32, b: u32 }");
    assert_eq!(expand(&declaration), Err(AttestError::MissingStabilityAnnotation));
}

#[test]
fn header_source_with_unattested_field_is_refused() {
    let declaration = declaration_of("#[repr(C)] struct Header { a: u32, b: SomeUnattestedType }");
    let mut capable = texts(&["u32"]);
    assert_eq!(
        attest(&declaration, &mut capable),
        Err(AttestError::UnsatisfiedFieldObligation("SomeUnattestedType".to_string()))
    );
    assert_eq!(capable, texts(&["u32"]));
}

#[test]
fn marker_source_without_fields_is_approved() {
    for source in ["struct Marker {}", "struct Marker;", "struct Marker();", "#[repr(packed)] struct Marker;"] {
        let declaration = declaration_of(source);
        assert_eq!(
            expand(&declaration),
            Ok(Emission { routine: None, grantee: "Marker".to_string() })
        );
    }
}

#[test]
fn enum_and_union_sources_are_unsupported() {
    for source in [
        "enum E { A, B }",
        "#[repr(C)] enum E { A, B }",
        "enum Never {}",
        "#[repr(C)] union U { a: u32, b: f32 }",
    ] {
        assert_eq!(expand(&declaration_of(source)), Err(AttestError::UnsupportedShape));
    }
}

#[test]
fn written_markers_are_recognised() {
    for source in [
        "#[repr(C)] struct S(u8);",
        "#[repr(transparent)] struct S(u8);",
        "#[repr(C,)] struct S(u8);",
        "#[derive(Debug)] #[doc = \"text\"] #[repr(C)] struct S(u8);",
        "/// Text.\n#[repr(packed)] #[repr(transparent)] struct S(u8);",
    ] {
        assert!(has_stable_repr(&declaration_of(source).annotations), "{}", source);
    }
}

#[test]
fn other_written_annotations_are_no_markers() {
    for source in [
        "struct S(u8);",
        "#[repr] struct S(u8);",
        "#[repr()] struct S(u8);",
        "#[repr = \"C\"] struct S(u8);",
        "#[repr(\"C\")] struct S(u8);",
        "#[repr(c)] struct S(u8);",
        "#[repr(C, packed)] struct S(u8);",
        "#[repr(packed)] struct S(u8);",
        "#[repr(align(8))] struct S(u8);",
        "#[repr(C = 1)] struct S(u8);",
        "#[repr(::C)] struct S(u8);",
        "#[repr(a::C)] struct S(u8);",
        "#[::repr(C)] struct S(u8);",
        "#[a::repr(C)] struct S(u8);",
        "#[repr[C]] struct S(u8);",
        "#[repr{C}] struct S(u8);",
        "#[repr(C D)] struct S(u8);",
        "#[derive(C)] struct S(u8);",
        "#[doc = \"repr(C)\"] struct S(u8);",
    ] {
        let declaration = declaration_of(source);
        assert!(!has_stable_repr(&declaration.annotations), "{}", source);
        assert_eq!(expand(&declaration), Err(AttestError::MissingStabilityAnnotation));
    }
}

#[test]
fn raw_type_name_gives_an_identifier() {
    let declaration = declaration_of("#[repr(C)] struct r#try { a: u8 }");
    let emission = expand(&declaration).unwrap();
    let routine = emission.routine.clone().unwrap();
    assert_eq!(routine.name, "__ensure_fixed_layout_for_try");
    assert!(syn::parse_str::<syn::Ident>(&routine.name).is_ok());
    assert_eq!(emission.grantee, "r#try");
    assert_eq!(syn::parse_str::<syn::File>(&emission.render()).unwrap().items.len(), 2);
}
