use vulkano_shader_derive::attribute::{check_repr_c, list_repr_c, Attribute, AttrValue, ListItem};
use vulkano_shader_derive::error::PipelineError;
use vulkano_shader_derive::mapper::{glsl_ty_from_rs_ty, FieldDescriptor, FieldType, ScalarType};
use vulkano_shader_derive::registry::{struct_definition, StructRegistry};
use vulkano_shader_derive::structure::{derive_struct, DeriveItem, ItemBody};

fn field(name: &str, ty: FieldType) -> FieldDescriptor {
    FieldDescriptor { name: name.to_string(), ty }
}

fn repr(words: &[&str]) -> Attribute {
    Attribute::List {
        name: "repr".to_string(),
        items: words.iter().map(|w| ListItem::Word(w.to_string())).collect(),
    }
}

#[test]
fn every_host_type_maps_to_uvec2() {
    assert_eq!(glsl_ty_from_rs_ty(&FieldType::Vector(ScalarType::U32, 2)), "uvec2");
    assert_eq!(glsl_ty_from_rs_ty(&FieldType::Scalar(ScalarType::F32)), "uvec2");
    assert_eq!(glsl_ty_from_rs_ty(&FieldType::Scalar(ScalarType::Bool)), "uvec2");
    assert_eq!(glsl_ty_from_rs_ty(&FieldType::Vector(ScalarType::F64, 4)), "uvec2");
    assert_eq!(glsl_ty_from_rs_ty(&FieldType::Other), "uvec2");
}

#[test]
fn registering_uniforms_stores_the_exact_definition() {
    let mut registry = StructRegistry::new();
    let fields = vec![field("pos", FieldType::Vector(ScalarType::U32, 2))];
    assert_eq!(registry.register_structure("Uniforms", &fields, true), Ok(()));
    let text = registry.lookup_structure("Uniforms").unwrap();
    assert_eq!(text.as_str(), "Uniforms {\n    uvec2 pos;\n}");
}

#[test]
fn definition_of_a_structure_without_fields() {
    assert_eq!(struct_definition("Empty", &vec![]), "Empty {\n}");
}

#[test]
fn definition_holds_one_line_for_each_field_in_order() {
    let fields = vec![
        field("a", FieldType::Scalar(ScalarType::U32)),
        field("b", FieldType::Scalar(ScalarType::F32)),
        field("c", FieldType::Other),
    ];
    assert_eq!(
        struct_definition("S", &fields),
        "S {\n    uvec2 a;\n    uvec2 b;\n    uvec2 c;\n}"
    );
}

#[test]
fn fields_keep_the_order_of_their_declaration() {
    let mut registry = StructRegistry::new();
    let item = DeriveItem {
        name: "S".to_string(),
        attrs: vec![repr(&["C"])],
        body: ItemBody::Struct(vec![
            field("z", FieldType::Vector(ScalarType::U32, 2)),
            field("a", FieldType::Vector(ScalarType::U32, 2)),
        ]),
    };
    assert_eq!(derive_struct(&mut registry, &item), Ok(()));
    assert_eq!(
        registry.lookup_structure("S").unwrap().as_str(),
        "S {\n    uvec2 z;\n    uvec2 a;\n}"
    );
}

#[test]
fn registry_counts_its_names() {
    let mut registry = StructRegistry::new();
    assert_eq!(registry.len(), 0);
    assert_eq!(registry.register_structure("A", &vec![], true), Ok(()));
    assert_eq!(registry.len(), 1);
    assert_eq!(registry.register_structure("B", &vec![], true), Ok(()));
    assert_eq!(registry.len(), 2);
    assert_eq!(registry.register_structure("A", &vec![field("x", FieldType::Other)], true), Ok(()));
    assert_eq!(registry.len(), 2);
    assert_eq!(registry.register_structure("C", &vec![], false), Err(PipelineError::Layout));
    assert_eq!(registry.len(), 2);
}

#[test]
fn structure_without_fixed_layout_is_refused() {
    let mut registry = StructRegistry::new();
    let fields = vec![field("pos", FieldType::Vector(ScalarType::U32, 2))];
    assert_eq!(registry.register_structure("Uniforms", &fields, false), Err(PipelineError::Layout));
    assert!(!registry.contains("Uniforms"));
    assert_eq!(registry.register_structure("Empty", &vec![], false), Err(PipelineError::Layout));
    assert!(!registry.contains("Empty"));
}

#[test]
fn refused_registration_keeps_the_earlier_entry() {
    let mut registry = StructRegistry::new();
    let one = vec![field("a", FieldType::Other)];
    let two = vec![field("b", FieldType::Other)];
    assert_eq!(registry.register_structure("S", &one, true), Ok(()));
    assert_eq!(registry.register_structure("S", &two, false), Err(PipelineError::Layout));
    assert_eq!(registry.lookup_structure("S").unwrap().as_str(), "S {\n    uvec2 a;\n}");
}

#[test]
fn registering_a_name_again_overwrites_it() {
    let mut registry = StructRegistry::new();
    let one = vec![field("a", FieldType::Other)];
    let two = vec![field("b", FieldType::Other)];
    assert_eq!(registry.register_structure("S", &one, true), Ok(()));
    assert_eq!(registry.register_structure("T", &one, true), Ok(()));
    assert_eq!(registry.register_structure("S", &two, true), Ok(()));
    assert_eq!(registry.lookup_structure("S").unwrap().as_str(), "S {\n    uvec2 b;\n}");
    assert_eq!(registry.lookup_structure("T").unwrap().as_str(), "T {\n    uvec2 a;\n}");
}

#[test]
fn registry_only_grows() {
    let mut registry = StructRegistry::new();
    let names = ["A", "B", "C", "A", "D"];
    let mut seen: Vec<&str> = Vec::new();
    for name in names {
        assert_eq!(registry.register_structure(name, &vec![], true), Ok(()));
        seen.push(name);
        for earlier in &seen {
            assert!(registry.contains(earlier));
        }
    }
}

#[test]
fn lookup_of_an_unregistered_name_fails_with_that_name() {
    let registry = StructRegistry::new();
    assert_eq!(
        registry.lookup_structure("Foo"),
        Err(PipelineError::UnknownStructure { name: "Foo".to_string() })
    );
    assert!(!registry.contains("Foo"));
}

#[test]
fn insert_stores_text_as_given() {
    let mut registry = StructRegistry::new();
    registry.insert("Foo".to_string(), "X".to_string());
    assert!(registry.contains("Foo"));
    assert_eq!(registry.lookup_structure("Foo").unwrap().as_str(), "X");
}

#[test]
fn list_repr_c_accepts_only_the_single_word_c() {
    assert!(list_repr_c(&vec![ListItem::Word("C".to_string())]));
    assert!(!list_repr_c(&vec![]));
    assert!(!list_repr_c(&vec![ListItem::Word("c".to_string())]));
    assert!(!list_repr_c(&vec![ListItem::Word("packed".to_string())]));
    assert!(!list_repr_c(&vec![ListItem::Other]));
    assert!(!list_repr_c(&vec![
        ListItem::Word("C".to_string()),
        ListItem::Word("packed".to_string())
    ]));
    assert!(!list_repr_c(&vec![ListItem::Word("C".to_string()), ListItem::Other]));
}

#[test]
fn check_repr_c_looks_for_repr_c_among_all_attributes() {
    assert_eq!(check_repr_c(&vec![]), Err(PipelineError::Layout));
    assert_eq!(check_repr_c(&vec![repr(&["C"])]), Ok(()));
    assert_eq!(check_repr_c(&vec![repr(&["packed"])]), Err(PipelineError::Layout));
    assert_eq!(check_repr_c(&vec![repr(&["C", "packed"])]), Err(PipelineError::Layout));
    assert_eq!(
        check_repr_c(&vec![Attribute::Word { name: "repr".to_string() }]),
        Err(PipelineError::Layout)
    );
    assert_eq!(
        check_repr_c(&vec![Attribute::NameValue {
            name: "repr".to_string(),
            value: AttrValue::Text("C".to_string())
        }]),
        Err(PipelineError::Layout)
    );
    assert_eq!(
        check_repr_c(&vec![Attribute::List {
            name: "derive".to_string(),
            items: vec![ListItem::Word("C".to_string())]
        }]),
        Err(PipelineError::Layout)
    );
    assert_eq!(
        check_repr_c(&vec![
            Attribute::Word { name: "test".to_string() },
            repr(&["packed"]),
            repr(&["C"]),
        ]),
        Ok(())
    );
}

#[test]
fn derive_struct_registers_a_repr_c_structure() {
    let mut registry = StructRegistry::new();
    let item = DeriveItem {
        name: "Uniforms".to_string(),
        attrs: vec![repr(&["C"])],
        body: ItemBody::Struct(vec![field("pos", FieldType::Vector(ScalarType::U32, 2))]),
    };
    assert_eq!(derive_struct(&mut registry, &item), Ok(()));
    assert_eq!(
        registry.lookup_structure("Uniforms").unwrap().as_str(),
        "Uniforms {\n    uvec2 pos;\n}"
    );
}

#[test]
fn derive_struct_refuses_a_structure_without_repr_c() {
    let mut registry = StructRegistry::new();
    let item = DeriveItem {
        name: "Uniforms".to_string(),
        attrs: vec![Attribute::Word { name: "allow".to_string() }],
        body: ItemBody::Struct(vec![field("pos", FieldType::Vector(ScalarType::U32, 2))]),
    };
    assert_eq!(derive_struct(&mut registry, &item), Err(PipelineError::Layout));
    assert!(!registry.contains("Uniforms"));
}

#[test]
fn derive_struct_refuses_what_is_not_a_structure() {
    let mut registry = StructRegistry::new();
    let item =
        DeriveItem { name: "Kind".to_string(), attrs: vec![repr(&["C"])], body: ItemBody::Other };
    assert_eq!(derive_struct(&mut registry, &item), Err(PipelineError::NotAStructure));
    assert!(!registry.contains("Kind"));
    let bare = DeriveItem { name: "Kind".to_string(), attrs: vec![], body: ItemBody::Other };
    assert_eq!(derive_struct(&mut registry, &bare), Err(PipelineError::NotAStructure));
}

#[test]
fn scalar_types_are_recognised_by_name() {
    assert_eq!(ScalarType::from_name("bool"), Some(ScalarType::Bool));
    assert_eq!(ScalarType::from_name("i32"), Some(ScalarType::I32));
    assert_eq!(ScalarType::from_name("u32"), Some(ScalarType::U32));
    assert_eq!(ScalarType::from_name("f32"), Some(ScalarType::F32));
    assert_eq!(ScalarType::from_name("f64"), Some(ScalarType::F64));
    assert_eq!(ScalarType::from_name("u64"), None);
    assert_eq!(ScalarType::from_name("U32"), None);
    assert_eq!(ScalarType::from_name(""), None);
}
