use vulkano_shader_derive::error::PipelineError;
use vulkano_shader_derive::placeholder::{substitute, PLACEHOLDER_GROUP, PLACEHOLDER_PATTERN};
use vulkano_shader_derive::registry::StructRegistry;

fn registry_with(entries: &[(&str, &str)]) -> StructRegistry {
    let mut registry = StructRegistry::new();
    for (name, text) in entries {
        registry.insert(name.to_string(), text.to_string());
    }
    registry
}

fn unknown(name: &str) -> Result<String, PipelineError> {
    Err(PipelineError::UnknownStructure { name: name.to_string() })
}

#[test]
fn pattern_is_the_marker_with_a_group_of_letters() {
    assert_eq!(PLACEHOLDER_PATTERN, "#\\[vulkano_struct\\((?P<name>[A-Za-z]+)\\)\\]");
    assert_eq!(PLACEHOLDER_GROUP, "name");
}

#[test]
fn text_without_placeholders_is_unchanged() {
    let registry = registry_with(&[("Foo", "X")]);
    let empty = StructRegistry::new();
    let texts = [
        "",
        "void main() {}",
        "#version 450\nlayout(location = 0) in vec2 point;\n",
        "#[vulkano_struct()]",
        "#[vulkano_struct(Foo)",
        "#[vulkano_struct(Foo1)]",
        "#[vulkano_struct(Foo_Bar)]",
        "#[vulkano_struct( Foo )]",
        "[vulkano_struct(Foo)]",
        "#[Vulkano_struct(Foo)]",
        "#[vulkano_struct(F\u{e9})]",
        "gr\u{fc}\u{df}e \u{4e16}\u{754c}",
    ];
    for text in texts {
        assert_eq!(substitute(text, &registry), Ok(text.to_string()));
        assert_eq!(substitute(text, &empty), Ok(text.to_string()));
    }
}

#[test]
fn substituting_twice_changes_nothing_more() {
    let registry = registry_with(&[("Foo", "X")]);
    let once = substitute("a #[vulkano_struct(Foo)] b", &registry).unwrap();
    assert_eq!(once, "a X b");
    assert_eq!(substitute(&once, &registry), Ok(once.clone()));
}

#[test]
fn placeholder_is_replaced_by_the_registered_text() {
    let registry = registry_with(&[("Foo", "X")]);
    assert_eq!(substitute("... #[vulkano_struct(Foo)] ...", &registry), Ok("... X ...".to_string()));
    assert_eq!(substitute("#[vulkano_struct(Foo)]", &registry), Ok("X".to_string()));
}

#[test]
fn placeholder_of_an_unregistered_structure_fails_with_its_name() {
    let registry = StructRegistry::new();
    assert_eq!(substitute("... #[vulkano_struct(Foo)] ...", &registry), unknown("Foo"));
}

#[test]
fn every_placeholder_is_replaced_from_left_to_right() {
    let registry = registry_with(&[("A", "one"), ("B", "two")]);
    assert_eq!(
        substitute("#[vulkano_struct(A)]#[vulkano_struct(B)] #[vulkano_struct(A)]!", &registry),
        Ok("onetwo one!".to_string())
    );
    assert_eq!(
        substitute("x#[vulkano_struct(B)]y#[vulkano_struct(B)]z", &registry),
        Ok("xtwoytwoz".to_string())
    );
}

#[test]
fn first_unresolved_name_is_reported() {
    let registry = registry_with(&[("A", "one")]);
    assert_eq!(
        substitute("#[vulkano_struct(A)] #[vulkano_struct(Q)] #[vulkano_struct(R)]", &registry),
        unknown("Q")
    );
    assert_eq!(
        substitute("#[vulkano_struct(R)] #[vulkano_struct(Q)] #[vulkano_struct(A)]", &registry),
        unknown("R")
    );
}

#[test]
fn names_are_matched_exactly() {
    let registry = registry_with(&[("Foo", "X")]);
    assert_eq!(substitute("#[vulkano_struct(foo)]", &registry), unknown("foo"));
    assert_eq!(substitute("#[vulkano_struct(Fo)]", &registry), unknown("Fo"));
    assert_eq!(substitute("#[vulkano_struct(Fooo)]", &registry), unknown("Fooo"));
}

#[test]
fn inserted_text_is_not_read_again() {
    let registry = registry_with(&[("A", "#[vulkano_struct(B)]"), ("B", "two")]);
    assert_eq!(substitute("<#[vulkano_struct(A)]>", &registry), Ok("<#[vulkano_struct(B)]>".to_string()));
}

#[test]
fn placeholder_inside_a_broken_placeholder_is_found() {
    let registry = registry_with(&[("Foo", "X")]);
    assert_eq!(
        substitute("#[vulkano_struct(#[vulkano_struct(Foo)])]", &registry),
        Ok("#[vulkano_struct(X)]".to_string())
    );
    assert_eq!(
        substitute("#[vulkano_struct(Foo#[vulkano_struct(Foo)]", &registry),
        Ok("#[vulkano_struct(FooX".to_string())
    );
}

#[test]
fn text_around_a_placeholder_keeps_characters_outside_ascii() {
    let registry = registry_with(&[("Foo", "\u{e4}X\u{f6}")]);
    assert_eq!(
        substitute("\u{4e16}#[vulkano_struct(Foo)]\u{754c}", &registry),
        Ok("\u{4e16}\u{e4}X\u{f6}\u{754c}".to_string())
    );
}

#[test]
fn two_shaders_get_the_same_text_for_the_same_structure() {
    let registry = registry_with(&[("Uniforms", "Uniforms {\n    uvec2 pos;\n}")]);
    let first = substitute("uniform #[vulkano_struct(Uniforms)] a;", &registry).unwrap();
    let second = substitute("layout(set = 1) uniform #[vulkano_struct(Uniforms)] b;", &registry).unwrap();
    assert_eq!(first, "uniform Uniforms {\n    uvec2 pos;\n} a;");
    assert_eq!(second, "layout(set = 1) uniform Uniforms {\n    uvec2 pos;\n} b;");
    let again = substitute("uniform #[vulkano_struct(Uniforms)] a;", &registry).unwrap();
    assert_eq!(first, again);
    assert_eq!(registry.lookup_structure("Uniforms").unwrap().as_str(), "Uniforms {\n    uvec2 pos;\n}");
}

#[test]
fn many_placeholders_of_registered_structures_all_resolve() {
    let registry = registry_with(&[("A", "one"), ("B", "two"), ("C", "three")]);
    let source = "#[vulkano_struct(C)]-#[vulkano_struct(A)]-#[vulkano_struct(B)]-#[vulkano_struct(C)]";
    assert_eq!(substitute(source, &registry), Ok("three-one-two-three".to_string()));
}

#[test]
fn entries_that_no_placeholder_names_do_not_matter() {
    let small = registry_with(&[("A", "one")]);
    let large = registry_with(&[("A", "one"), ("B", "two"), ("Z", "last")]);
    let source = "x #[vulkano_struct(A)] y";
    assert_eq!(substitute(source, &small), substitute(source, &large));
    assert_eq!(substitute(source, &small), Ok("x one y".to_string()));
}
