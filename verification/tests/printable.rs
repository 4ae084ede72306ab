use glsl::parser::Parse;
use glsl::syntax::{
    Identifier, Initializer, LayoutQualifier, NonEmpty, StructFieldSpecifier, TranslationUnit,
    TypeQualifier, TypeQualifierSpec, TypeSpecifier, TypeSpecifierNonArray,
};
use tweak_shader_ae::printable::{
    can_print, can_print_field, can_print_initializer, can_print_qualifier, can_print_type,
};

fn tree(source: &str) -> TranslationUnit {
    TranslationUnit::parse(source).expect("the source parses")
}

#[test]
fn parsed_shaders_with_full_lists_can_be_printed() {
    assert!(can_print(&tree(
        "layout(location = 0) out vec4 c;\nstruct S { const float a, b; } s;\nuniform B { vec4 v; };\nvoid f(in float x) {}\nvoid main() {\n  float t[2] = { 1.0, 2.0 };\n  for (int i = 0; i < 2; i++) { if (t[i] > 1.0) { c = vec4(t[i]); } }\n}\n"
    )));
}

#[test]
fn parsed_shaders_with_an_empty_list_cannot() {
    assert!(!can_print(&tree("float x = {};")));
    assert!(!can_print(&tree("layout() in vec4 a;")));
    assert!(!can_print(&tree("void main() { float x = {}; }")));
    assert!(!can_print(&tree("void main() { if (a) { while (b) { float x = { {} }; } } }")));
    assert!(!can_print(&tree("void main() { switch (a) { case 12: float x = {}; } }")));
    assert!(!can_print(&tree("struct S { layout() float a; } s;")));
}

#[test]
fn each_of_the_four_lists_is_tested() {
    let no_qualifiers = TypeQualifier { qualifiers: NonEmpty(vec![]) };
    assert!(!can_print_qualifier(&no_qualifiers));
    let no_arguments = TypeQualifier {
        qualifiers: NonEmpty(vec![
            TypeQualifierSpec::Invariant,
            TypeQualifierSpec::Layout(LayoutQualifier { ids: NonEmpty(vec![]) }),
        ]),
    };
    assert!(!can_print_qualifier(&no_arguments));
    assert!(can_print_qualifier(&TypeQualifier {
        qualifiers: NonEmpty(vec![TypeQualifierSpec::Invariant])
    }));
    let no_names = StructFieldSpecifier {
        qualifier: None,
        ty: TypeSpecifier::new(TypeSpecifierNonArray::Float),
        identifiers: NonEmpty(vec![]),
    };
    assert!(!can_print_field(&no_names));
    assert!(can_print_field(&StructFieldSpecifier::new("a", TypeSpecifierNonArray::Float)));
    assert!(!can_print_initializer(&Initializer::List(NonEmpty(vec![]))));
    let named = glsl::syntax::Expr::Variable(Identifier("a".to_string()));
    assert!(can_print_initializer(&Initializer::List(NonEmpty(vec![Initializer::from(named)]))));
    assert!(can_print_type(&TypeSpecifier::new(TypeSpecifierNonArray::Vec4)));
}
