use glsl::parser::Parse;
use glsl::syntax::{
    CompoundStatement, Expr, FunIdentifier, Identifier, JumpStatement, SimpleStatement, Statement,
    TranslationUnit,
};
use tweak_shader_ae::exit_points::statement_is_return;
use tweak_shader_ae::preprocessing::{
    convert_output_to_ae_format, find_entry_point, find_output_variable, EntryPointExitSwizzler,
    FormatSwizzler,
};
use tweak_shader_ae::texture_calls::exprs::{callee_name, swizzle_expr};

const EXIT: &str = "out_color = out_color.argb;";

fn tree(source: &str) -> TranslationUnit {
    TranslationUnit::parse(source).expect("the source parses")
}

fn rewritten(source: &str) -> String {
    convert_output_to_ae_format(source).expect("the source parses")
}

fn occurrences(text: &str, pattern: &str) -> usize {
    text.matches(pattern).count()
}

fn variable(name: &str) -> Expr {
    Expr::Variable(Identifier(name.to_string()))
}

fn call(name: &str, args: Vec<Expr>) -> Expr {
    Expr::FunCall(FunIdentifier::Identifier(Identifier(name.to_string())), args)
}

fn swizzled(e: Expr, order: &str) -> Expr {
    Expr::Dot(Box::new(e), Identifier(order.to_string()))
}

fn return_statement() -> Statement {
    Statement::Simple(Box::new(SimpleStatement::Jump(JumpStatement::Return(None))))
}

fn exit_statement(name: &str) -> Statement {
    Statement::parse(format!("{name} = {name}.argb;")).expect("the statement parses")
}

#[test]
fn exit_swizzle_is_added_at_the_end_of_main() {
    let out = rewritten("out vec4 out_color;\nvoid main() {\n  out_color = vec4(1.0);\n}\n");
    let expected = "out vec4 out_color;\nvoid main() {\n  out_color = vec4(1.0);\n  out_color = out_color.argb;\n}\n";
    assert_eq!(tree(&out), tree(expected));
    assert_eq!(occurrences(&out, EXIT), 1);
}

#[test]
fn every_return_gets_an_exit_swizzle() {
    let src = "out vec4 out_color;\nuniform int n;\nvoid main() {\n  if (n == 0) {\n    out_color = vec4(0.0);\n    return;\n  }\n  for (int i = 0; i < n; i++) {\n    if (i == 3) {\n      while (true) {\n        return;\n      }\n    }\n  }\n  switch (n) {\n    case 12:\n      return;\n    default:\n      break;\n  }\n  out_color = vec4(1.0);\n}\n";
    let out = rewritten(src);
    assert_eq!(occurrences(src, "return"), 3);
    assert_eq!(occurrences(&out, "return"), 3);
    assert_eq!(occurrences(&out, EXIT), 4);
}

#[test]
fn exit_swizzle_stands_immediately_before_each_return() {
    let src = "out vec4 out_color;\nvoid main() {\n  out_color = vec4(0.5);\n  if (out_color.r > 1.0) {\n    out_color.r = 1.0;\n    return;\n  }\n  out_color.g = 0.0;\n  return;\n}\n";
    let expected = "out vec4 out_color;\nvoid main() {\n  out_color = vec4(0.5);\n  if (out_color.r > 1.0) {{\n    out_color.r = 1.0;\n    out_color = out_color.argb;\n    return;\n  }}\n  out_color.g = 0.0;\n  out_color = out_color.argb;\n  return;\n  out_color = out_color.argb;\n}\n";
    assert_eq!(tree(&rewritten(src)), tree(expected));
}

#[test]
fn a_returned_value_is_kept() {
    let src = "out vec4 c;\nint main() {\n  return 3 + 4;\n}\n";
    let expected = "out vec4 c;\nint main() {\n  c = c.argb;\n  return 3 + 4;\n  c = c.argb;\n}\n";
    assert_eq!(tree(&rewritten(src)), tree(expected));
}

#[test]
fn lone_return_becomes_a_block() {
    let src = "out vec4 out_color;\nvoid main() {\n  if (gl_FragCoord.x < 1.0) return;\n  out_color = vec4(1.0);\n}\n";
    let expected = "out vec4 out_color;\nvoid main() {\n  if (gl_FragCoord.x < 1.0) {{\n    out_color = out_color.argb;\n    return;\n  }}\n  out_color = vec4(1.0);\n  out_color = out_color.argb;\n}\n";
    let out = rewritten(src);
    assert_eq!(tree(&out), tree(expected));
    assert_eq!(occurrences(&out, EXIT), 2);
}

#[test]
fn lone_return_in_else_and_loops_becomes_a_block() {
    let src = "out vec4 o;\nvoid main() {\n  if (a) o = vec4(0.0); else return;\n  while (b) return;\n  do return; while (c);\n  for (;;) return;\n}\n";
    let out = rewritten(src);
    assert_eq!(occurrences(&out, "return"), 4);
    assert_eq!(occurrences(&out, "o = o.argb;"), 5);
}

#[test]
fn sampling_calls_are_swizzled() {
    for name in [
        "texture",
        "textureOffset",
        "textureProj",
        "textureProjOffset",
        "textureLod",
        "textureLodOffset",
        "textureGrad",
        "texelFetch",
        "textureGather",
    ] {
        let got = swizzle_expr(call(name, vec![variable("img"), variable("uv")]));
        let expected = swizzled(call(name, vec![variable("img"), variable("uv")]), "gbar");
        assert_eq!(got, expected, "{name}");
    }
}

#[test]
fn sampling_call_in_source_is_swizzled() {
    let src = "uniform sampler2D img;\nvec4 pick(vec2 uv) {\n  return texture(img, uv);\n}\n";
    let expected = "uniform sampler2D img;\nvec4 pick(vec2 uv) {\n  return texture(img, uv).gbar;\n}\n";
    assert_eq!(tree(&rewritten(src)), tree(expected));
}

#[test]
fn nested_sampling_calls_are_each_swizzled_once() {
    let inner = call("texture", vec![variable("a"), variable("uv")]);
    let outer = call("textureLod", vec![variable("b"), inner.clone(), variable("lod")]);
    let got = FormatSwizzler::new().visit_expr(outer);
    let expected = swizzled(
        call(
            "textureLod",
            vec![variable("b"), swizzled(inner, "gbar"), variable("lod")],
        ),
        "gbar",
    );
    assert_eq!(got, expected);
}

#[test]
fn image_store_swizzles_only_the_value() {
    let got = swizzle_expr(call(
        "imageStore",
        vec![variable("img"), variable("pos"), variable("color")],
    ));
    let expected = call(
        "imageStore",
        vec![variable("img"), variable("pos"), swizzled(variable("color"), "argb")],
    );
    assert_eq!(got, expected);
}

#[test]
fn image_store_value_read_from_a_texture_gets_both_orders() {
    let src = "void main() {\n  imageStore(dst, ivec2(0), texture(src, vec2(0.0)));\n}\n";
    let expected = "void main() {\n  imageStore(dst, ivec2(0), texture(src, vec2(0.0)).gbar.argb);\n}\n";
    assert_eq!(tree(&rewritten(src)), tree(expected));
}

#[test]
fn image_store_without_arguments_is_left_alone() {
    let got = swizzle_expr(call("imageStore", vec![]));
    assert_eq!(got, call("imageStore", vec![]));
}

#[test]
fn other_calls_are_left_alone() {
    for name in ["vec4", "mytexture", "Texture", "texture2D", "imageLoad", "textureSize"] {
        let e = call(name, vec![variable("a"), variable("b")]);
        assert_eq!(swizzle_expr(e.clone()), e, "{name}");
    }
}

#[test]
fn arguments_of_other_calls_are_rewritten() {
    let e = call("mix", vec![call("texture", vec![variable("a"), variable("uv")]), variable("c")]);
    let expected = call(
        "mix",
        vec![
            swizzled(call("texture", vec![variable("a"), variable("uv")]), "gbar"),
            variable("c"),
        ],
    );
    assert_eq!(swizzle_expr(e), expected);
}

#[test]
fn callee_given_as_an_expression_is_looked_up_by_its_text() {
    let callee = FunIdentifier::Expr(Box::new(variable("texture")));
    assert_eq!(callee_name(&callee), "texture");
    let e = Expr::FunCall(callee.clone(), vec![variable("img"), variable("uv")]);
    let expected = swizzled(Expr::FunCall(callee, vec![variable("img"), variable("uv")]), "gbar");
    assert_eq!(swizzle_expr(e), expected);
    let indexed = FunIdentifier::Expr(Box::new(Expr::Dot(
        Box::new(variable("lib")),
        Identifier("texture".to_string()),
    )));
    assert_eq!(callee_name(&indexed), "lib.texture");
}

#[test]
fn calls_are_swizzled_wherever_an_expression_stands() {
    let src = "uniform sampler2D t;\nconst vec4 first = texture(t, vec2(0.0));\nfloat table[int(texture(t, vec2(1.0)).r)];\nvoid helper() {\n  for (vec4 c = texture(t, vec2(0.0)); c.r < 1.0; c += texture(t, vec2(0.5))) {\n    if (texture(t, c.xy).a > 0.0) { break; }\n  }\n  switch (int(texture(t, vec2(0.0)).r)) { case 12: break; }\n}\n";
    let out = rewritten(src);
    assert_eq!(occurrences(src, "texture("), 6);
    assert_eq!(occurrences(&out, "texture("), 6);
    assert_eq!(occurrences(&out, ".gbar"), 6);
}

#[test]
fn no_output_variable_means_no_exit_swizzle() {
    let src = "uniform sampler2D img;\nvoid main() {\n  vec4 c = texture(img, vec2(0.5));\n  if (c.a < 0.5) { return; }\n  return;\n}\n";
    let expected = "uniform sampler2D img;\nvoid main() {\n  vec4 c = texture(img, vec2(0.5)).gbar;\n  if (c.a < 0.5) {{ return; }}\n  return;\n}\n";
    let out = rewritten(src);
    assert_eq!(tree(&out), tree(expected));
    assert_eq!(occurrences(&out, ".argb"), 0);
}

#[test]
fn no_main_means_no_exit_swizzle() {
    let src = "out vec4 out_color;\nvoid shade() {\n  out_color = vec4(1.0);\n  return;\n}\n";
    let out = rewritten(src);
    assert_eq!(tree(&out), tree(src));
}

#[test]
fn only_main_is_given_exit_swizzles() {
    let src = "out vec4 out_color;\nfloat half_of(float x) {\n  return x / 2.0;\n}\nvoid main() {\n  out_color = vec4(half_of(1.0));\n}\n";
    let expected = "out vec4 out_color;\nfloat half_of(float x) {\n  return x / 2.0;\n}\nvoid main() {\n  out_color = vec4(half_of(1.0));\n  out_color = out_color.argb;\n}\n";
    assert_eq!(tree(&rewritten(src)), tree(expected));
}

#[test]
fn only_the_first_main_is_rewritten() {
    let src = "out vec4 o;\nvoid main() {\n  o = vec4(0.0);\n}\nvoid main(int x) {\n  return;\n}\n";
    let out = rewritten(src);
    assert_eq!(occurrences(&out, "o = o.argb;"), 1);
}

#[test]
fn first_output_variable_is_used() {
    let unit = tree("layout(location = 0) out vec4 first;\nlayout(location = 1) out vec4 second;\nvoid main() {}\n");
    assert_eq!(find_output_variable(&unit), Some("first".to_string()));
    assert_eq!(find_entry_point(&unit), Some(2));
    let out = rewritten("layout(location = 0) out vec4 first;\nlayout(location = 1) out vec4 second;\nvoid main() {}\n");
    assert_eq!(occurrences(&out, "first = first.argb;"), 1);
    assert_eq!(occurrences(&out, "second = second.argb;"), 0);
}

#[test]
fn only_a_plain_out_vec4_is_an_output() {
    assert_eq!(find_output_variable(&tree("out vec3 color;\nvoid main() {}\n")), None);
    assert_eq!(find_output_variable(&tree("in vec4 color;\nvoid main() {}\n")), None);
    assert_eq!(find_output_variable(&tree("vec4 color;\nvoid main() {}\n")), None);
    assert_eq!(find_output_variable(&tree("out vec4 colors[2];\nvoid main() {}\n")), None);
    assert_eq!(find_output_variable(&tree("out vec4[2] colors;\nvoid main() {}\n")), None);
    assert_eq!(
        find_output_variable(&tree("in vec4 a;\nout vec3 b;\nflat out vec4 c;\nvoid main() {}\n")),
        Some("c".to_string())
    );
}

#[test]
fn entry_point_is_the_function_named_main() {
    assert_eq!(find_entry_point(&tree("void Main() {}\nvoid main2() {}\n")), None);
    assert_eq!(find_entry_point(&tree("void f() {}\nvoid main() {}\nvoid main() {}\n")), Some(1));
    assert_eq!(find_entry_point(&tree("void main();\nvoid main() {}\n")), Some(1));
}

#[test]
fn parse_failure_is_reported() {
    let err = convert_output_to_ae_format("void main( {").unwrap_err();
    assert!(!err.info.is_empty());
    assert!(convert_output_to_ae_format("").is_err());
    assert!(convert_output_to_ae_format("this is not a shader").is_err());
}

#[test]
fn rewriting_twice_applies_both_changes_twice() {
    let src = "out vec4 o;\nuniform sampler2D t;\nvoid main() {\n  o = texture(t, vec2(0.0));\n}\n";
    let once = rewritten(src);
    let twice = rewritten(&once);
    assert_eq!(occurrences(&once, ".gbar"), 1);
    assert_eq!(occurrences(&once, "o = o.argb;"), 1);
    assert_eq!(occurrences(&twice, ".gbar.gbar"), 1);
    assert_eq!(occurrences(&twice, "o = o.argb;"), 2);
}

#[test]
fn preprocessor_lines_are_carried_through() {
    let src = "#version 450\n#define HALF 0.5\nout vec4 o;\nvoid main() {\n  o = vec4(HALF);\n}\n";
    let out = rewritten(src);
    assert!(out.starts_with("#version 450\n"));
    assert_eq!(occurrences(&out, "#define HALF 0.5"), 1);
}

#[test]
fn exit_statement_is_the_parsed_assignment() {
    let swizzler = EntryPointExitSwizzler::new("out_color".to_string());
    assert_eq!(swizzler.exit_statement(), exit_statement("out_color"));
}

#[test]
fn visit_compound_statement_inserts_before_returns_and_not_at_the_end() {
    let swizzler = EntryPointExitSwizzler::new("o".to_string());
    let block = CompoundStatement {
        statement_list: vec![
            Statement::parse("o = vec4(1.0);").unwrap(),
            return_statement(),
            Statement::parse("{ return; }").unwrap(),
        ],
    };
    let got = swizzler.visit_compound_statement(block);
    let expected = CompoundStatement {
        statement_list: vec![
            Statement::parse("o = vec4(1.0);").unwrap(),
            exit_statement("o"),
            return_statement(),
            Statement::parse("{ o = o.argb; return; }").unwrap(),
        ],
    };
    assert_eq!(got, expected);
}

#[test]
fn visit_entry_point_adds_the_exit_at_the_end() {
    let swizzler = EntryPointExitSwizzler::new("o".to_string());
    let got = swizzler.visit_entry_point(CompoundStatement { statement_list: vec![] });
    assert_eq!(got, CompoundStatement { statement_list: vec![exit_statement("o")] });
}

#[test]
fn visit_body_wraps_a_lone_return() {
    let swizzler = EntryPointExitSwizzler::new("o".to_string());
    let got = swizzler.visit_body(return_statement());
    assert_eq!(got, Statement::parse("{ o = o.argb; return; }").unwrap());
    let other = Statement::parse("o = vec4(0.0);").unwrap();
    assert_eq!(swizzler.visit_body(other.clone()), other);
}

#[test]
fn returns_are_recognised() {
    assert!(statement_is_return(&return_statement()));
    assert!(statement_is_return(&Statement::parse("return 1.0;").unwrap()));
    assert!(!statement_is_return(&Statement::parse("discard;").unwrap()));
    assert!(!statement_is_return(&Statement::parse("{ return; }").unwrap()));
}

#[test]
fn visit_translation_unit_does_both_passes() {
    let unit = tree("out vec4 o;\nuniform sampler2D t;\nvoid main() {\n  o = texture(t, vec2(0.0));\n}\n");
    let got = FormatSwizzler::new().visit_translation_unit(unit);
    let expected = tree("out vec4 o;\nuniform sampler2D t;\nvoid main() {\n  o = texture(t, vec2(0.0)).gbar;\n  o = o.argb;\n}\n");
    assert_eq!(got, expected);
}

#[test]
fn visit_exit_points_leaves_texture_calls() {
    let unit = tree("out vec4 o;\nuniform sampler2D t;\nvoid main() {\n  o = texture(t, vec2(0.0));\n}\n");
    let got = FormatSwizzler::new().visit_exit_points(unit);
    let expected = tree("out vec4 o;\nuniform sampler2D t;\nvoid main() {\n  o = texture(t, vec2(0.0));\n  o = o.argb;\n}\n");
    assert_eq!(got, expected);
}

#[test]
fn the_same_text_is_rewritten_to_the_same_text() {
    let src = "out vec4 o;\nuniform sampler2D t;\nvoid main() {\n  if (o.a > 0.5) return;\n  o = texture(t, vec2(0.0));\n}\n";
    let first = convert_output_to_ae_format(src).expect("the source parses");
    let second = convert_output_to_ae_format(&src.to_string()).expect("the source parses");
    assert_eq!(first, second);
    let refused = convert_output_to_ae_format("void main( {").unwrap_err();
    let again = convert_output_to_ae_format("void main( {").unwrap_err();
    assert_eq!(refused.reason, again.reason);
    assert_eq!(refused.info, again.info);
}
