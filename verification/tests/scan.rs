use tweak_shader_ae::preprocessing::{
    convert_output_to_ae_format, Refusal, UNPRINTABLE_MESSAGE, UNSAFE_MESSAGE,
};
use tweak_shader_ae::scan::{
    has_no_negated_minimum, nesting_is_bounded, scan_source, versions_do_fit,
};

fn in_main(body: &str) -> String {
    format!("void main() {{ {} }}", body)
}

/// The longest source of the shape `open * n + middle + close * n`, with n up
/// to 4096, that the scan lets through.
fn deepest(open: &str, middle: &str, close: &str) -> String {
    let shape = |n: usize| in_main(&format!("{}{}{}", open.repeat(n), middle, close.repeat(n)));
    let mut low: usize = 0;
    let mut high: usize = 4096;
    if scan_source(&shape(high)) {
        return shape(high);
    }
    // the scan passes `low` and refuses `high`
    while high - low > 1 {
        let mid = (low + high) / 2;
        if scan_source(&shape(mid)) {
            low = mid;
        } else {
            high = mid;
        }
    }
    shape(low)
}

fn stands(shapes: &[(&str, &str, &str)]) {
    for (open, middle, close) in shapes {
        let src = deepest(open, middle, close);
        let r = convert_output_to_ae_format(&src);
        if let Err(e) = &r {
            assert_eq!(e.reason, Refusal::Syntax, "{open}");
        }
    }
}

fn parses(source: &str) {
    let r = convert_output_to_ae_format(source);
    assert!(r.is_ok(), "{:?}", r.err().map(|e| e.info));
}

#[test]
fn ordinary_shaders_pass_the_scan() {
    let src = "#version 450\n// a comment; with { and ( in it\n/* and ) another } one */\nlayout(location = 0) out vec4 out_color;\nuniform sampler2D img;\n#define HALF 0.5 /* not a comment to the scan\nvoid main() {\n  vec4 c = texture(img, vec2(HALF));\n  for (int i = 0; i < 4; i++) {\n    if (c.a < 0.5) { c.rgb *= 2.0; } else if (c.a < 0.75) { c.rgb *= 1.5; } else { c = -c; }\n  }\n  out_color = mix(c, vec4(1.0), clamp((c.r - 0.5) / (c.g + 0.5), 0.0, 1.0));\n}\n";
    assert!(scan_source(src));
    parses(src);
}

#[test]
fn long_flat_shaders_pass_the_scan() {
    let mut body = String::new();
    for i in 0..400 {
        body.push_str(&format!("x{} = a * b + c / d - e;\n", i));
        body.push_str("if (a) { y = 1; } else { y = 2; }\n");
    }
    let table: Vec<String> = (0..1024).map(|i| format!("{}.5", i)).collect();
    body.push_str(&format!("float t[1024] = float[1024]({});\n", table.join(", ")));
    let table: Vec<String> = (0..1024).map(|i| format!("-.{}e-3", i)).collect();
    body.push_str(&format!("float u[1024] = float[1024]({});\n", table.join(", ")));
    let table: Vec<String> = (0..1024).map(|i| format!("-{}.", i)).collect();
    body.push_str(&format!("float v[1024] = {{ {} }};\n", table.join(", ")));
    let src = in_main(&body);
    assert!(scan_source(&src));
    parses(&src);
}

#[test]
fn version_numbers_beyond_sixteen_bits_are_refused() {
    assert!(versions_do_fit(b"#version 450\nvoid main() {}"));
    assert!(versions_do_fit(b"#version 65535\n"));
    assert!(versions_do_fit(b"#version 000000450\n"));
    assert!(versions_do_fit(b"# \t version \\\n 450 core\n"));
    assert!(versions_do_fit(b"int version = 70000;"));
    assert!(versions_do_fit(b"#define version 70000\n"));
    assert!(versions_do_fit(b"#version"));
    assert!(!versions_do_fit(b"#version 65536\n"));
    assert!(!versions_do_fit(b"#version 70000\n"));
    assert!(!versions_do_fit(b"void main() {}\n#  version\t99999999999999999999999999"));
    assert!(!versions_do_fit(b"#version \\\n 0070000"));
    let refused = convert_output_to_ae_format("#version 70000\nvoid main() {}\n").unwrap_err();
    assert_eq!(refused.reason, Refusal::Unsafe);
    assert_eq!(refused.info, UNSAFE_MESSAGE);
    parses("#version 65535\nvoid main() {}\n");
}

#[test]
fn the_negated_minimum_is_refused_in_every_spelling() {
    for src in [
        "int x = -2147483648;",
        "int x = 1 -2147483648;",
        "int x = -0x80000000;",
        "int x = -0X0080000000;",
        "int x = -020000000000;",
        "int x = -00020000000000;",
        "#line -2147483648\n",
    ] {
        assert!(!has_no_negated_minimum(src.as_bytes()), "{src}");
        assert_eq!(convert_output_to_ae_format(src).unwrap_err().reason, Refusal::Unsafe);
    }
    for src in [
        "int x = 2147483648;",
        "int x = - 2147483648;",
        "int x = -2147483647;",
        "int x = -0x7fffffff;",
        "int x = -0x8000000;",
        "int x = -02000000000;",
        "int x = -0;",
        "int x = -",
        "-",
        "",
    ] {
        assert!(has_no_negated_minimum(src.as_bytes()), "{src}");
    }
    parses("int x = -2147483647;");
    parses("uint x = 2147483648u;");
}

#[test]
fn round_brackets_nest_ten_deep() {
    let ten = in_main(&format!("x = {}1{};", "(".repeat(10), ")".repeat(10)));
    let eleven = in_main(&format!("x = {}1{};", "(".repeat(11), ")".repeat(11)));
    assert!(nesting_is_bounded(ten.as_bytes()));
    assert!(!nesting_is_bounded(eleven.as_bytes()));
    parses(&ten);
    assert_eq!(convert_output_to_ae_format(&eleven).unwrap_err().reason, Refusal::Unsafe);
    // one after another they do not add up
    let flat = in_main(&format!("x = {};", "f((a)) * ".repeat(400) + "1"));
    assert!(nesting_is_bounded(flat.as_bytes()));
    let flat = in_main(&format!("x = {};", "f((a)) + ".repeat(100) + "1"));
    assert!(nesting_is_bounded(flat.as_bytes()));
    let flat = in_main(&format!("x = g({});", "f((-a)), ".repeat(2000) + "1"));
    assert!(nesting_is_bounded(flat.as_bytes()));
    parses(&flat);
}

#[test]
fn comments_and_preprocessor_lines_weigh_nothing() {
    let deep = "(".repeat(500);
    assert!(nesting_is_bounded(format!("// {}\nvoid main() {{}}", deep).as_bytes()));
    assert!(nesting_is_bounded(format!("/* {} */ void main() {{}}", deep).as_bytes()));
    assert!(nesting_is_bounded(format!("#define DEEP {}\nvoid main() {{}}", deep).as_bytes()));
    assert!(nesting_is_bounded(format!("// a \\\n {}\nvoid main() {{}}", deep).as_bytes()));
    assert!(!nesting_is_bounded(format!("// a\n {}\nvoid main() {{}}", deep).as_bytes()));
    assert!(!nesting_is_bounded(format!("/* a */ {}", deep).as_bytes()));
    assert!(!nesting_is_bounded(format!("/*/ {} */ {}", deep, deep).as_bytes()));
    assert!(!nesting_is_bounded(format!("a / {}", deep).as_bytes()));
}

#[test]
fn a_statement_that_has_ended_weighs_no_more() {
    let many = in_main(&"x = -a * -b + -c;\n".repeat(1000));
    assert!(nesting_is_bounded(many.as_bytes()));
    let one = in_main(&format!("x = {}a;", "-".repeat(1000)));
    assert!(!nesting_is_bounded(one.as_bytes()));
    let chain = in_main(&format!("if (a) x = 1; {}", "else if (a) x = 1; ".repeat(100)));
    assert!(!nesting_is_bounded(chain.as_bytes()));
    let apart = in_main(&"if (a) x = 1; else x = 2; y = 0;\n".repeat(100));
    assert!(nesting_is_bounded(apart.as_bytes()));
}

#[test]
fn the_deepest_brackets_that_pass_the_scan_are_parsed() {
    stands(&[
        ("(", "x = 1;", ""),
        ("x = (", "1", ")"),
        ("x = f(", "1", ")"),
        ("x = a[", "1", "]"),
        ("{", "", "}"),
        ("if (a) {", "x = 1;", "}"),
        ("switch (a) { case 12: ", "x = 1;", " }"),
    ]);
}

#[test]
fn the_deepest_statements_that_pass_the_scan_are_parsed() {
    stands(&[
        ("if (a) ", "x = 1;", ""),
        ("for (;;) ", "x = 1;", ""),
        ("while (a) ", "x = 1;", ""),
        ("do ", "x = 1;", " while (a);"),
        ("if (a) x = 1; else ", "x = 1;", ""),
        ("if (a) x = 1; else if (a) ", "x = 1;", ""),
        ("if (a) x = 1, ", "y = 2;", ""),
    ]);
}

#[test]
fn the_deepest_expressions_that_pass_the_scan_are_parsed() {
    stands(&[
        ("x = -", "1;", ""),
        ("x = !", "a;", ""),
        ("a = ", "1;", ""),
        ("x = a ? b : ", "c;", ""),
        ("x = a + ", "b;", ""),
        ("x = a * ", "b;", ""),
        ("x = a.b", ";", ""),
        ("x = a1.b1", ";", ""),
    ]);
}

#[test]
fn the_deepest_lists_that_pass_the_scan_are_parsed() {
    stands(&[
        ("x = a ? b, ", "c", " : d"),
        ("x = a ? b, c ? ", "d", " : e : f"),
        ("x = a ? b : c, ", "d;", ""),
        ("a, ", "b;", ""),
        ("return (a, ", "b);", ""),
        ("x = f((a, ", "b));", ""),
        ("switch (a) { case (a, ", "b): break; }", ""),
        ("if (a, ", "b) x = 1;", ""),
        ("x = g(f(a, ", "b));", ""),
        ("int a = -b, ", "c = 1;", ""),
        ("x = 1.", "5;", ""),
    ]);
}

#[test]
fn the_deepest_mixtures_that_pass_the_scan_are_parsed() {
    stands(&[
        ("if (a) for (;;) { x = a[-b ? c : ", "1", "]; }"),
        ("if (a) x = 1; else if (b) { y = (- - -", "1", "); }"),
        ("do { if (a) x = -", "1;", " else y = 2; } while (b);"),
    ]);
}

#[test]
fn do_chains_that_pass_the_scan_are_parsed() {
    // the statement ends before the `while`s begin, and the parser is still
    // inside every `do`
    let mut n: usize = 1;
    let mut best = String::new();
    loop {
        let src = in_main(&format!("{}x = 1;{}", "do ".repeat(n), " while (- - - a);".repeat(n)));
        if !scan_source(&src) {
            break;
        }
        best = src;
        n += 1;
    }
    assert!(n > 4);
    parses(&best);
}

#[test]
fn sources_that_cannot_be_printed_are_refused() {
    for src in [
        "float x = {};",
        "void main() { float x[2] = { {}, 1.0 }; }",
        "layout() in vec4 a;",
        "layout() uniform Block { float a; };",
        "void f(layout() in float a) {}",
        "void main() { for (layout() int i = 0;;) {} }",
    ] {
        let refused = convert_output_to_ae_format(src).unwrap_err();
        if refused.reason != Refusal::Syntax {
            assert_eq!(refused.reason, Refusal::Unprintable, "{src}");
            assert_eq!(refused.info, UNPRINTABLE_MESSAGE);
        }
    }
    let refused = convert_output_to_ae_format("float x = {};").unwrap_err();
    assert_eq!(refused.reason, Refusal::Unprintable);
    let refused = convert_output_to_ae_format("layout() in vec4 a;").unwrap_err();
    assert_eq!(refused.reason, Refusal::Unprintable);
    parses("float x[2] = { 1.0, 2.0 };");
    parses("layout(location = 0) in vec4 a;");
}
