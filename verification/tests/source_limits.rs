use fractal_viewer::settings::CustomShaderData;
use fractal_viewer::shader::{admit_source, fill_template, SHADER};
use fractal_viewer::shape::{
    check_shape, measure, Measure, SourceProblem, MAX_BRACKETS, MAX_OPERATORS,
    VALIDATOR_STACK_BYTES,
};

#[test]
fn measure_counts_opening_brackets_and_operator_characters() {
    assert_eq!(measure(""), Measure { brackets: 0, operators: 0 });
    assert_eq!(measure("abc def_1 ,;:@)]}"), Measure { brackets: 0, operators: 0 });
    assert_eq!(measure("f(g(h(x)))"), Measure { brackets: 3, operators: 0 });
    assert_eq!(measure("f(x) + g(y)"), Measure { brackets: 2, operators: 1 });
    assert_eq!(measure("{ { } }"), Measure { brackets: 2, operators: 0 });
    assert_eq!(measure("a[b[c]]"), Measure { brackets: 2, operators: 2 });
    assert_eq!(measure("vec2<f32>(a)"), Measure { brackets: 2, operators: 2 });
    assert_eq!(measure("a + b - c * d / e % f"), Measure { brackets: 0, operators: 5 });
    assert_eq!(measure("a & b | c ^ ~d"), Measure { brackets: 0, operators: 4 });
    assert_eq!(measure("!a == b"), Measure { brackets: 0, operators: 3 });
    assert_eq!(measure("a.x.y.z"), Measure { brackets: 0, operators: 3 });
    assert_eq!(measure("- - - - z"), Measure { brackets: 0, operators: 4 });
    assert_eq!(measure("\u{e9}(\u{1f600}+"), Measure { brackets: 1, operators: 1 });
}

#[test]
fn what_a_comment_holds_is_counted_too() {
    assert_eq!(measure("f( // )\n g( /* ) */ h(").brackets, 3);
    assert_eq!(measure("// a + b").operators, 3);
}

#[test]
fn the_template_is_far_below_the_limits() {
    let found = measure(SHADER);
    assert!(found.brackets * 8 < MAX_BRACKETS, "{:?}", found);
    assert!(found.operators * 8 < MAX_OPERATORS, "{:?}", found);
    assert_eq!(check_shape(SHADER), None);
    let data = CustomShaderData::default();
    assert_eq!(check_shape(&data.shader()), None);
    assert_eq!(admit_source(&data.shader()), Ok(()));
}

#[test]
fn each_limit_has_its_problem_and_message() {
    assert_eq!(check_shape(&"(".repeat(MAX_BRACKETS)), None);
    assert_eq!(check_shape(&"(".repeat(MAX_BRACKETS + 1)), Some(SourceProblem::TooManyBrackets));
    assert_eq!(check_shape(&"{".repeat(MAX_BRACKETS + 1)), Some(SourceProblem::TooManyBrackets));
    assert_eq!(check_shape(&"+".repeat(MAX_OPERATORS)), None);
    assert_eq!(check_shape(&"+".repeat(MAX_OPERATORS + 1)), Some(SourceProblem::TooManyOperators));
    assert_eq!(check_shape(&".".repeat(MAX_OPERATORS + 1)), Some(SourceProblem::TooManyOperators));
    assert_eq!(check_shape(&"x".repeat(1_000_000)), None);
    assert_eq!(
        check_shape(&"[".repeat(MAX_OPERATORS + 1)),
        Some(SourceProblem::TooManyBrackets)
    );
    assert_eq!(SourceProblem::TooManyBrackets.to_str(), "Shader source has too many brackets");
    assert_eq!(SourceProblem::TooManyOperators.to_str(), "Shader source has too many operators");
    assert_eq!((MAX_BRACKETS, MAX_OPERATORS), (2048, 8192));
    assert_eq!(VALIDATOR_STACK_BYTES, 512 * 1024 * 1024);
}

#[test]
fn a_source_at_both_limits_fits_the_validators_stack() {
    let brackets = MAX_BRACKETS as u64 * 105 * 1024;
    let operators = MAX_OPERATORS as u64 * 21 * 1024;
    assert!(brackets + operators <= VALIDATOR_STACK_BYTES as u64 / 4 * 3);
}

#[test]
fn a_run_of_open_parentheses_is_turned_away() {
    for depth in [3_000, 100_000, 1_000_000] {
        let source = fill_template(&format!("{}z", "(".repeat(depth)), "vec3<f32>(n, n, n)");
        assert_eq!(admit_source(&source), Err("Shader source has too many brackets".to_string()));
    }
}

#[test]
fn a_run_of_operators_is_turned_away() {
    for piece in ["- ", "!", " + z", ".xy"] {
        let source = fill_template(&format!("z{}", piece.repeat(10_000)), "vec3<f32>(n, n, n)");
        assert_eq!(
            admit_source(&source),
            Err("Shader source has too many operators".to_string()),
            "{}",
            piece
        );
    }
}

#[test]
fn a_long_ladder_is_turned_away() {
    let mut code = String::from("fn pick(a: i32) -> i32 { if a == 0 { return 0; }");
    for i in 1..=3_000 {
        code.push_str(&format!(" else if a == {} {{ return 1; }}", i));
    }
    code.push_str(" return 0; }");
    let data = CustomShaderData { additional: code, ..CustomShaderData::default() };
    assert_eq!(
        admit_source(&data.shader()),
        Err("Shader source has too many brackets".to_string())
    );
}

#[test]
fn a_long_source_of_plain_statements_is_admitted() {
    let mut code = String::from("fn flat() -> i32 { var a: i32 = 0;");
    for _ in 0..2_000 {
        code.push_str(" a = a | 1;");
    }
    code.push_str(" return a; }");
    let data = CustomShaderData { additional: code, ..CustomShaderData::default() };
    assert_eq!(admit_source(&data.shader()), Ok(()));
}
