use fractal_viewer::settings::{CustomShaderData, UserSettings};
use fractal_viewer::shader::{admit_source, fill_template, SHADER};

fn naga_verdict(source: &str) -> Result<(), String> {
    let module = naga::front::wgsl::parse_str(source).map_err(|e| e.to_string())?;
    let flags = naga::valid::ValidationFlags::all();
    naga::valid::Validator::new(flags, naga::valid::Capabilities::empty())
        .validate(&module)
        .map(|_| ())
        .map_err(|e| e.to_string())
}

fn validate_source(source: &str) -> Result<(), String> {
    admit_source(source)?;
    naga_verdict(source)
}

fn validate_shader(equation: &str, colour: &str) -> Result<(), String> {
    validate_source(&fill_template(equation, colour))
}

#[test]
fn default_fragments_validate() {
    let data = UserSettings::default().shader_data;
    assert_eq!(admit_source(&data.shader()), Ok(()));
    assert_eq!(validate_shader(&data.equation, &data.colour), Ok(()));
    assert_eq!(validate_source(&data.shader()), Ok(()));
}

#[test]
fn unbalanced_parenthesis_is_rejected() {
    let result = validate_shader("csquare(z + c", "vec3<f32>(1.0, 1.0, 1.0)");
    assert!(result.is_err());
    assert!(!result.unwrap_err().is_empty());
}

#[test]
fn template_is_filled_as_by_str_replace() {
    let filled = fill_template("csquare(z) + c", "vec3<f32>(n, n, n)");
    let expected = SHADER
        .replace("REPLACE_FRACTAL_EQN", "csquare(z) + c")
        .replace("REPLACE_COLOR", "vec3<f32>(n, n, n)");
    assert_eq!(filled, expected);
    assert!(!filled.contains("REPLACE_"));
}

#[test]
fn additional_code_is_appended() {
    let data = CustomShaderData {
        equation: "twice(z) + c".to_string(),
        colour: "vec3<f32>(n, n, n)".to_string(),
        additional: "fn twice(z: vec2<f32>) -> vec2<f32> { return 2.0 * z; }".to_string(),
    };
    let source = data.shader();
    assert!(source.ends_with("fn twice(z: vec2<f32>) -> vec2<f32> { return 2.0 * z; }"));
    assert_eq!(validate_source(&source), Ok(()));
    assert!(validate_shader(&data.equation, &data.colour).is_err());
}

#[test]
fn template_holds_each_slot_once() {
    assert_eq!(SHADER.matches("REPLACE_FRACTAL_EQN").count(), 1);
    assert_eq!(SHADER.matches("REPLACE_COLOR").count(), 1);
    assert!(SHADER.contains("fn vs_main"));
    assert!(SHADER.contains("fn fs_main"));
}

#[test]
fn templating_twice_gives_the_same_text() {
    let data = CustomShaderData {
        equation: "cdiv(cmul(csquare(z), z), vec2<f32>(1.0, 0.0) + z * z) + c".to_string(),
        colour: "hsv_rgb(vec3<f32>(n / 50.0, 1.0, 1.0))".to_string(),
        additional: "// nothing".to_string(),
    };
    assert_eq!(data.shader(), data.shader());
    assert_eq!(data.shader(), data.clone().shader());
    assert_eq!(
        fill_template(&data.equation, &data.colour),
        fill_template(&data.equation, &data.colour)
    );
    assert_eq!(data.shader(), format!("{}// nothing", fill_template(&data.equation, &data.colour)));
}

#[test]
fn the_offered_equations_validate() {
    let colour = UserSettings::default().shader_data.colour;
    for equation in [
        "csquare(z) + c",
        "csquare(abs(z)) + c",
        "cdiv(cmul(csquare(z), z), vec2<f32>(1.0, 0.0) + z * z) + c",
        "csquare(vec2<f32>(z.x, -z.y)) + c",
    ] {
        assert_eq!(validate_shader(equation, &colour), Ok(()), "{}", equation);
    }
}

#[test]
fn a_well_formed_fragment_of_the_wrong_type_is_rejected() {
    assert!(validate_shader("1.0", "vec3<f32>(1.0, 1.0, 1.0)").is_err());
    assert!(validate_shader("csquare(z) + c", "n").is_err());
    assert!(validate_shader("undefined_function(z)", "vec3<f32>(n, n, n)").is_err());
    assert!(validate_shader("", "").is_err());
}

#[test]
fn a_slot_name_inside_the_equation_is_filled_with_the_colour() {
    let filled = fill_template("REPLACE_COLOR", "x");
    assert_eq!(filled, SHADER.replace("REPLACE_FRACTAL_EQN", "x").replace("REPLACE_COLOR", "x"));
}

#[test]
fn sources_well_beyond_hand_written_ones_are_admitted_and_validated() {
    let calls = 12;
    let equation = format!("{}z{}", "csquare(".repeat(calls), ")".repeat(calls));
    assert_eq!(validate_shader(&equation, "vec3<f32>(n, n, n)"), Ok(()));
    let chain = format!("z{}", " + c".repeat(60));
    assert_eq!(validate_shader(&chain, "vec3<f32>(n, n, n)"), Ok(()));
}
