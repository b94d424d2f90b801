use fractal_viewer::recompile::{Phase, Recompiler};
use fractal_viewer::settings::{CustomShaderData, UserSettings};
use fractal_viewer::shader::admit_source;
use fractal_viewer::uniforms::uniform_flags;

fn validate_source(source: &str) -> Result<(), String> {
    admit_source(source)?;
    let module = naga::front::wgsl::parse_str(source).map_err(|e| e.to_string())?;
    let flags = naga::valid::ValidationFlags::all();
    naga::valid::Validator::new(flags, naga::valid::Capabilities::empty())
        .validate(&module)
        .map(|_| ())
        .map_err(|e| e.to_string())
}

fn start(data: &CustomShaderData) -> Result<Recompiler, String> {
    let source = data.shader();
    let verdict = validate_source(&source);
    Recompiler::start(source, verdict)
}

fn validate(state: &mut Recompiler, data: &CustomShaderData) {
    if let Some(source) = state.pending_source(data) {
        let verdict = validate_source(&source);
        state.validated(source, verdict);
    }
}

fn broken() -> CustomShaderData {
    CustomShaderData { equation: "csquare(z + c".to_string(), ..CustomShaderData::default() }
}

fn burning_ship() -> CustomShaderData {
    CustomShaderData { equation: "csquare(abs(z)) + c".to_string(), ..CustomShaderData::default() }
}

#[test]
fn the_cycle_starts_idle_on_the_default_source() {
    let data = CustomShaderData::default();
    let state = start(&data).unwrap();
    assert_eq!(state.phase(), Phase::Idle);
    assert_eq!(state.active_source(), data.shader());
    assert_eq!(state.shader_error(), None);
    assert_eq!(state.pending_source(&data), None);
}

#[test]
fn the_cycle_does_not_start_on_a_rejected_source() {
    let message = start(&broken()).err().unwrap();
    assert!(!message.is_empty());
    assert_eq!(Some(message), validate_source(&broken().shader()).err());
    let given = Recompiler::start("x".to_string(), Err("no".to_string())).err();
    assert_eq!(given, Some("no".to_string()));
}

#[test]
fn a_rejected_edit_keeps_the_active_source() {
    let mut state = start(&CustomShaderData::default()).unwrap();
    let before = state.active_source().to_string();
    state.edited();
    assert_eq!(state.phase(), Phase::PendingRecompile);
    assert_eq!(state.pending_source(&broken()), Some(broken().shader()));
    validate(&mut state, &broken());
    assert_eq!(state.phase(), Phase::Idle);
    assert!(state.shader_error().is_some());
    assert_eq!(
        state.shader_error().map(str::to_string),
        validate_source(&broken().shader()).err()
    );
    assert_eq!(state.active_source(), before);
    assert_eq!(state.take_compile_job(), None);
    assert_eq!(state.active_source(), before);
    assert_eq!(state.phase(), Phase::Idle);
}

#[test]
fn an_accepted_edit_is_swapped_in_as_a_whole() {
    let mut state = start(&CustomShaderData::default()).unwrap();
    let before = state.active_source().to_string();
    state.edited();
    validate(&mut state, &burning_ship());
    assert_eq!(state.phase(), Phase::Recompiling);
    assert_eq!(state.shader_error(), None);
    assert_eq!(state.active_source(), before);
    let job = state.take_compile_job();
    assert_eq!(job, Some(burning_ship().shader()));
    assert_eq!(state.phase(), Phase::Idle);
    assert_eq!(state.active_source(), burning_ship().shader());
    assert_eq!(state.take_compile_job(), None);
}

#[test]
fn an_accepted_edit_clears_the_message() {
    let mut state = start(&CustomShaderData::default()).unwrap();
    state.edited();
    validate(&mut state, &broken());
    assert!(state.shader_error().is_some());
    state.edited();
    validate(&mut state, &burning_ship());
    assert_eq!(state.shader_error(), None);
    assert_eq!(state.phase(), Phase::Recompiling);
}

#[test]
fn nothing_is_validated_without_an_edit() {
    let mut state = start(&CustomShaderData::default()).unwrap();
    assert_eq!(state.pending_source(&broken()), None);
    state.validated("anything".to_string(), Err("late".to_string()));
    assert_eq!(state.phase(), Phase::Idle);
    assert_eq!(state.shader_error(), None);
    assert_eq!(state.active_source(), CustomShaderData::default().shader());
}

#[test]
fn a_verdict_is_taken_as_given() {
    let mut state = Recompiler::new("first".to_string());
    state.edited();
    state.validated("second".to_string(), Err("no".to_string()));
    assert_eq!(state.phase(), Phase::Idle);
    assert_eq!(state.shader_error(), Some("no"));
    assert_eq!(state.take_compile_job(), None);
    assert_eq!(state.active_source(), "first");
    state.edited();
    state.validated("second".to_string(), Ok(()));
    assert_eq!(state.take_compile_job(), Some("second".to_string()));
    assert_eq!(state.active_source(), "second");
}

#[test]
fn an_edit_while_a_job_waits_drops_the_job() {
    let mut state = start(&CustomShaderData::default()).unwrap();
    state.edited();
    validate(&mut state, &burning_ship());
    state.edited();
    assert_eq!(state.phase(), Phase::PendingRecompile);
    assert_eq!(state.take_compile_job(), None);
    validate(&mut state, &broken());
    assert_eq!(state.active_source(), CustomShaderData::default().shader());
}

#[test]
fn a_source_over_a_limit_is_rejected_like_any_other() {
    let data = CustomShaderData { equation: "(".repeat(5_000), ..CustomShaderData::default() };
    let mut state = start(&CustomShaderData::default()).unwrap();
    state.edited();
    validate(&mut state, &data);
    assert_eq!(state.phase(), Phase::Idle);
    assert_eq!(state.shader_error(), Some("Shader source has too many brackets"));
    assert_eq!(state.active_source(), CustomShaderData::default().shader());
}

#[test]
fn flag_word_has_one_bit_for_each_switch() {
    let mut s = UserSettings::default();
    assert_eq!(uniform_flags(&s), 4);
    s.julia_set = true;
    assert_eq!(uniform_flags(&s), 5);
    s.smoothen = true;
    assert_eq!(uniform_flags(&s), 7);
    s.initial_c = true;
    assert_eq!(uniform_flags(&s), 15);
    s.internal_black = false;
    assert_eq!(uniform_flags(&s), 11);
    s.julia_set = false;
    s.smoothen = false;
    assert_eq!(uniform_flags(&s), 8);
    s.initial_c = false;
    assert_eq!(uniform_flags(&s), 0);
    s.smoothen = true;
    assert_eq!(uniform_flags(&s), 2);
}
