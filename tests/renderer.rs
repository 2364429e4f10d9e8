use wgputoy::compile::CompiledShader;
use wgputoy::pipelines::RollbackOutcome;
use wgputoy::renderer::WgpuToyRenderer;

const ONE_STAGE: &str = "
@compute @workgroup_size(8, 8, 1)
fn main_image(@builtin(global_invocation_id) id: uint3) {
    textureStore(screen, vec2<i32>(id.xy), float4(1.0));
}
";

const TWO_STAGES: &str = "
@compute @workgroup_size(16, 4, 1)
fn first(@builtin(global_invocation_id) id: uint3) {
}

@compute @workgroup_size(8, 8, 1)
fn second(@builtin(global_invocation_id) id: uint3) {
}
";

fn install(r: &mut WgpuToyRenderer<u32>, shader: &str, first_id: u32) -> CompiledShader {
    let compiled = r.set_shader(shader).unwrap_or_else(|e| panic!("{} at {}:{}", e.message, e.row, e.col));
    let ids: Vec<u32> = (0..compiled.entries.len() as u32).map(|i| first_id + i).collect();
    r.install(&compiled, ids);
    compiled
}

fn run_ids(r: &WgpuToyRenderer<u32>) -> Vec<u32> {
    r.pipelines.current().iter().map(|s| s.pipeline).collect()
}

#[test]
fn one_stage_over_64_square_dispatches_8_by_8() {
    let mut r: WgpuToyRenderer<u32> = WgpuToyRenderer::new(64, 64);
    let compiled = install(&mut r, ONE_STAGE, 1);
    assert_eq!(compiled.entries.len(), 1);
    assert_eq!(compiled.entries[0].workgroup_size, [8, 8, 1]);
    let plan = r.render();
    assert_eq!(plan.dispatches.len(), 1);
    assert_eq!(plan.dispatches[0].stage, 0);
    assert_eq!(plan.dispatches[0].groups, [8, 8, 1]);
    assert_eq!(r.state.frame, 1);
}

#[test]
fn stages_follow_declaration_order() {
    let mut r: WgpuToyRenderer<u32> = WgpuToyRenderer::new(100, 30);
    let compiled = install(&mut r, TWO_STAGES, 10);
    let names: Vec<&str> = compiled.entries.iter().map(|e| e.name.as_str()).collect();
    assert_eq!(names, vec!["first", "second"]);
    assert_eq!(r.pipelines.current().len(), 2);
    assert_eq!(r.pipelines.current()[0].workgroup_size, [16, 4, 1]);
    assert_eq!(r.pipelines.current()[1].workgroup_size, [8, 8, 1]);
    let plan = r.render();
    assert_eq!(plan.dispatches[0].groups, [7, 8, 1]);
    assert_eq!(plan.dispatches[1].groups, [13, 4, 1]);
}

#[test]
fn invalid_shader_keeps_previous_stages() {
    let mut r: WgpuToyRenderer<u32> = WgpuToyRenderer::new(64, 64);
    install(&mut r, ONE_STAGE, 1);
    let err = r.set_shader("fn broken( {").err().expect("a syntax error");
    assert!(!err.message.is_empty());
    let plan = r.render();
    assert_eq!(plan.rollback, RollbackOutcome::NoFault);
    assert_eq!(run_ids(&r), vec![1]);
    assert_eq!(plan.dispatches.len(), 1);
}

#[test]
fn faulting_shader_rolls_back_to_previous() {
    let mut r: WgpuToyRenderer<u32> = WgpuToyRenderer::new(64, 64);
    install(&mut r, ONE_STAGE, 1);
    install(&mut r, ONE_STAGE, 2);
    assert_eq!(run_ids(&r), vec![2]);
    r.render();
    r.signal_fault();
    let plan = r.render();
    assert_eq!(plan.rollback, RollbackOutcome::RolledBack);
    assert_eq!(run_ids(&r), vec![1]);
    let plan = r.render();
    assert_eq!(plan.rollback, RollbackOutcome::NoFault);
    assert_eq!(run_ids(&r), vec![1]);
}

#[test]
fn second_fault_does_not_roll_back_again() {
    let mut r: WgpuToyRenderer<u32> = WgpuToyRenderer::new(64, 64);
    install(&mut r, ONE_STAGE, 1);
    install(&mut r, ONE_STAGE, 2);
    r.signal_fault();
    assert_eq!(r.render().rollback, RollbackOutcome::RolledBack);
    r.signal_fault();
    assert!(r.pipelines.fault_pending());
    assert_eq!(r.render().rollback, RollbackOutcome::NoRollback);
    assert_eq!(run_ids(&r), vec![1]);
    assert!(!r.pipelines.fault_pending());
}

#[test]
fn first_shader_fault_has_no_rollback() {
    let mut r: WgpuToyRenderer<u32> = WgpuToyRenderer::new(64, 64);
    install(&mut r, ONE_STAGE, 1);
    assert!(r.pipelines.has_rollback());
    r.signal_fault();
    let plan = r.render();
    assert_eq!(plan.rollback, RollbackOutcome::NoSafeShader);
    assert!(run_ids(&r).is_empty());
    assert!(plan.dispatches.is_empty());
}

#[test]
fn install_shader_builds_one_pipeline_per_compute_entry() {
    let mut r: WgpuToyRenderer<String> = WgpuToyRenderer::new(100, 30);
    let built = r.install_shader(TWO_STAGES, |c: &CompiledShader, i: usize| c.entries[i].name.clone());
    assert!(built.is_ok());
    let names: Vec<&str> = r.pipelines.current().iter().map(|s| s.pipeline.as_str()).collect();
    assert_eq!(names, vec!["first", "second"]);
    assert_eq!(r.pipelines.current()[0].workgroup_size, [16, 4, 1]);
    assert_eq!(r.pipelines.current()[1].workgroup_size, [8, 8, 1]);
}

#[test]
fn install_shader_error_leaves_stages() {
    let mut r: WgpuToyRenderer<String> = WgpuToyRenderer::new(64, 64);
    r.install_shader(ONE_STAGE, |c: &CompiledShader, i: usize| c.entries[i].name.clone()).unwrap();
    let err = r.install_shader("\n\nfn broken( {\n", |c: &CompiledShader, i: usize| c.entries[i].name.clone())
        .err()
        .expect("a syntax error");
    assert_eq!(err.row, 3);
    assert!(!err.message.is_empty());
    let names: Vec<&str> = r.pipelines.current().iter().map(|s| s.pipeline.as_str()).collect();
    assert_eq!(names, vec!["main_image"]);
    assert_eq!(r.render().dispatches.len(), 1);
}

#[test]
fn resize_resets_frame_counter_and_sizes() {
    let mut r: WgpuToyRenderer<u32> = WgpuToyRenderer::new(64, 64);
    r.render();
    r.render();
    assert_eq!(r.state.frame, 2);
    r.resize(320, 200);
    assert_eq!(r.state.frame, 0);
    let res = r.viewport_resources();
    assert_eq!((res.width, res.height, res.layers), (320, 200, 4));
    assert_eq!(res.storage_bytes, Some(16 * 320 * 200));
    assert!(!res.pass_f32);
    r.set_pass_f32(true);
    assert!(r.viewport_resources().pass_f32);
}

#[test]
fn storage_size_too_large_is_none() {
    let mut r: WgpuToyRenderer<u32> = WgpuToyRenderer::new(1, 1);
    r.resize(u32::MAX, u32::MAX);
    assert_eq!(r.viewport_resources().storage_bytes, None);
}

#[test]
fn frame_counter_wraps() {
    let mut r: WgpuToyRenderer<u32> = WgpuToyRenderer::new(8, 8);
    r.state.frame = u32::MAX;
    let plan = r.render();
    assert_eq!(plan.time_bytes, vec![0xff, 0xff, 0xff, 0xff, 0, 0, 0, 0]);
    assert_eq!(r.state.frame, 0);
}

#[test]
fn custom_fields_follow_name_order() {
    let mut r: WgpuToyRenderer<u32> = WgpuToyRenderer::new(8, 8);
    r.set_custom_float("b", 1.0f32.to_bits()).unwrap();
    r.set_custom_float("a", 2.0f32.to_bits()).unwrap();
    assert!(r.prelude().contains("struct Custom {a: float,b: float,};"));
    let plan = r.render();
    let mut expected = 2.0f32.to_le_bytes().to_vec();
    expected.extend_from_slice(&1.0f32.to_le_bytes());
    assert_eq!(plan.custom_bytes, expected);
}

#[test]
fn empty_custom_set_has_placeholder() {
    let mut r: WgpuToyRenderer<u32> = WgpuToyRenderer::new(8, 8);
    assert!(r.prelude().contains("struct Custom {_dummy: float,};"));
    assert_eq!(r.render().custom_bytes, vec![0, 0, 0, 0]);
}

#[test]
fn uniform_bytes_of_time_mouse_keys() {
    let mut r: WgpuToyRenderer<u32> = WgpuToyRenderer::new(8, 8);
    r.set_time_elapsed(1.5f32.to_bits());
    r.set_mouse_pos(3, 258);
    r.set_mouse_click(true);
    r.set_keydown(0, true);
    r.set_keydown(9, true);
    r.set_keydown(255, true);
    let plan = r.render();
    let mut time = vec![0, 0, 0, 0];
    time.extend_from_slice(&1.5f32.to_le_bytes());
    assert_eq!(plan.time_bytes, time);
    assert_eq!(plan.mouse_bytes, vec![3, 0, 0, 0, 2, 1, 0, 0, 1, 0, 0, 0]);
    let mut keys = vec![0u8; 32];
    keys[0] = 1;
    keys[1] = 2;
    keys[31] = 0x80;
    assert_eq!(plan.key_bytes, keys);
    r.set_keydown(9, false);
    assert_eq!(r.render().key_bytes[1], 0);
}

#[test]
fn compile_error_row_is_relative_to_user_text() {
    let r: WgpuToyRenderer<u32> = WgpuToyRenderer::new(8, 8);
    let err = r.set_shader("\n\nfn broken( {\n").err().expect("a syntax error");
    assert_eq!(err.row, 3);
    let custom_changes_prelude = {
        let mut r2: WgpuToyRenderer<u32> = WgpuToyRenderer::new(8, 8);
        r2.set_custom_float("speed", 0).unwrap();
        r2.set_shader("\n\nfn broken( {\n").err().expect("a syntax error").row
    };
    assert_eq!(custom_changes_prelude, 3);
}

#[test]
fn prelude_line_count_matches_text() {
    let r: WgpuToyRenderer<u32> = WgpuToyRenderer::new(8, 8);
    let text = r.prelude();
    assert_eq!(r.prelude_lines(), text.matches('\n').count());
    assert!(text.contains("texture_storage_2d_array<rgba16float,write>"));
    let mut r2: WgpuToyRenderer<u32> = WgpuToyRenderer::new(8, 8);
    r2.set_pass_f32(true);
    assert!(r2.prelude().contains("texture_storage_2d_array<rgba32float,write>"));
}

#[test]
fn invalid_array_lengths_are_errors() {
    let r: WgpuToyRenderer<u32> = WgpuToyRenderer::new(8, 8);
    let bad_float = "fn f() {\n    let a = array<f32, 1.5>();\n}\n";
    assert!(r.set_shader(bad_float).is_err());
    let negative = "fn f() {\n    let a = array<f32, -1>();\n}\n";
    assert!(r.set_shader(negative).is_err());
}

#[test]
fn oversized_arrays_are_errors() {
    let r: WgpuToyRenderer<u32> = WgpuToyRenderer::new(8, 8);
    let huge = "var<private> big: array<vec4<f32>, 1000000000>;\nvar<private> after: array<array<vec4<f32>, 1000000000>, 2>;\nstruct S { a: array<vec4<f32>, 1000000000>, b: f32, }\n";
    assert!(r.set_shader(huge).is_err());
}
