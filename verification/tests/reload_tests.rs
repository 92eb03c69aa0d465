use shader_reload::reload::{
    CustomEvent, PipelineManager, ReloadController, ReloadRequest, ReloadSignal,
};

const DEFAULT_SHADER: &str = "@vertex\nfn vs_main() -> @builtin(position) vec4<f32> {\n    return vec4<f32>(0.0, 0.0, 0.0, 1.0);\n}\n";

const UPDATED_SHADER: &str = "@vertex\nfn vs_main() -> @builtin(position) vec4<f32> {\n    return vec4<f32>(1.0, 1.0, 0.0, 1.0);\n}\n";

const BROKEN_SHADER: &str = "@fragment\nfn fs_main() -> @location(0) vec4<f32> {\n    return undefined_identifier;\n}\n";

#[test]
fn watched_file_change_with_valid_text_goes_live() {
    let mut controller = ReloadController::new(String::from(DEFAULT_SHADER));
    assert!(controller.is_idle());
    let request = ReloadRequest::FromFile(String::from(UPDATED_SHADER));
    let signal = controller.process_request(&request);
    assert!(matches!(signal, ReloadSignal::Valid));
    assert!(controller.is_idle());
    assert_eq!(controller.active_source(), UPDATED_SHADER);
}

#[test]
fn editor_text_with_undefined_identifier_is_reported_and_pipeline_kept() {
    let mut controller = ReloadController::new(String::from(DEFAULT_SHADER));
    let request = ReloadRequest::FromEditor(String::from(BROKEN_SHADER));
    let signal = controller.process_request(&request);
    match signal {
        ReloadSignal::Valid => panic!("broken shader reported as valid"),
        ReloadSignal::Error(diagnostics) => {
            assert_eq!(diagnostics.len(), 1);
            assert!(!diagnostics[0].is_empty());
        }
    }
    assert!(controller.is_idle());
    assert_eq!(controller.active_source(), DEFAULT_SHADER);
}

#[test]
fn back_to_back_requests_second_valid_supersedes_first() {
    let mut controller = ReloadController::new(String::from(DEFAULT_SHADER));
    let first = ReloadRequest::FromEditor(String::from(BROKEN_SHADER));
    let second = ReloadRequest::FromEditor(String::from(UPDATED_SHADER));
    let _ = controller.process_request(&first);
    let signal = controller.process_request(&second);
    assert!(matches!(signal, ReloadSignal::Valid));
    assert_eq!(controller.active_source(), UPDATED_SHADER);
}

#[test]
fn back_to_back_requests_second_invalid_keeps_first_outcome() {
    let mut controller = ReloadController::new(String::from(DEFAULT_SHADER));
    let first = ReloadRequest::FromFile(String::from(UPDATED_SHADER));
    let second = ReloadRequest::FromFile(String::from(BROKEN_SHADER));
    let _ = controller.process_request(&first);
    let signal = controller.process_request(&second);
    assert!(matches!(signal, ReloadSignal::Error(_)));
    assert_eq!(controller.active_source(), UPDATED_SHADER);
}

#[test]
fn requests_carry_their_text_whatever_the_source() {
    let from_file = ReloadRequest::FromFile(String::from("a"));
    let from_editor = ReloadRequest::FromEditor(String::from("b"));
    assert_eq!(from_file.text(), "a");
    assert_eq!(from_editor.text(), "b");
}

#[test]
fn pipeline_manager_swaps_only_on_update() {
    let mut manager = PipelineManager::init(String::from(DEFAULT_SHADER));
    assert_eq!(manager.active_source(), DEFAULT_SHADER);
    manager.resize();
    assert_eq!(manager.active_source(), DEFAULT_SHADER);
    // The caller contract of update_shader asks for validated text; this
    // text is the one the validator tests accept.
    manager.update_shader(&String::from(UPDATED_SHADER));
    assert_eq!(manager.active_source(), UPDATED_SHADER);
}

#[test]
fn custom_events_carry_the_shader_text() {
    let event = CustomEvent::UpdateShader(String::from(UPDATED_SHADER));
    match event {
        CustomEvent::UpdateShader(text) => assert_eq!(text, UPDATED_SHADER),
        CustomEvent::ShaderFileChanged => panic!("wrong event variant"),
    }
}
