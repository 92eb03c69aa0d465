use shader_reload::validator::{validate, ValidationResult};

const VALID_SHADER: &str = "@vertex\nfn vs_main(@builtin(vertex_index) idx: u32) -> @builtin(position) vec4<f32> {\n    return vec4<f32>(0.0, 0.0, 0.0, 1.0);\n}\n\n@fragment\nfn fs_main() -> @location(0) vec4<f32> {\n    return vec4<f32>(1.0, 0.0, 0.0, 1.0);\n}\n";

const UNDEFINED_IDENT_SHADER: &str = "@fragment\nfn fs_main() -> @location(0) vec4<f32> {\n    return undefined_identifier;\n}\n";

#[test]
fn valid_shader_is_accepted() {
    match validate(VALID_SHADER) {
        ValidationResult::Valid => {}
        ValidationResult::Invalid(diagnostics) => {
            panic!("valid shader rejected: {:?}", diagnostics)
        }
    }
}

#[test]
fn garbage_text_is_rejected_with_diagnostics() {
    match validate("this is not a shader at all {") {
        ValidationResult::Valid => panic!("garbage text accepted"),
        ValidationResult::Invalid(diagnostics) => {
            assert_eq!(diagnostics.len(), 1);
            assert!(!diagnostics[0].is_empty());
        }
    }
}

#[test]
fn undefined_identifier_is_rejected() {
    match validate(UNDEFINED_IDENT_SHADER) {
        ValidationResult::Valid => panic!("shader with undefined identifier accepted"),
        ValidationResult::Invalid(diagnostics) => {
            assert_eq!(diagnostics.len(), 1);
            assert!(!diagnostics[0].is_empty());
        }
    }
}

#[test]
fn empty_text_is_valid_module() {
    // An empty module parses and validates: nothing reaches the backend
    // that the backend would refuse.
    match validate("") {
        ValidationResult::Valid => {}
        ValidationResult::Invalid(diagnostics) => {
            panic!("empty module rejected: {:?}", diagnostics)
        }
    }
}

fn diagnostics_of(result: ValidationResult) -> Vec<String> {
    match result {
        ValidationResult::Valid => Vec::new(),
        ValidationResult::Invalid(diagnostics) => diagnostics,
    }
}

#[test]
fn validation_is_deterministic() {
    let first = matches!(validate(VALID_SHADER), ValidationResult::Valid);
    let second = matches!(validate(VALID_SHADER), ValidationResult::Valid);
    assert_eq!(first, second);
    // Two calls on equal rejected text return equal results in full,
    // diagnostic text included.
    let third = diagnostics_of(validate(UNDEFINED_IDENT_SHADER));
    let fourth = diagnostics_of(validate(UNDEFINED_IDENT_SHADER));
    assert!(!third.is_empty());
    assert_eq!(third, fourth);
}
