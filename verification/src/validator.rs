//! The validation gate: shader source text goes in, a parse plus static
//! validation verdict comes out. This is the sole check standing between
//! user-supplied text and the GPU backend, so a malformed program is an
//! expected, first-class result here, never a panic.

use vstd::prelude::*;

verus! {

/// Whether the WGSL program `source` parses and passes static validation.
///
/// The verdict is computed by the shading-language frontend (see
/// [`check_wgsl`]); it is a deterministic function of the text alone, which
/// is all this name asserts. Contracts that need the grammar speak through
/// this name rather than restating it.
pub uninterp spec fn wgsl_valid(source: Seq<char>) -> bool;

/// The diagnostic text with which the frontend rejects the WGSL program
/// `source`. Like the verdict it is a deterministic function of the text
/// alone (see [`check_wgsl`]); it is meaningful only when
/// `!wgsl_valid(source)`.
pub uninterp spec fn wgsl_diagnostic(source: Seq<char>) -> Seq<char>;

/// Relies on `naga::front::wgsl::parse_str` and
/// `naga::valid::Validator::validate` (run with default validation flags and
/// all capabilities, as the renderer does): both are deterministic in the
/// module they are given, so whether `source` is accepted is a function of
/// the text alone, named `wgsl_valid`. On rejection the error's display
/// text is returned; both error types format their own recorded message
/// deterministically, so that text is a function of the source too, named
/// `wgsl_diagnostic`.
#[verifier::external_body]
fn check_wgsl(source: &str) -> (r: Result<(), String>)
    ensures
        r is Ok <==> wgsl_valid(source@),
        r matches Err(diagnostic) ==> diagnostic@ == wgsl_diagnostic(source@),
{
    let module = match naga::front::wgsl::parse_str(source) {
        Ok(module) => module,
        Err(parse_error) => return Err(parse_error.to_string()),
    };
    let mut validator = naga::valid::Validator::new(
        naga::valid::ValidationFlags::default(),
        naga::valid::Capabilities::all(),
    );
    match validator.validate(&module) {
        Ok(_info) => Ok(()),
        Err(validation_error) => Err(validation_error.to_string()),
    }
}

/// The verdict of [`validate`]: either the program may reach the backend, or
/// it may not, with at least one human-readable diagnostic saying why.
pub enum ValidationResult {
    Valid,
    Invalid(Vec<String>),
}

/// Parses `shader` against the shading-language grammar and runs its static
/// checks. Pure, stateless and deterministic: the whole result is a
/// function of the text, and malformed input yields `Invalid` with exactly
/// one diagnostic — no input raises.
pub fn validate(shader: &str) -> (r: ValidationResult)
    ensures
        r is Valid <==> wgsl_valid(shader@),
        r matches ValidationResult::Invalid(d) ==> d@.len() == 1 && d@[0]@ == wgsl_diagnostic(
            shader@,
        ),
{
    match check_wgsl(shader) {
        Ok(()) => ValidationResult::Valid,
        Err(diagnostic) => {
            let mut diagnostics: Vec<String> = Vec::new();
            diagnostics.push(diagnostic);
            ValidationResult::Invalid(diagnostics)
        },
    }
}

} // verus!
