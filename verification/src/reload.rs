//! The reload path: requests from the editor UI or the file watcher are
//! validated, and only on success does the active pipeline source change.
//! Validation and application run synchronously on one thread, so requests
//! are processed strictly one at a time in arrival order.

use vstd::prelude::*;

use crate::validator;
use crate::validator::ValidationResult;

verus! {

/// The event the background file watcher (or the UI) sends across the
/// channel into the UI/render thread.
#[derive(Debug)]
pub enum CustomEvent {
    ShaderFileChanged,
    UpdateShader(String),
}

/// A reload trigger, unified over its two sources: a change of the watched
/// file (carrying the freshly read text, not just the path) or a submission
/// from the in-editor text buffer.
#[derive(Debug)]
pub enum ReloadRequest {
    FromFile(String),
    FromEditor(String),
}

impl ReloadRequest {
    /// The shader text the request carries.
    pub open spec fn text_spec(&self) -> Seq<char> {
        match self {
            ReloadRequest::FromFile(text) => text@,
            ReloadRequest::FromEditor(text) => text@,
        }
    }

    /// The shader text the request carries.
    pub fn text(&self) -> (r: &String)
        ensures
            r@ == self.text_spec(),
    {
        match self {
            ReloadRequest::FromFile(text) => text,
            ReloadRequest::FromEditor(text) => text,
        }
    }
}

/// The outward-facing result of a reload, shown by the UI: the new source
/// is live, or it was rejected with the diagnostics saying why.
#[derive(Debug)]
pub enum ReloadSignal {
    Valid,
    Error(Vec<String>),
}

/// The controller's processing phase. Validation and application run to
/// completion within one `process_request` call, so the controller is
/// `Idle` whenever control is outside it.
#[derive(Debug, Clone, Copy, PartialEq, Eq, Structural)]
pub enum Phase {
    Idle,
    Validating,
    Applying,
}

/// Owns the source text of the active render pipeline. The backend compile
/// and draw calls live with the renderer; what is modelled and enforced
/// here is the hot-swap discipline: exactly one active source at any
/// instant, replaced atomically between frames, and only ever by text that
/// passed the validation gate.
pub struct PipelineManager {
    active_source: String,
}

impl PipelineManager {
    /// The source text the active pipeline was compiled from.
    pub closed spec fn active(&self) -> Seq<char> {
        self.active_source@
    }

    /// Compiles the built-in default shader into the initial pipeline: the
    /// active source starts as `default_source`.
    pub fn init(default_source: String) -> (r: PipelineManager)
        ensures
            r.active() == default_source@,
    {
        PipelineManager { active_source: default_source }
    }

    /// Atomically replaces the active pipeline source with `text`. Caller
    /// contract: `text` must already have passed the validator — this
    /// method performs no validation itself (use
    /// [`ReloadController::process_request`] for the gated path).
    pub fn update_shader(&mut self, text: &String)
        requires
            validator::wgsl_valid(text@),
        ensures
            final(self).active() == text@,
    {
        self.active_source = text.clone();
    }

    /// The source the renderer draws with; issuing a render pass reads the
    /// active pipeline and must not mutate it, which the shared borrow
    /// enforces.
    pub fn active_source(&self) -> (r: &String)
        ensures
            r@ == self.active(),
    {
        &self.active_source
    }

    /// Deliberately a no-op: the static quad is defined in normalized
    /// device coordinates with no viewport-dependent projection, so a
    /// resize leaves the pipeline untouched — documented here rather than
    /// silently ignored.
    pub fn resize(&mut self)
        ensures
            *final(self) == *old(self),
    {
    }
}

/// What one processed request does to the active pipeline source: a valid
/// request installs its text, an invalid one leaves the active source
/// untouched.
pub open spec fn step_spec(active: Seq<char>, request_text: Seq<char>) -> Seq<char> {
    if validator::wgsl_valid(request_text) {
        request_text
    } else {
        active
    }
}

/// Orchestrates a reload: receives a request, invokes the validator, and
/// only on success hands the text to the pipeline manager; the outcome is
/// reported back as a [`ReloadSignal`].
pub struct ReloadController {
    phase: Phase,
    pipeline: PipelineManager,
}

impl ReloadController {
    /// The source text of the pipeline the renderer currently uses.
    pub closed spec fn active(&self) -> Seq<char> {
        self.pipeline.active()
    }

    /// Whether the controller is between requests.
    pub closed spec fn idle(&self) -> bool {
        self.phase is Idle
    }

    /// A fresh controller in the `Idle` state, owning a pipeline compiled
    /// from the built-in default shader.
    pub fn new(default_source: String) -> (r: ReloadController)
        ensures
            r.idle(),
            r.active() == default_source@,
    {
        ReloadController { phase: Phase::Idle, pipeline: PipelineManager::init(default_source) }
    }

    /// Whether the controller is between requests.
    pub fn is_idle(&self) -> (r: bool)
        ensures
            r == self.idle(),
    {
        matches!(self.phase, Phase::Idle)
    }

    /// The source the renderer draws with.
    pub fn active_source(&self) -> (r: &String)
        ensures
            r@ == self.active(),
    {
        self.pipeline.active_source()
    }

    /// Processes one reload request to completion: `Idle` → `Validating`,
    /// then on a valid verdict `Applying` (the pipeline source is swapped)
    /// and back to `Idle` with a `Valid` signal; on an invalid verdict
    /// straight back to `Idle` with the diagnostics, the pipeline
    /// untouched. Requests are processed strictly one at a time, so the
    /// new active source is `step_spec` of the old one and the request.
    pub fn process_request(&mut self, request: &ReloadRequest) -> (signal: ReloadSignal)
        requires
            old(self).idle(),
        ensures
            final(self).idle(),
            final(self).active() == step_spec(old(self).active(), request.text_spec()),
            validator::wgsl_valid(request.text_spec()) ==> signal is Valid
                && final(self).active() == request.text_spec(),
            !validator::wgsl_valid(request.text_spec()) ==> final(self).active()
                == old(self).active() && (signal matches ReloadSignal::Error(d) && d@.len() == 1
                && d@[0]@ == validator::wgsl_diagnostic(request.text_spec())),
    {
        self.phase = Phase::Validating;
        let text = request.text();
        match validator::validate(text.as_str()) {
            ValidationResult::Valid => {
                self.phase = Phase::Applying;
                self.pipeline.update_shader(text);
                self.phase = Phase::Idle;
                ReloadSignal::Valid
            },
            ValidationResult::Invalid(diagnostics) => {
                self.phase = Phase::Idle;
                ReloadSignal::Error(diagnostics)
            },
        }
    }
}

/// Law (superseding requests): when two requests are processed
/// back-to-back, the final active source is the second's text whenever the
/// second is valid — the first's outcome then has no observable effect —
/// and is whatever the first request left active when the second is
/// invalid.
pub proof fn lemma_second_request_supersedes(
    active: Seq<char>,
    first: Seq<char>,
    second: Seq<char>,
)
    ensures
        validator::wgsl_valid(second) ==> step_spec(step_spec(active, first), second) == second
            && step_spec(step_spec(active, first), second) == step_spec(active, second),
        !validator::wgsl_valid(second) ==> step_spec(step_spec(active, first), second)
            == step_spec(active, first),
{
}

} // verus!
