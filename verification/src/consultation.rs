//! Consulting a separate advisor model: the checks of the advisor's
//! configuration, the request sent to the advisor model, the collection of
//! its feedback, and the state machine that orders these steps around the
//! outside work (model catalog lookup, history, response stream).

use vstd::prelude::*;
use vstd::string::*;

use crate::effort::{effort_name, efforts_contain, ReasoningEffort};
use crate::snapshot::{build_snapshot, snapshot_spec, ContentItem, HistoryItem};
use crate::text::{
    append_within, is_blank, is_white_space, lemma_blank_is_all_white_space,
    lemma_take_chars_absorbs, lemma_trim_shape,
    take_chars_spec, trim, trim_spec,
};

verus! {

/// The most characters of feedback that are kept from the advisor.
pub const MAX_FEEDBACK_CHARS: usize = 4000;

/// The advisor's section of the configuration.
#[derive(Debug)]
pub struct AdvisorConfig {
    pub enabled: bool,
    pub model: Option<String>,
    pub reasoning_effort: Option<ReasoningEffort>,
}

/// How much of its reasoning a model summarises in its response.
#[derive(Clone, Copy, Debug, PartialEq, Eq, Structural)]
pub enum ReasoningSummary {
    Auto,
    Concise,
    Detailed,
    /// No summary (written "none").
    Off,
}

/// What the model catalog knows of a model.
#[derive(Debug)]
pub struct ModelInfo {
    /// The model's name on the wire.
    pub slug: String,
    /// The catalog did not know the model and gave generic metadata.
    pub used_fallback_model_metadata: bool,
    pub default_reasoning_level: Option<ReasoningEffort>,
    /// The effort levels the model takes; empty when the catalog does not say.
    pub supported_reasoning_levels: Vec<ReasoningEffort>,
    pub default_reasoning_summary: ReasoningSummary,
    pub node_repl_disabled: bool,
}

/// Why a consultation failed.
#[derive(Debug)]
pub enum AdvisorError {
    /// The configuration does not allow the consultation; the message says why.
    InvalidRequest(String),
    /// The advisor's response was unusable; the message says why.
    Stream(String),
    /// The consultation was cancelled.
    Cancelled,
    /// The model client failed; the message is its own.
    Upstream(String),
}

/// Whether `e` is an invalid-request error with message `msg`.
pub open spec fn is_invalid_request(e: AdvisorError, msg: Seq<char>) -> bool {
    e matches AdvisorError::InvalidRequest(m) && m@ == msg
}

/// Whether `e` is a stream error with message `msg`.
pub open spec fn is_stream_error(e: AdvisorError, msg: Seq<char>) -> bool {
    e matches AdvisorError::Stream(m) && m@ == msg
}

pub open spec fn disabled_message() -> Seq<char> {
    "advisor is disabled; set advisor.enabled = true in config"@
}

pub open spec fn missing_model_message() -> Seq<char> {
    "advisor.model must be configured"@
}

pub open spec fn unavailable_model_message(model: Seq<char>) -> Seq<char> {
    "advisor model "@ + model + " is not available in the model catalog"@
}

pub open spec fn unsupported_effort_message(effort: ReasoningEffort, model: Seq<char>) -> Seq<char> {
    "reasoning effort "@ + effort_name(effort) + " is unavailable for advisor model "@ + model
}

pub open spec fn no_feedback_message() -> Seq<char> {
    "advisor returned no feedback"@
}

pub open spec fn ended_early_message() -> Seq<char> {
    "advisor response ended before completion"@
}

/// The configured advisor model, unless it is missing or blank.
pub open spec fn configured_model(config: AdvisorConfig) -> Option<Seq<char>> {
    match config.model {
        Some(m) => if is_blank(m@) {
            None
        } else {
            Some(m@)
        },
        None => None,
    }
}

/// The configured effort is one that the model's catalog entry rules out.
pub open spec fn effort_unsupported(config: AdvisorConfig, info: ModelInfo) -> bool {
    match config.reasoning_effort {
        Some(e) => info.supported_reasoning_levels@.len() > 0
            && !info.supported_reasoning_levels@.contains(e),
        None => false,
    }
}

/// The effort the advisor is asked for: the configured one, else the model's default.
pub open spec fn chosen_effort(config: AdvisorConfig, info: ModelInfo) -> Option<ReasoningEffort> {
    match config.reasoning_effort {
        Some(e) => Some(e),
        None => info.default_reasoning_level,
    }
}

/// The advisor model that the configuration names, or why there is none.
pub fn advisor_model(config: &AdvisorConfig) -> (r: Result<String, AdvisorError>)
    ensures
        !config.enabled ==> (r matches Err(e) && is_invalid_request(e, disabled_message())),
        config.enabled && configured_model(*config) is None ==> (r matches Err(e)
            && is_invalid_request(e, missing_model_message())),
        config.enabled && configured_model(*config) is Some ==> (r matches Ok(m) && m@
            == configured_model(*config)->0),
{
    if !config.enabled {
        return Err(AdvisorError::InvalidRequest(String::from_str("advisor is disabled; set advisor.enabled = true in config")));
    }
    match &config.model {
        Some(m) => {
            let t = trim(m.as_str());
            if t.as_str().unicode_len() == 0 {
                Err(AdvisorError::InvalidRequest(String::from_str("advisor.model must be configured")))
            } else {
                Ok(m.clone())
            }
        },
        None => Err(AdvisorError::InvalidRequest(String::from_str("advisor.model must be configured"))),
    }
}

/// The effort the advisor model is asked for, once the catalog's entry for
/// `model` is known, or why the model cannot serve.
pub fn advisor_effort(config: &AdvisorConfig, model: &str, info: &ModelInfo) -> (r: Result<
    Option<ReasoningEffort>,
    AdvisorError,
>)
    ensures
        info.used_fallback_model_metadata ==> (r matches Err(e) && is_invalid_request(
            e,
            unavailable_model_message(model@),
        )),
        !info.used_fallback_model_metadata && effort_unsupported(*config, *info) ==> (r matches Err(
            e,
        ) && is_invalid_request(
            e,
            unsupported_effort_message(config.reasoning_effort->0, model@),
        )),
        !info.used_fallback_model_metadata && !effort_unsupported(*config, *info) ==> r == Ok::<
            Option<ReasoningEffort>,
            AdvisorError,
        >(chosen_effort(*config, *info)),
{
    if info.used_fallback_model_metadata {
        let msg = String::from_str("advisor model ").concat(model).concat(
            " is not available in the model catalog",
        );
        return Err(AdvisorError::InvalidRequest(msg));
    }
    match config.reasoning_effort {
        Some(e) => {
            if info.supported_reasoning_levels.len() > 0 && !efforts_contain(
                &info.supported_reasoning_levels,
                e,
            ) {
                let msg = String::from_str("reasoning effort ").concat(e.name().as_str()).concat(
                    " is unavailable for advisor model ",
                ).concat(model);
                Err(AdvisorError::InvalidRequest(msg))
            } else {
                Ok(Some(e))
            }
        },
        None => Ok(info.default_reasoning_level),
    }
}


/// The instructions that the advisor model is given.
pub open spec fn advisor_instructions() -> Seq<char> {
    "You are a read-only senior software engineer advising an active coding agent. Review the supplied snapshot. Find incorrect assumptions, root causes, architectural risks, likely regressions, missing validation, and simpler approaches. Give short actionable advice under Assessment, Main risk, Recommended next step, and Avoid. Do not claim to have inspected files beyond the snapshot. Do not take ownership of the task."@
}

/// The prompt of a consultation: one message of `role` with `text`, the
/// advisor's instructions, and the tools offered to the advisor.
#[derive(Debug)]
pub struct AdvisorPrompt {
    pub role: String,
    pub text: String,
    pub instructions: String,
    pub tools: Vec<String>,
}

/// What is sent to the advisor model.
#[derive(Debug)]
pub struct AdvisorRequest {
    /// The advisor model as configured.
    pub model: String,
    /// The model's name on the wire.
    pub slug: String,
    pub effort: Option<ReasoningEffort>,
    pub reasoning_summary: ReasoningSummary,
    /// The service tier asked for, by name; none asks for the default tier.
    pub service_tier: Option<String>,
    /// The tool namespaces announced in the request's metadata.
    pub tool_namespaces: Option<Vec<String>>,
    pub node_repl_disabled: bool,
    pub auto_review_enabled: bool,
    pub node_repl_auto_review_required: bool,
    pub prompt: AdvisorPrompt,
}

/// The prompt for a snapshot: a single user message holding the snapshot,
/// the advisor's instructions, and no tools.
pub fn advisor_prompt(snapshot: String) -> (p: AdvisorPrompt)
    ensures
        p.role@ == "user"@,
        p.text@ == snapshot@,
        p.instructions@ == advisor_instructions(),
        p.tools@.len() == 0,
{
    AdvisorPrompt {
        role: String::from_str("user"),
        text: snapshot,
        instructions: String::from_str("You are a read-only senior software engineer advising an active coding agent. Review the supplied snapshot. Find incorrect assumptions, root causes, architectural risks, likely regressions, missing validation, and simpler approaches. Give short actionable advice under Assessment, Main risk, Recommended next step, and Avoid. Do not claim to have inspected files beyond the snapshot. Do not take ownership of the task."),
        tools: Vec::new(),
    }
}

/// One event of the advisor model's response stream.
#[derive(Debug)]
pub enum ResponseEvent {
    /// An item of the response is complete.
    OutputItemDone(HistoryItem),
    /// The response is complete.
    Completed,
    /// Any other event.
    Other,
}

/// The output texts of a message's content, one after another.
pub open spec fn output_text(cs: Seq<ContentItem>) -> Seq<char>
    decreases cs.len(),
{
    if cs.len() == 0 {
        Seq::empty()
    } else {
        output_text(cs.drop_last()) + match cs.last() {
            ContentItem::OutputText { text } => text@,
            _ => Seq::empty(),
        }
    }
}

/// The feedback that an event carries: the output text of a completed
/// assistant message; nothing for any other event.
pub open spec fn event_feedback(e: ResponseEvent) -> Seq<char> {
    match e {
        ResponseEvent::OutputItemDone(HistoryItem::Message { role, content }) => if role@
            == "assistant"@ {
            output_text(content@)
        } else {
            Seq::empty()
        },
        _ => Seq::empty(),
    }
}

/// Adds the feedback that `event` carries to `feedback`, keeping the first
/// `MAX_FEEDBACK_CHARS` characters of all feedback.
pub fn collect_feedback(feedback: &mut String, event: &ResponseEvent)
    requires
        old(feedback)@.len() <= MAX_FEEDBACK_CHARS,
    ensures
        final(feedback)@ == take_chars_spec(
            old(feedback)@ + event_feedback(*event),
            MAX_FEEDBACK_CHARS as nat,
        ),
        final(feedback)@.len() <= MAX_FEEDBACK_CHARS,
{
    let ghost start = feedback@;
    assert(start + Seq::<char>::empty() =~= start);
    match event {
        ResponseEvent::OutputItemDone(HistoryItem::Message { role, content }) => {
            if *role == String::from_str("assistant") {
                let n = content.len();
                assert(content@.take(0) =~= Seq::<ContentItem>::empty());
                for k in 0..n
                    invariant
                        n == content@.len(),
                        start.len() <= MAX_FEEDBACK_CHARS,
                        feedback@ == take_chars_spec(
                            start + output_text(content@.take(k as int)),
                            MAX_FEEDBACK_CHARS as nat,
                        ),
                        feedback@.len() <= MAX_FEEDBACK_CHARS,
                {
                    let ghost so_far = start + output_text(content@.take(k as int));
                    assert(content@.take(k + 1).drop_last() =~= content@.take(k as int));
                    match &content[k] {
                        ContentItem::OutputText { text } => {
                            append_within(feedback, text.as_str(), MAX_FEEDBACK_CHARS);
                            proof {
                                lemma_take_chars_absorbs(so_far, text@, MAX_FEEDBACK_CHARS as nat);
                                assert(start + output_text(content@.take(k + 1)) =~= so_far
                                    + text@);
                            }
                        },
                        _ => {
                            assert(start + output_text(content@.take(k + 1)) =~= so_far);
                        },
                    }
                }
                assert(content@.take(n as int) =~= content@);
            }
        },
        _ => {},
    }
}

/// What a consultation answers once the response is complete: the trimmed
/// feedback, unless it is blank.
pub fn feedback_outcome(feedback: &String) -> (r: Result<String, AdvisorError>)
    ensures
        is_blank(feedback@) ==> (r matches Err(e) && is_stream_error(e, no_feedback_message())),
        !is_blank(feedback@) ==> (r matches Ok(f) && f@ == trim_spec(feedback@)),
{
    let t = trim(feedback.as_str());
    if t.as_str().unicode_len() == 0 {
        Err(AdvisorError::Stream(String::from_str("advisor returned no feedback")))
    } else {
        Ok(t)
    }
}


/// Whether `p` is the prompt for `snapshot`.
pub open spec fn is_prompt_for(p: AdvisorPrompt, snapshot: Seq<char>) -> bool {
    &&& p.role@ == "user"@
    &&& p.text@ == snapshot
    &&& p.instructions@ == advisor_instructions()
    &&& p.tools@.len() == 0
}

/// Where a consultation stands.
#[derive(Debug)]
pub enum Phase {
    /// The catalog's entry for `model` is awaited.
    AwaitingModelInfo { model: String },
    /// The session's history is awaited; the request's settings are known.
    AwaitingHistory {
        model: String,
        slug: String,
        effort: Option<ReasoningEffort>,
        reasoning_summary: ReasoningSummary,
        node_repl_disabled: bool,
    },
    /// The response stream is being opened.
    AwaitingStream,
    /// Events are read; `feedback` holds what was collected so far.
    Streaming { feedback: String },
    /// The consultation has its answer.
    Finished,
}

/// What the outside world reports to a consultation.
#[derive(Debug)]
pub enum ConsultationInput {
    /// The catalog's entry for the model asked for.
    ModelInfo(ModelInfo),
    /// The session's history, oldest item first.
    History(Vec<HistoryItem>),
    /// The response stream is open.
    StreamOpened,
    /// The next event of the response stream.
    Event(ResponseEvent),
    /// The response stream ended.
    StreamEnded,
    /// The outside work failed or was cancelled.
    Failed(AdvisorError),
}

/// What a consultation asks the outside world to do next.
#[derive(Debug)]
pub enum ConsultationStep {
    /// Look `model` up in the model catalog.
    LookupModel(String),
    /// Fetch the session's history.
    LoadHistory,
    /// Open a response stream for the request.
    OpenStream(AdvisorRequest),
    /// Read the next event of the stream.
    NextEvent,
    /// The consultation is over with this answer.
    Finish(Result<String, AdvisorError>),
}

/// Whether `s` ends the consultation with an invalid-request error with message `msg`.
pub open spec fn finishes_invalid(s: ConsultationStep, msg: Seq<char>) -> bool {
    s matches ConsultationStep::Finish(Err(e)) && is_invalid_request(e, msg)
}

/// Whether `s` ends the consultation with a stream error with message `msg`.
pub open spec fn finishes_stream_error(s: ConsultationStep, msg: Seq<char>) -> bool {
    s matches ConsultationStep::Finish(Err(e)) && is_stream_error(e, msg)
}

/// Whether `s` ends the consultation as a completed response with collected
/// `feedback` is answered: the trimmed feedback, or a stream error when it is blank.
pub open spec fn finishes_with_feedback(s: ConsultationStep, feedback: Seq<char>) -> bool {
    if is_blank(feedback) {
        finishes_stream_error(s, no_feedback_message())
    } else {
        s matches ConsultationStep::Finish(Ok(f)) && f@ == trim_spec(feedback)
    }
}

/// One consultation of the advisor on behalf of a worker.
#[derive(Debug)]
pub struct Consultation {
    pub config: AdvisorConfig,
    pub worker_summary: String,
    pub phase: Phase,
}

/// How a consultation that awaits the catalog's entry takes it: it ends when
/// the catalog does not know the model or rules out the configured effort;
/// else it awaits the history, with the request's settings fixed.
pub open spec fn model_info_taken(
    before: Consultation,
    info: ModelInfo,
    after: Consultation,
    r: ConsultationStep,
) -> bool {
    match before.phase {
        Phase::AwaitingModelInfo { model } => if info.used_fallback_model_metadata {
            &&& finishes_invalid(r, unavailable_model_message(model@))
            &&& after.phase is Finished
        } else if effort_unsupported(before.config, info) {
            &&& finishes_invalid(
                r,
                unsupported_effort_message(before.config.reasoning_effort->0, model@),
            )
            &&& after.phase is Finished
        } else {
            &&& r is LoadHistory
            &&& after.phase matches Phase::AwaitingHistory {
                model: m,
                slug,
                effort,
                reasoning_summary,
                node_repl_disabled,
            }
            &&& m@ == model@
            &&& slug@ == info.slug@
            &&& effort == chosen_effort(before.config, info)
            &&& reasoning_summary == info.default_reasoning_summary
            &&& node_repl_disabled == info.node_repl_disabled
        },
        _ => false,
    }
}

/// How a consultation that awaits the history takes it: it asks to open a
/// stream for the request whose prompt is the snapshot of the history, with
/// the settings fixed before, no service tier, no tool namespaces and no
/// automatic review.
pub open spec fn history_taken(
    before: Consultation,
    items: Seq<HistoryItem>,
    after: Consultation,
    r: ConsultationStep,
) -> bool {
    match before.phase {
        Phase::AwaitingHistory { model, slug, effort, reasoning_summary, node_repl_disabled } => {
            &&& r matches ConsultationStep::OpenStream(req)
            &&& req.model@ == model@
            &&& req.slug@ == slug@
            &&& req.effort == effort
            &&& req.reasoning_summary == reasoning_summary
            &&& req.service_tier is None
            &&& req.tool_namespaces is None
            &&& req.node_repl_disabled == node_repl_disabled
            &&& !req.auto_review_enabled
            &&& !req.node_repl_auto_review_required
            &&& is_prompt_for(req.prompt, snapshot_spec(items, before.worker_summary@))
            &&& after.phase is AwaitingStream
        },
        _ => false,
    }
}

/// How a streaming consultation takes an event: completion ends it with the
/// collected feedback; any other event adds what it carries.
pub open spec fn event_taken(
    before: Consultation,
    event: ResponseEvent,
    after: Consultation,
    r: ConsultationStep,
) -> bool {
    match before.phase {
        Phase::Streaming { feedback } => if event is Completed {
            finishes_with_feedback(r, feedback@) && after.phase is Finished
        } else {
            &&& r is NextEvent
            &&& after.phase matches Phase::Streaming { feedback: now }
            &&& now@ == take_chars_spec(feedback@ + event_feedback(event), MAX_FEEDBACK_CHARS as nat)
        },
        _ => false,
    }
}

/// How a consultation takes one input: the configuration and the worker's
/// summary stay as they are, and the phase and the next step are those that
/// the input calls for where the consultation stands.
pub open spec fn step_taken(
    before: Consultation,
    input: ConsultationInput,
    after: Consultation,
    r: ConsultationStep,
) -> bool {
    &&& after.config == before.config
    &&& after.worker_summary == before.worker_summary
    &&& match input {
        ConsultationInput::Failed(e) => r == ConsultationStep::Finish(Err(e)) && after.phase is Finished,
        ConsultationInput::ModelInfo(info) => model_info_taken(before, info, after, r),
        ConsultationInput::History(items) => history_taken(before, items@, after, r),
        ConsultationInput::StreamOpened => r is NextEvent && (after.phase matches Phase::Streaming {
            feedback,
        } && feedback@.len() == 0),
        ConsultationInput::Event(event) => event_taken(before, event, after, r),
        ConsultationInput::StreamEnded => finishes_stream_error(r, ended_early_message())
            && after.phase is Finished,
    }
}

impl Consultation {
    /// The consultation's state is consistent: collected feedback stays
    /// within `MAX_FEEDBACK_CHARS` characters.
    pub open spec fn wf(&self) -> bool {
        match self.phase {
            Phase::Streaming { feedback } => feedback@.len() <= MAX_FEEDBACK_CHARS,
            _ => true,
        }
    }

    /// Whether the consultation, where it stands, can take `input`.
    pub open spec fn accepts(&self, input: ConsultationInput) -> bool {
        match self.phase {
            Phase::AwaitingModelInfo { .. } => input is ModelInfo,
            Phase::AwaitingHistory { .. } => input is History,
            Phase::AwaitingStream => input is StreamOpened || input is Failed,
            Phase::Streaming { .. } => input is Event || input is StreamEnded || input is Failed,
            Phase::Finished => false,
        }
    }

    /// Whether the consultation can take `input` now.
    pub fn can_take(&self, input: &ConsultationInput) -> (b: bool)
        ensures
            b == self.accepts(*input),
    {
        match &self.phase {
            Phase::AwaitingModelInfo { .. } => matches!(input, ConsultationInput::ModelInfo(_)),
            Phase::AwaitingHistory { .. } => matches!(input, ConsultationInput::History(_)),
            Phase::AwaitingStream => matches!(
                input,
                ConsultationInput::StreamOpened | ConsultationInput::Failed(_)
            ),
            Phase::Streaming { .. } => matches!(
                input,
                ConsultationInput::Event(_) | ConsultationInput::StreamEnded
                    | ConsultationInput::Failed(_)
            ),
            Phase::Finished => false,
        }
    }

    /// Starts a consultation: checks that the advisor is enabled and has a
    /// model, and asks for the model's catalog entry.
    pub fn start(config: AdvisorConfig, worker_summary: String) -> (r: (Consultation, ConsultationStep))
        ensures
            r.0.wf(),
            r.0.config == config,
            r.0.worker_summary == worker_summary,
            !config.enabled ==> finishes_invalid(r.1, disabled_message()) && r.0.phase is Finished,
            config.enabled && configured_model(config) is None ==> finishes_invalid(
                r.1,
                missing_model_message(),
            ) && r.0.phase is Finished,
            config.enabled && configured_model(config) is Some ==> (r.1 matches ConsultationStep::LookupModel(
                m,
            ) && m@ == configured_model(config)->0 && (r.0.phase matches Phase::AwaitingModelInfo {
                model,
            } && model@ == m@)),
    {
        match advisor_model(&config) {
            Err(e) => (
                Consultation { config, worker_summary, phase: Phase::Finished },
                ConsultationStep::Finish(Err(e)),
            ),
            Ok(model) => {
                let asked = model.clone();
                (
                    Consultation {
                        config,
                        worker_summary,
                        phase: Phase::AwaitingModelInfo { model },
                    },
                    ConsultationStep::LookupModel(asked),
                )
            },
        }
    }

    /// Takes what the outside world reports and says what to do next.
    pub fn step(&mut self, input: ConsultationInput) -> (r: ConsultationStep)
        requires
            old(self).wf(),
            old(self).accepts(input),
        ensures
            final(self).wf(),
            step_taken(*old(self), input, *final(self), r),
    {
        match input {
            ConsultationInput::Failed(e) => {
                self.phase = Phase::Finished;
                ConsultationStep::Finish(Err(e))
            },
            ConsultationInput::ModelInfo(info) => {
                let model = match &self.phase {
                    Phase::AwaitingModelInfo { model } => model.clone(),
                    _ => vstd::pervasive::unreached(),
                };
                match advisor_effort(&self.config, model.as_str(), &info) {
                    Err(e) => {
                        self.phase = Phase::Finished;
                        ConsultationStep::Finish(Err(e))
                    },
                    Ok(effort) => {
                        self.phase = Phase::AwaitingHistory {
                            model,
                            slug: info.slug,
                            effort,
                            reasoning_summary: info.default_reasoning_summary,
                            node_repl_disabled: info.node_repl_disabled,
                        };
                        ConsultationStep::LoadHistory
                    },
                }
            },
            ConsultationInput::History(items) => {
                let (model, slug, effort, reasoning_summary, node_repl_disabled) = match &self.phase {
                    Phase::AwaitingHistory {
                        model,
                        slug,
                        effort,
                        reasoning_summary,
                        node_repl_disabled,
                    } => (model.clone(), slug.clone(), *effort, *reasoning_summary, *node_repl_disabled),
                    _ => vstd::pervasive::unreached(),
                };
                let snapshot = build_snapshot(&items, self.worker_summary.as_str());
                let prompt = advisor_prompt(snapshot);
                self.phase = Phase::AwaitingStream;
                ConsultationStep::OpenStream(
                    AdvisorRequest {
                        model,
                        slug,
                        effort,
                        reasoning_summary,
                        service_tier: None,
                        tool_namespaces: None,
                        node_repl_disabled,
                        auto_review_enabled: false,
                        node_repl_auto_review_required: false,
                        prompt,
                    },
                )
            },
            ConsultationInput::StreamOpened => {
                self.phase = Phase::Streaming { feedback: String::new() };
                ConsultationStep::NextEvent
            },
            ConsultationInput::Event(event) => {
                let mut feedback = match &self.phase {
                    Phase::Streaming { feedback } => feedback.clone(),
                    _ => vstd::pervasive::unreached(),
                };
                match event {
                    ResponseEvent::Completed => {
                        self.phase = Phase::Finished;
                        ConsultationStep::Finish(feedback_outcome(&feedback))
                    },
                    _ => {
                        collect_feedback(&mut feedback, &event);
                        self.phase = Phase::Streaming { feedback };
                        ConsultationStep::NextEvent
                    },
                }
            },
            ConsultationInput::StreamEnded => {
                self.phase = Phase::Finished;
                ConsultationStep::Finish(
                    Err(
                        AdvisorError::Stream(
                            String::from_str("advisor response ended before completion"),
                        ),
                    ),
                )
            },
        }
    }
}


/// The feedback a consultation answers with is never empty, never longer
/// than `MAX_FEEDBACK_CHARS` characters, and neither starts nor ends with
/// white space.
pub proof fn lemma_feedback_answer_is_clean(feedback: Seq<char>)
    requires
        feedback.len() <= MAX_FEEDBACK_CHARS,
        !is_blank(feedback),
    ensures
        trim_spec(feedback).len() > 0,
        trim_spec(feedback).len() <= MAX_FEEDBACK_CHARS,
        !is_white_space(trim_spec(feedback)[0]),
        !is_white_space(trim_spec(feedback).last()),
        trim_spec(trim_spec(feedback)) == trim_spec(feedback),
{
    lemma_trim_shape(feedback);
}

/// When the advisor is asked for the configured effort and the catalog
/// lists the model's efforts, the effort asked for is one of them.
pub proof fn lemma_chosen_effort_is_supported(config: AdvisorConfig, info: ModelInfo)
    requires
        !effort_unsupported(config, info),
        config.reasoning_effort is Some,
        info.supported_reasoning_levels@.len() > 0,
    ensures
        info.supported_reasoning_levels@.contains(chosen_effort(config, info)->0),
{
}


/// The message that an error is reported with.
pub open spec fn error_message(e: AdvisorError) -> Seq<char> {
    match e {
        AdvisorError::InvalidRequest(m) => m@,
        AdvisorError::Stream(m) => "stream disconnected before completion: "@ + m@,
        AdvisorError::Cancelled => "turn aborted"@,
        AdvisorError::Upstream(m) => m@,
    }
}

impl AdvisorError {
    /// The message that this error is reported with.
    pub fn message(&self) -> (s: String)
        ensures
            s@ == error_message(*self),
    {
        match self {
            AdvisorError::InvalidRequest(m) => m.clone(),
            AdvisorError::Stream(m) => String::from_str(
                "stream disconnected before completion: ",
            ).concat(m.as_str()),
            AdvisorError::Cancelled => String::from_str("turn aborted"),
            AdvisorError::Upstream(m) => m.clone(),
        }
    }
}


/// How far a consultation has come; it never goes back.
pub open spec fn progress(p: Phase) -> int {
    match p {
        Phase::AwaitingModelInfo { .. } => 0,
        Phase::AwaitingHistory { .. } => 1,
        Phase::AwaitingStream => 2,
        Phase::Streaming { .. } => 3,
        Phase::Finished => 4,
    }
}

/// Whether consultation states, inputs and steps form a run: state `i`
/// takes input `i`, asks for step `i` and becomes state `i + 1`.
pub open spec fn is_run(
    states: Seq<Consultation>,
    inputs: Seq<ConsultationInput>,
    steps: Seq<ConsultationStep>,
) -> bool {
    &&& states.len() == inputs.len() + 1
    &&& steps.len() == inputs.len()
    &&& forall|i: int|
        #![trigger inputs[i]]
        0 <= i < inputs.len() ==> states[i].accepts(inputs[i]) && step_taken(
            states[i],
            inputs[i],
            states[i + 1],
            steps[i],
        )
}

/// One step never moves a consultation back, and only the step that takes
/// the history asks to open a stream.
proof fn lemma_step_progress(
    before: Consultation,
    input: ConsultationInput,
    after: Consultation,
    r: ConsultationStep,
)
    requires
        before.accepts(input),
        step_taken(before, input, after, r),
    ensures
        progress(after.phase) >= progress(before.phase),
        r is OpenStream ==> (before.phase is AwaitingHistory && after.phase is AwaitingStream),
{
}

/// Along a run, a consultation never moves back and keeps its configuration
/// and the worker's summary.
proof fn lemma_run_progress(
    states: Seq<Consultation>,
    inputs: Seq<ConsultationInput>,
    steps: Seq<ConsultationStep>,
    i: int,
    j: int,
)
    requires
        is_run(states, inputs, steps),
        0 <= i <= j < states.len(),
    ensures
        progress(states[i].phase) <= progress(states[j].phase),
        states[j].config == states[i].config,
        states[j].worker_summary == states[i].worker_summary,
    decreases j - i,
{
    if i < j {
        lemma_run_progress(states, inputs, steps, i, j - 1);
        assert(states[j - 1].accepts(inputs[j - 1]));
        lemma_step_progress(states[j - 1], inputs[j - 1], states[j], steps[j - 1]);
    }
}

/// A whole consultation asks the advisor model for at most one response
/// (`start` asks for none; of the steps, at most one opens a stream), and it
/// leaves the configuration it was started with unchanged throughout, on
/// success and on every error.
pub proof fn lemma_consultation_opens_at_most_one_stream(
    states: Seq<Consultation>,
    inputs: Seq<ConsultationInput>,
    steps: Seq<ConsultationStep>,
)
    requires
        is_run(states, inputs, steps),
    ensures
        forall|i: int, j: int|
            #![trigger steps[i], steps[j]]
            0 <= i < steps.len() && 0 <= j < steps.len() && steps[i] is OpenStream
                && steps[j] is OpenStream ==> i == j,
        forall|k: int|
            #![trigger states[k]]
            0 <= k < states.len() ==> states[k].config == states[0].config
                && states[k].worker_summary == states[0].worker_summary,
{
    assert forall|k: int| #![trigger states[k]] 0 <= k < states.len() implies states[k].config == states[0].config
        && states[k].worker_summary == states[0].worker_summary by {
        lemma_run_progress(states, inputs, steps, 0, k);
    }
    assert forall|i: int, j: int|
        #![trigger steps[i], steps[j]]
        0 <= i < steps.len() && 0 <= j < steps.len() && steps[i] is OpenStream
            && steps[j] is OpenStream implies i == j by {
        assert(states[i].accepts(inputs[i]));
        assert(states[j].accepts(inputs[j]));
        lemma_step_progress(states[i], inputs[i], states[i + 1], steps[i]);
        lemma_step_progress(states[j], inputs[j], states[j + 1], steps[j]);
        if i < j {
            lemma_run_progress(states, inputs, steps, i + 1, j);
        } else if j < i {
            lemma_run_progress(states, inputs, steps, j + 1, i);
        }
    }
}


/// The output text of a content list is that of its first part followed by
/// that of its second part.
pub proof fn lemma_output_text_concatenates(a: Seq<ContentItem>, b: Seq<ContentItem>)
    ensures
        output_text(a + b) == output_text(a) + output_text(b),
    decreases b.len(),
{
    if b.len() == 0 {
        assert(a + b =~= a);
        assert(output_text(a) + Seq::<char>::empty() =~= output_text(a));
    } else {
        lemma_output_text_concatenates(a, b.drop_last());
        assert((a + b).drop_last() =~= a + b.drop_last());
        assert((a + b).last() == b.last());
    }
}

/// A single output-text part contributes its whole text, line breaks and
/// all; any other single part contributes nothing.
pub proof fn lemma_output_text_of_one_part(c: ContentItem)
    ensures
        output_text(seq![c]) == match c {
            ContentItem::OutputText { text } => text@,
            _ => Seq::<char>::empty(),
        },
{
    let one = seq![c];
    assert(one.drop_last() =~= Seq::<ContentItem>::empty());
    assert(one.last() == c);
    assert(output_text(one.drop_last()) == Seq::<char>::empty());
    match c {
        ContentItem::OutputText { text } => {
            assert(Seq::<char>::empty() + text@ =~= text@);
        },
        _ => {
            assert(Seq::<char>::empty() + Seq::<char>::empty() =~= Seq::<char>::empty());
        },
    }
}

/// A completed assistant message carries all of its output text as
/// feedback; no other event carries any.
pub proof fn lemma_assistant_message_carries_its_output_text(event: ResponseEvent)
    ensures
        event matches ResponseEvent::OutputItemDone(HistoryItem::Message { role, content }) ==> (
        role@ == "assistant"@ ==> event_feedback(event) == output_text(content@)),
        !(event is OutputItemDone) ==> event_feedback(event).len() == 0,
{
}

/// A streaming consultation that is given an assistant message with one
/// output text keeps that whole text after what it had collected, as long
/// as both fit within `MAX_FEEDBACK_CHARS` characters.
pub proof fn lemma_assistant_text_is_kept_whole(
    before: Consultation,
    feedback: String,
    role: String,
    content: Vec<ContentItem>,
    text: String,
    after: Consultation,
    r: ConsultationStep,
)
    requires
        before.phase == (Phase::Streaming { feedback }),
        role@ == "assistant"@,
        content@ == seq![ContentItem::OutputText { text }],
        feedback@.len() + text@.len() <= MAX_FEEDBACK_CHARS,
        step_taken(
            before,
            ConsultationInput::Event(
                ResponseEvent::OutputItemDone(HistoryItem::Message { role, content }),
            ),
            after,
            r,
        ),
    ensures
        r is NextEvent,
        after.phase matches Phase::Streaming { feedback: now } && now@ == feedback@ + text@,
{
    lemma_output_text_of_one_part(ContentItem::OutputText { text });
}

/// A configured effort that the model lists, wherever in its list, is
/// accepted and asked for.
pub proof fn lemma_listed_effort_is_accepted(config: AdvisorConfig, info: ModelInfo, e: ReasoningEffort)
    requires
        config.reasoning_effort == Some(e),
        info.supported_reasoning_levels@.contains(e),
    ensures
        !effort_unsupported(config, info),
        chosen_effort(config, info) == Some(e),
{
}

/// With no configured effort, or a model that lists no efforts, no effort
/// is refused; the advisor is then asked for the configured effort, or for
/// the model's default when none is configured.
pub proof fn lemma_effort_accepted_without_list_or_choice(config: AdvisorConfig, info: ModelInfo)
    requires
        config.reasoning_effort is None || info.supported_reasoning_levels@.len() == 0,
    ensures
        !effort_unsupported(config, info),
        config.reasoning_effort is None ==> chosen_effort(config, info)
            == info.default_reasoning_level,
        config.reasoning_effort is Some ==> chosen_effort(config, info) == config.reasoning_effort,
{
}

/// A configured effort is refused exactly when the model lists efforts and
/// that effort is not among them.
pub proof fn lemma_unlisted_effort_is_refused(config: AdvisorConfig, info: ModelInfo, e: ReasoningEffort)
    requires
        config.reasoning_effort == Some(e),
        info.supported_reasoning_levels@.len() > 0,
        forall|i: int|
            0 <= i < info.supported_reasoning_levels@.len() ==> info.supported_reasoning_levels@[i]
                != e,
    ensures
        effort_unsupported(config, info),
{
}


/// The advisor has a model exactly when one is configured with at least one
/// character that is not white space; it is then the configured name as
/// written, surrounding white space included.
pub proof fn lemma_configured_model_needs_a_visible_name(config: AdvisorConfig)
    ensures
        configured_model(config) is Some <==> (config.model matches Some(x) && exists|i: int|
            0 <= i < x@.len() && !is_white_space(#[trigger] x@[i])),
        configured_model(config) matches Some(m) ==> (config.model matches Some(x) && x@ == m),
{
    match config.model {
        Some(x) => {
            lemma_blank_is_all_white_space(x@);
        },
        None => {},
    }
}

} // verus!
