use codex_advisor::consultation::{
    advisor_effort, advisor_model, AdvisorConfig, AdvisorError, Consultation, ConsultationInput,
    ConsultationStep, ModelInfo, Phase, ReasoningSummary, ResponseEvent, MAX_FEEDBACK_CHARS,
};
use codex_advisor::effort::ReasoningEffort;
use codex_advisor::snapshot::{ContentItem, HistoryItem};
use codex_advisor::tool::AdvisorHandler;

fn config(enabled: bool, model: Option<&str>, effort: Option<ReasoningEffort>) -> AdvisorConfig {
    AdvisorConfig {
        enabled,
        model: model.map(|m| m.to_string()),
        reasoning_effort: effort,
    }
}

fn info(slug: &str, fallback: bool, supported: Vec<ReasoningEffort>) -> ModelInfo {
    ModelInfo {
        slug: slug.to_string(),
        used_fallback_model_metadata: fallback,
        default_reasoning_level: Some(ReasoningEffort::Medium),
        supported_reasoning_levels: supported,
        default_reasoning_summary: ReasoningSummary::Detailed,
        node_repl_disabled: false,
    }
}

fn message(role: &str, text: &str) -> HistoryItem {
    HistoryItem::Message {
        role: role.to_string(),
        content: vec![ContentItem::OutputText { text: text.to_string() }],
    }
}

fn invalid_message(r: Result<String, AdvisorError>) -> String {
    match r {
        Err(AdvisorError::InvalidRequest(m)) => m,
        other => panic!("expected an invalid request, got {other:?}"),
    }
}

fn finish_error(step: ConsultationStep) -> AdvisorError {
    match step {
        ConsultationStep::Finish(Err(e)) => e,
        other => panic!("expected a failed finish, got {other:?}"),
    }
}

/// Runs a consultation up to an open stream and returns it with the request.
fn streaming(summary: &str, history: Vec<HistoryItem>) -> (Consultation, ConsultationStep) {
    let (mut c, step) = Consultation::start(
        config(true, Some("gpt-6-sol"), Some(ReasoningEffort::High)),
        summary.to_string(),
    );
    assert!(matches!(step, ConsultationStep::LookupModel(ref m) if m == "gpt-6-sol"));
    let step = c.step(ConsultationInput::ModelInfo(info(
        "gpt-6-sol",
        false,
        vec![ReasoningEffort::Low, ReasoningEffort::Medium, ReasoningEffort::High],
    )));
    assert!(matches!(step, ConsultationStep::LoadHistory));
    let request = c.step(ConsultationInput::History(history));
    let step = c.step(ConsultationInput::StreamOpened);
    assert!(matches!(step, ConsultationStep::NextEvent));
    (c, request)
}

#[test]
fn advisor_uses_separate_model_without_tools_and_returns_to_worker() {
    let (mut c, request) = streaming(
        "Goal: fix parser; tests fail on empty input.",
        vec![message("user", "Fix the parser")],
    );
    match request {
        ConsultationStep::OpenStream(req) => {
            assert_eq!(req.model, "gpt-6-sol");
            assert_eq!(req.slug, "gpt-6-sol");
            assert_eq!(req.effort, Some(ReasoningEffort::High));
            assert!(req.prompt.tools.is_empty());
            assert_eq!(req.prompt.role, "user");
            assert!(req.prompt.text.contains("fix parser"));
            assert!(!req.auto_review_enabled);
            assert_eq!(req.reasoning_summary, ReasoningSummary::Detailed);
            assert!(req.service_tier.is_none());
            assert!(req.tool_namespaces.is_none());
        }
        other => panic!("expected a stream request, got {other:?}"),
    }
    let step = c.step(ConsultationInput::Event(ResponseEvent::OutputItemDone(message(
        "assistant",
        "Check the empty-input branch.",
    ))));
    assert!(matches!(step, ConsultationStep::NextEvent));
    let step = c.step(ConsultationInput::Event(ResponseEvent::Completed));
    let feedback = match step {
        ConsultationStep::Finish(Ok(f)) => f,
        other => panic!("expected feedback, got {other:?}"),
    };
    assert_eq!(feedback, "Check the empty-input branch.");
    assert!(matches!(c.phase, Phase::Finished));
    let output = AdvisorHandler.respond(Ok(feedback)).unwrap();
    assert!(output.text.contains("Check the empty-input branch"));
    assert_eq!(output.text, "Advisor feedback:\nCheck the empty-input branch.");
    assert_eq!(output.success, Some(true));
}

#[test]
fn advisor_start_consults_separate_model_then_resumes_worker() {
    let (mut c, request) = streaming(
        "Fix the parser's empty-input handling.",
        vec![
            message("user", "Fix the parser's empty-input handling."),
            message("assistant", "I checked the parser."),
        ],
    );
    match request {
        ConsultationStep::OpenStream(req) => {
            assert_eq!(req.model, "gpt-6-sol");
            assert_eq!(req.effort, Some(ReasoningEffort::High));
            assert!(req.prompt.tools.is_empty());
            assert!(req.prompt.text.contains("empty-input"));
            assert!(req
                .prompt
                .text
                .contains("\n\nRecent conversation and results:\nuser: Fix the parser's empty-input handling.\n"));
            assert!(req.prompt.text.contains("assistant: I checked the parser.\n"));
        }
        other => panic!("expected a stream request, got {other:?}"),
    }
    c.step(ConsultationInput::Event(ResponseEvent::OutputItemDone(message(
        "assistant",
        "Check the empty-input branch before changing the parser.",
    ))));
    let step = c.step(ConsultationInput::Event(ResponseEvent::Completed));
    match step {
        ConsultationStep::Finish(Ok(f)) => {
            assert!(f.contains("Check the empty-input branch before changing the parser"))
        }
        other => panic!("expected feedback, got {other:?}"),
    }
}

#[test]
fn disabled_advisor_is_refused_before_any_lookup() {
    let (c, step) = Consultation::start(config(false, Some("gpt-6-sol"), None), "s".to_string());
    assert!(matches!(c.phase, Phase::Finished));
    match finish_error(step) {
        AdvisorError::InvalidRequest(m) => {
            assert_eq!(m, "advisor is disabled; set advisor.enabled = true in config")
        }
        other => panic!("unexpected {other:?}"),
    }
}

#[test]
fn missing_or_blank_model_is_refused() {
    for model in [None, Some(""), Some("  \t\u{3000}")] {
        let r = advisor_model(&config(true, model, None));
        assert_eq!(invalid_message(r), "advisor.model must be configured");
    }
    let r = advisor_model(&config(true, Some(" gpt-6-sol "), None));
    assert_eq!(r.unwrap(), " gpt-6-sol ");
}

#[test]
fn unknown_model_is_refused() {
    let r = advisor_effort(&config(true, Some("m"), None), "gpt-x", &info("gpt-x", true, vec![]));
    match r {
        Err(AdvisorError::InvalidRequest(m)) => {
            assert_eq!(m, "advisor model gpt-x is not available in the model catalog")
        }
        other => panic!("unexpected {other:?}"),
    }
}

#[test]
fn unsupported_effort_is_refused() {
    let r = advisor_effort(
        &config(true, Some("gpt-6-sol"), Some(ReasoningEffort::XHigh)),
        "gpt-6-sol",
        &info("gpt-6-sol", false, vec![ReasoningEffort::Low, ReasoningEffort::High]),
    );
    match r {
        Err(AdvisorError::InvalidRequest(m)) => {
            assert_eq!(m, "reasoning effort xhigh is unavailable for advisor model gpt-6-sol")
        }
        other => panic!("unexpected {other:?}"),
    }
}

#[test]
fn effort_defaults_and_unlisted_efforts() {
    let none_configured = advisor_effort(
        &config(true, Some("m"), None),
        "m",
        &info("m", false, vec![ReasoningEffort::Low]),
    );
    assert_eq!(none_configured.unwrap(), Some(ReasoningEffort::Medium));
    let any_when_unlisted = advisor_effort(
        &config(true, Some("m"), Some(ReasoningEffort::Minimal)),
        "m",
        &info("m", false, vec![]),
    );
    assert_eq!(any_when_unlisted.unwrap(), Some(ReasoningEffort::Minimal));
}

#[test]
fn stream_end_before_completion_is_an_error() {
    let (mut c, _) = streaming("s", vec![]);
    c.step(ConsultationInput::Event(ResponseEvent::OutputItemDone(message("assistant", "hi"))));
    match finish_error(c.step(ConsultationInput::StreamEnded)) {
        AdvisorError::Stream(m) => assert_eq!(m, "advisor response ended before completion"),
        other => panic!("unexpected {other:?}"),
    }
}

#[test]
fn blank_feedback_is_an_error() {
    let (mut c, _) = streaming("s", vec![]);
    c.step(ConsultationInput::Event(ResponseEvent::OutputItemDone(message("assistant", " \n "))));
    c.step(ConsultationInput::Event(ResponseEvent::OutputItemDone(message("user", "ignored"))));
    match finish_error(c.step(ConsultationInput::Event(ResponseEvent::Completed))) {
        AdvisorError::Stream(m) => assert_eq!(m, "advisor returned no feedback"),
        other => panic!("unexpected {other:?}"),
    }
}

#[test]
fn cancellation_and_upstream_failures_end_the_consultation() {
    let (mut c, _) = streaming("s", vec![]);
    let e = finish_error(c.step(ConsultationInput::Failed(AdvisorError::Cancelled)));
    assert!(matches!(e, AdvisorError::Cancelled));
    assert_eq!(e.message(), "turn aborted");
    let (mut c, _) = streaming("s", vec![]);
    let e = finish_error(c.step(ConsultationInput::Failed(AdvisorError::Upstream(
        "unexpected status 500".to_string(),
    ))));
    assert_eq!(e.message(), "unexpected status 500");
}

#[test]
fn feedback_keeps_output_text_of_assistant_messages_only_and_is_trimmed() {
    let (mut c, _) = streaming("s", vec![]);
    c.step(ConsultationInput::Event(ResponseEvent::OutputItemDone(HistoryItem::Message {
        role: "assistant".to_string(),
        content: vec![
            ContentItem::OutputText { text: "  Assessment: ".to_string() },
            ContentItem::InputText { text: "not feedback".to_string() },
            ContentItem::NonText,
            ContentItem::OutputText { text: "fine.\n\n".to_string() },
        ],
    })));
    c.step(ConsultationInput::Event(ResponseEvent::Other));
    c.step(ConsultationInput::Event(ResponseEvent::OutputItemDone(HistoryItem::Other)));
    match c.step(ConsultationInput::Event(ResponseEvent::Completed)) {
        ConsultationStep::Finish(Ok(f)) => assert_eq!(f, "Assessment: fine."),
        other => panic!("unexpected {other:?}"),
    }
}

#[test]
fn feedback_is_cut_to_the_limit() {
    let (mut c, _) = streaming("s", vec![]);
    let long = "é".repeat(3000);
    c.step(ConsultationInput::Event(ResponseEvent::OutputItemDone(message("assistant", &long))));
    c.step(ConsultationInput::Event(ResponseEvent::OutputItemDone(message("assistant", &long))));
    match c.step(ConsultationInput::Event(ResponseEvent::Completed)) {
        ConsultationStep::Finish(Ok(f)) => {
            assert_eq!(f.chars().count(), MAX_FEEDBACK_CHARS);
            assert_eq!(f, "é".repeat(4000));
        }
        other => panic!("unexpected {other:?}"),
    }
}

#[test]
fn consultation_takes_only_expected_inputs() {
    let (c, _) = Consultation::start(config(true, Some("m"), None), "s".to_string());
    assert!(c.can_take(&ConsultationInput::ModelInfo(info("m", false, vec![]))));
    assert!(!c.can_take(&ConsultationInput::StreamOpened));
    assert!(!c.can_take(&ConsultationInput::Failed(AdvisorError::Cancelled)));
}

#[test]
fn request_carries_model_settings() {
    let (mut c, _) = Consultation::start(config(true, Some("adv"), None), "s".to_string());
    let mut i = info("adv-slug", false, vec![]);
    i.node_repl_disabled = true;
    i.default_reasoning_level = None;
    i.default_reasoning_summary = ReasoningSummary::Off;
    c.step(ConsultationInput::ModelInfo(i));
    match c.step(ConsultationInput::History(vec![])) {
        ConsultationStep::OpenStream(req) => {
            assert_eq!(req.model, "adv");
            assert_eq!(req.slug, "adv-slug");
            assert_eq!(req.effort, None);
            assert_eq!(req.reasoning_summary, ReasoningSummary::Off);
            assert!(req.service_tier.is_none());
            assert!(req.tool_namespaces.is_none());
            assert!(req.node_repl_disabled);
            assert!(!req.node_repl_auto_review_required);
            assert!(req.prompt.instructions.starts_with("You are a read-only senior software engineer"));
            assert_eq!(
                req.prompt.text,
                "Worker summary and current question:\ns\n\nRecent conversation and results:\n"
            );
        }
        other => panic!("unexpected {other:?}"),
    }
}

#[test]
fn a_consultation_opens_one_stream_and_keeps_its_configuration() {
    let (mut c, first) = Consultation::start(
        config(true, Some("gpt-6-sol"), Some(ReasoningEffort::High)),
        "summary".to_string(),
    );
    let mut steps = vec![first];
    let inputs = vec![
        ConsultationInput::ModelInfo(info("gpt-6-sol", false, vec![ReasoningEffort::High])),
        ConsultationInput::History(vec![message("user", "hello")]),
        ConsultationInput::StreamOpened,
        ConsultationInput::Event(ResponseEvent::Other),
        ConsultationInput::Event(ResponseEvent::OutputItemDone(message("assistant", "advice"))),
        ConsultationInput::Event(ResponseEvent::Completed),
    ];
    for input in inputs {
        assert!(c.can_take(&input));
        steps.push(c.step(input));
    }
    let opened = steps.iter().filter(|s| matches!(s, ConsultationStep::OpenStream(_))).count();
    assert_eq!(opened, 1);
    assert!(c.config.enabled);
    assert_eq!(c.config.model.as_deref(), Some("gpt-6-sol"));
    assert_eq!(c.config.reasoning_effort, Some(ReasoningEffort::High));
    assert_eq!(c.worker_summary, "summary");
    assert!(matches!(steps.last(), Some(ConsultationStep::Finish(Ok(f))) if f == "advice"));
}
