use codex_advisor::effort::ReasoningEffort;
use codex_advisor::picker::{
    is_pickable, AdvisorSelection, AppEvent, ChatWidget, ModelPreset,
};

fn preset(model: &str, show: bool, efforts: Vec<ReasoningEffort>) -> ModelPreset {
    ModelPreset {
        model: model.to_string(),
        display_name: format!("{model} name"),
        description: if model.ends_with("-quiet") { String::new() } else { format!("{model} desc") },
        show_in_picker: show,
        default_reasoning_effort: ReasoningEffort::Medium,
        supported_reasoning_efforts: efforts,
    }
}

fn widget(configured: bool, model: Option<&str>, effort: Option<ReasoningEffort>) -> ChatWidget {
    ChatWidget::new(
        configured,
        AdvisorSelection { model: model.map(|m| m.to_string()), reasoning_effort: effort },
    )
}

#[test]
fn model_picker_lists_visible_non_auto_models() {
    let mut w = widget(true, Some("gpt-6-sol"), None);
    w.open_advisor_picker_with_presets(vec![
        preset("gpt-5.5", true, vec![]),
        preset("codex-auto-balanced", true, vec![]),
        preset("hidden", false, vec![]),
        preset("gpt-6-sol", true, vec![]),
        preset("gpt-6-quiet", true, vec![]),
    ]);
    assert!(w.info_messages.is_empty());
    assert_eq!(w.views.len(), 1);
    let v = &w.views[0];
    assert_eq!(v.view_id.as_deref(), Some("advisor-model-selection"));
    assert_eq!(v.title.as_deref(), Some("Advisor"));
    let header = v.header.as_ref().unwrap();
    assert_eq!(header.title, "Select Advisor Model");
    assert_eq!(header.subtitle, "");
    assert_eq!(
        v.model_ids.clone().unwrap(),
        vec!["gpt-5.5".to_string(), "gpt-6-sol".to_string(), "gpt-6-quiet".to_string()]
    );
    let names: Vec<&str> = v.items.iter().map(|i| i.name.as_str()).collect();
    assert_eq!(names, vec!["gpt-5.5 name", "gpt-6-sol name", "gpt-6-quiet name"]);
    let current: Vec<bool> = v.items.iter().map(|i| i.is_current).collect();
    assert_eq!(current, vec![false, true, false]);
    assert_eq!(v.items[0].description.as_deref(), Some("gpt-5.5 desc"));
    assert_eq!(v.items[2].description, None);
    assert!(!v.items[1].dismiss_on_select);
    assert!(v.items[1].dismiss_parent_on_child_accept);
    match &v.items[1].action {
        AppEvent::OpenAdvisorReasoningPopup { model } => assert_eq!(model.model, "gpt-6-sol"),
        other => panic!("unexpected {other:?}"),
    }
}

#[test]
fn model_picker_without_models_says_so() {
    let mut w = widget(true, None, None);
    w.open_advisor_picker_with_presets(vec![preset("codex-auto-fast", true, vec![])]);
    assert!(w.views.is_empty());
    assert_eq!(w.info_messages, vec!["No advisor models are available right now.".to_string()]);
}

#[test]
fn picker_waits_for_startup() {
    let mut w = widget(false, None, None);
    w.open_advisor_picker(Some(vec![preset("gpt-5.5", true, vec![])]));
    assert_eq!(
        w.info_messages,
        vec!["Advisor selection is disabled until startup completes.".to_string()]
    );
    assert!(w.views.is_empty());
    assert!(w.events.is_empty());
    assert!(w.model_popup_request_id.is_none());
}

#[test]
fn picker_requests_fresh_models_with_a_random_id() {
    let mut w = widget(true, None, None);
    w.open_advisor_picker(Some(vec![preset("gpt-5.5", true, vec![])]));
    let id = w.model_popup_request_id.expect("request id");
    assert_eq!((id >> 76) & 0xf, 4);
    assert_eq!((id >> 62) & 0x3, 2);
    assert_eq!(w.views.len(), 1);
    assert_eq!(w.events.len(), 1);
    match &w.events[0] {
        AppEvent::FetchModels { request_id } => assert_eq!(*request_id, id),
        other => panic!("unexpected {other:?}"),
    }
    let mut w2 = widget(true, None, None);
    w2.open_advisor_picker(None);
    assert_eq!(w2.info_messages, vec!["No advisor models are available right now.".to_string()]);
    assert_ne!(w2.model_popup_request_id, Some(id));
    assert_eq!(w2.events.len(), 1);
}

#[test]
fn reasoning_popup_offers_supported_efforts() {
    let mut w = widget(true, Some("gpt-6-sol"), Some(ReasoningEffort::High));
    w.open_advisor_reasoning_popup(preset(
        "gpt-6-sol",
        true,
        vec![ReasoningEffort::Low, ReasoningEffort::High, ReasoningEffort::XHigh],
    ));
    let v = &w.views[0];
    assert_eq!(v.title.as_deref(), Some("Advisor Reasoning · gpt-6-sol name"));
    assert!(v.view_id.is_none());
    assert!(v.model_ids.is_none());
    let names: Vec<&str> = v.items.iter().map(|i| i.name.as_str()).collect();
    assert_eq!(names, vec!["Low", "High", "Extra high"]);
    let current: Vec<bool> = v.items.iter().map(|i| i.is_current).collect();
    assert_eq!(current, vec![false, true, false]);
    assert!(v.items.iter().all(|i| i.dismiss_on_select && i.description.is_none()));
    match &v.items[2].action {
        AppEvent::PersistAdvisorSelection { model, effort } => {
            assert_eq!(model, "gpt-6-sol");
            assert_eq!(*effort, Some(ReasoningEffort::XHigh));
        }
        other => panic!("unexpected {other:?}"),
    }
}

#[test]
fn reasoning_popup_falls_back_to_default_effort() {
    let mut w = widget(true, Some("other"), Some(ReasoningEffort::Medium));
    w.open_advisor_reasoning_popup(preset("gpt-5.5", true, vec![]));
    let v = &w.views[0];
    assert_eq!(v.items.len(), 1);
    assert_eq!(v.items[0].name, "Medium");
    assert!(!v.items[0].is_current);
}

#[test]
fn effort_names_and_labels() {
    assert_eq!(ReasoningEffort::Off.name(), "none");
    assert_eq!(ReasoningEffort::XHigh.name(), "xhigh");
    assert_eq!(ReasoningEffort::Off.label(), "None");
    assert_eq!(ReasoningEffort::Minimal.label(), "Minimal");
    assert!(!is_pickable(&preset("codex-auto-fast", true, vec![])));
    assert!(is_pickable(&preset("codex-fast", true, vec![])));
}
