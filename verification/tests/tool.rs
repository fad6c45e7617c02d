use codex_advisor::consultation::AdvisorError;
use codex_advisor::tool::{AdvisorHandler, FunctionCallError, ToolPayload};

#[test]
fn tool_is_named_and_described() {
    let h = AdvisorHandler;
    assert_eq!(h.tool_name(), "consult_advisor");
    let spec = h.spec();
    assert_eq!(spec.name, "consult_advisor");
    assert!(spec.description.contains("The advisor cannot use tools or modify files."));
    assert!(!spec.strict);
    assert!(spec.defer_loading.is_none());
    assert_eq!(spec.parameters.len(), 1);
    assert_eq!(spec.parameters[0].name, "summary");
    assert_eq!(
        spec.parameters[0].description.as_deref(),
        Some("Concise worker state and the question for the advisor")
    );
    assert_eq!(spec.required, vec!["summary".to_string()]);
    assert!(!spec.additional_properties);
    assert!(!spec.has_output_schema);
}

#[test]
fn tool_requires_function_arguments() {
    let h = AdvisorHandler;
    let args = h.function_arguments(&ToolPayload::Function {
        arguments: "{\"summary\":\"x\"}".to_string(),
    });
    assert_eq!(args.unwrap(), "{\"summary\":\"x\"}");
    match h.function_arguments(&ToolPayload::Other) {
        Err(FunctionCallError::RespondToModel(m)) => {
            assert_eq!(m, "consult_advisor requires function arguments")
        }
        other => panic!("unexpected {other:?}"),
    }
}

#[test]
fn tool_reports_errors_to_the_model() {
    let h = AdvisorHandler;
    let r = h.respond(Err(AdvisorError::InvalidRequest("advisor.model must be configured".to_string())));
    match r {
        Err(FunctionCallError::RespondToModel(m)) => assert_eq!(m, "advisor.model must be configured"),
        other => panic!("unexpected {other:?}"),
    }
    let r = h.respond(Err(AdvisorError::Stream("advisor returned no feedback".to_string())));
    match r {
        Err(FunctionCallError::RespondToModel(m)) => {
            assert_eq!(m, "stream disconnected before completion: advisor returned no feedback")
        }
        other => panic!("unexpected {other:?}"),
    }
}
