//! The `consult_advisor` tool that a worker model calls to consult the advisor.

use vstd::prelude::*;
use vstd::string::*;

use crate::consultation::{error_message, AdvisorError};

verus! {

/// The tool's name.
pub open spec fn tool_name_spec() -> Seq<char> {
    "consult_advisor"@
}

/// The tool's description for the worker model.
pub open spec fn tool_description() -> Seq<char> {
    "Ask the configured read-only advisor model for brief strategic guidance. Use when a difficult decision, repeated failure, or significant change would benefit from another perspective. Supply a concise summary of the objective, current approach, changes, failures, and question. The advisor cannot use tools or modify files."@
}

/// The description of the tool's `summary` argument.
pub open spec fn summary_description() -> Seq<char> {
    "Concise worker state and the question for the advisor"@
}

/// A string-valued parameter of a function tool.
#[derive(Debug)]
pub struct ToolParameter {
    pub name: String,
    pub description: Option<String>,
}

/// The description of a function tool as it is offered to a model: its
/// parameters form one object, of string-valued properties.
#[derive(Debug)]
pub struct ToolSpec {
    pub name: String,
    pub description: String,
    pub strict: bool,
    pub defer_loading: Option<bool>,
    pub parameters: Vec<ToolParameter>,
    pub required: Vec<String>,
    pub additional_properties: bool,
    pub has_output_schema: bool,
}

/// What a tool call carries.
#[derive(Debug)]
pub enum ToolPayload {
    /// A function call with its arguments as JSON text.
    Function { arguments: String },
    /// Any other kind of call.
    Other,
}

/// Why a tool call failed; the message is returned to the calling model.
#[derive(Debug)]
pub enum FunctionCallError {
    RespondToModel(String),
}

/// The text output of a function tool and whether the call succeeded.
#[derive(Debug)]
pub struct FunctionToolOutput {
    pub text: String,
    pub success: Option<bool>,
}

/// The handler of the `consult_advisor` tool.
#[derive(Debug)]
pub struct AdvisorHandler;

pub open spec fn missing_arguments_message() -> Seq<char> {
    "consult_advisor requires function arguments"@
}

pub open spec fn feedback_heading() -> Seq<char> {
    "Advisor feedback:\n"@
}

impl AdvisorHandler {
    /// The tool's name, "consult_advisor".
    pub fn tool_name(&self) -> (name: String)
        ensures
            name@ == tool_name_spec(),
    {
        String::from_str("consult_advisor")
    }

    /// The tool as it is offered to the worker model: one required string
    /// argument `summary`, no other properties, not strict, no output schema.
    pub fn spec(&self) -> (s: ToolSpec)
        ensures
            s.name@ == tool_name_spec(),
            s.description@ == tool_description(),
            !s.strict,
            s.defer_loading is None,
            s.parameters@.len() == 1,
            s.parameters@[0].name@ == "summary"@,
            s.parameters@[0].description matches Some(d) && d@ == summary_description(),
            s.required@.len() == 1,
            s.required@[0]@ == "summary"@,
            !s.additional_properties,
            !s.has_output_schema,
    {
        let mut parameters: Vec<ToolParameter> = Vec::new();
        parameters.push(
            ToolParameter {
                name: String::from_str("summary"),
                description: Some(
                    String::from_str("Concise worker state and the question for the advisor"),
                ),
            },
        );
        let mut required: Vec<String> = Vec::new();
        required.push(String::from_str("summary"));
        ToolSpec {
            name: String::from_str("consult_advisor"),
            description: String::from_str("Ask the configured read-only advisor model for brief strategic guidance. Use when a difficult decision, repeated failure, or significant change would benefit from another perspective. Supply a concise summary of the objective, current approach, changes, failures, and question. The advisor cannot use tools or modify files."),
            strict: false,
            defer_loading: None,
            parameters,
            required,
            additional_properties: false,
            has_output_schema: false,
        }
    }

    /// The arguments of a call, which must be a function call.
    pub fn function_arguments(&self, payload: &ToolPayload) -> (r: Result<String, FunctionCallError>)
        ensures
            payload matches ToolPayload::Function { arguments } ==> (r matches Ok(a) && a@
                == arguments@),
            payload is Other ==> (r matches Err(FunctionCallError::RespondToModel(m)) && m@
                == missing_arguments_message()),
    {
        match payload {
            ToolPayload::Function { arguments } => Ok(arguments.clone()),
            ToolPayload::Other => Err(
                FunctionCallError::RespondToModel(
                    String::from_str("consult_advisor requires function arguments"),
                ),
            ),
        }
    }

    /// The tool's answer to a consultation's outcome: the feedback under a
    /// heading, as a success; or the error's message, returned to the model.
    pub fn respond(&self, outcome: Result<String, AdvisorError>) -> (r: Result<
        FunctionToolOutput,
        FunctionCallError,
    >)
        ensures
            outcome matches Ok(f) ==> (r matches Ok(out) && out.text@ == feedback_heading() + f@
                && out.success == Some(true)),
            outcome matches Err(e) ==> (r matches Err(FunctionCallError::RespondToModel(m)) && m@
                == error_message(e)),
    {
        match outcome {
            Ok(feedback) => Ok(
                FunctionToolOutput {
                    text: String::from_str("Advisor feedback:\n").concat(feedback.as_str()),
                    success: Some(true),
                },
            ),
            Err(e) => Err(FunctionCallError::RespondToModel(e.message())),
        }
    }
}

} // verus!
