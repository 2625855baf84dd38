//! The delegation context: what a setup script's record carries so that the
//! monitor can start the deferred operation once the script has exited.
use crate::ids::{hyphenated, id_text};
use crate::text::{json_string, json_string_text, option_text};
use vstd::prelude::*;
use vstd::string::StringExecFns;

verus! {

/// The task, project and attempt that an orchestration call is about.
#[derive(Clone, Copy, Debug, PartialEq, Eq, Structural)]
pub struct Ids {
    pub attempt_id: u128,
    pub task_id: u128,
    pub project_id: u128,
}

/// What an operation is started with beyond the three identifiers: a JSON
/// value. The engine reads no more of it than its prompt, and hands the
/// whole value on in the delegation context. Whoever has the value hands in
/// both.
#[derive(Clone, Debug, PartialEq, Eq)]
pub struct OperationParams {
    /// The string under the key `prompt`, if the value is an object that
    /// has one.
    pub prompt: Option<String>,
    /// The whole value, as JSON text.
    pub json: String,
}

pub struct OperationParamsView {
    pub prompt: Option<Seq<char>>,
    pub json: Seq<char>,
}

impl View for OperationParams {
    type V = OperationParamsView;

    open spec fn view(&self) -> OperationParamsView {
        OperationParamsView { prompt: option_text(self.prompt), json: self.json@ }
    }
}

/// The view of optional operation parameters.
pub open spec fn params_view(p: Option<OperationParams>) -> Option<OperationParamsView> {
    match p {
        Some(q) => Some(q@),
        None => None,
    }
}

/// The operation to start after setup, the identifiers it is started with,
/// and its parameters.
#[derive(Clone, Debug, PartialEq, Eq)]
pub struct DelegationContext {
    pub delegate_to: String,
    pub ids: Ids,
    pub additional: Option<OperationParams>,
}

pub struct DelegationContextView {
    pub delegate_to: Seq<char>,
    pub ids: Ids,
    pub additional: Option<OperationParamsView>,
}

impl View for DelegationContext {
    type V = DelegationContextView;

    open spec fn view(&self) -> DelegationContextView {
        DelegationContextView {
            delegate_to: self.delegate_to@,
            ids: self.ids,
            additional: params_view(self.additional),
        }
    }
}

/// The JSON object that holds a prompt, given the prompt's JSON text.
pub open spec fn prompt_frame(prompt_json: Seq<char>) -> Seq<char> {
    "{\"prompt\":"@ + prompt_json + "}"@
}

/// The parameters of a follow-up: the object that holds its prompt.
pub open spec fn prompt_params(prompt: Seq<char>) -> OperationParamsView {
    OperationParamsView { prompt: Some(prompt), json: prompt_frame(json_string_text(prompt)) }
}

/// The JSON text of optional operation parameters: `null` for none, else
/// the text of the value.
pub open spec fn params_text(p: Option<OperationParamsView>) -> Seq<char> {
    match p {
        None => "null"@,
        Some(q) => q.json,
    }
}

/// The JSON object of a delegation context, given the JSON texts of the
/// operation and of the parameters, and the three identifiers as text. The
/// operation stands under `delegate_to`; under `operation_params` stand the
/// parameters (`additional`) and the identifiers. Keys stand in alphabetical
/// order, with no white space between tokens.
pub open spec fn context_frame(
    delegate_to_json: Seq<char>,
    additional_json: Seq<char>,
    attempt_id: Seq<char>,
    project_id: Seq<char>,
    task_id: Seq<char>,
) -> Seq<char> {
    "{\"delegate_to\":"@ + delegate_to_json + ",\"operation_params\":{\"additional\":"@
        + additional_json + ",\"attempt_id\":\""@ + attempt_id + "\",\"project_id\":\""@
        + project_id + "\",\"task_id\":\""@ + task_id + "\"}}"@
}

/// The JSON text of a delegation context: its frame around the JSON texts of
/// the operation and the parameters and the hyphenated identifiers.
pub open spec fn context_text(c: DelegationContextView) -> Seq<char> {
    context_frame(
        json_string_text(c.delegate_to),
        params_text(c.additional),
        hyphenated(c.ids.attempt_id),
        hyphenated(c.ids.project_id),
        hyphenated(c.ids.task_id),
    )
}

/// Frames a prompt's JSON text as the object that holds it.
pub fn frame_prompt(prompt_json: &str) -> (text: String)
    ensures
        text@ == prompt_frame(prompt_json@),
{
    let mut text = "{\"prompt\":".to_owned();
    text.append(prompt_json);
    text.append("}");
    text
}

impl OperationParams {
    /// The parameters of a follow-up: the object that holds its prompt.
    pub fn for_prompt(prompt: &str) -> (params: OperationParams)
        ensures
            params@ == prompt_params(prompt@),
    {
        OperationParams {
            prompt: Some(prompt.to_owned()),
            json: frame_prompt(json_string(prompt).as_str()),
        }
    }
}

/// Writes optional operation parameters as JSON.
pub fn write_params(p: &Option<OperationParams>) -> (text: String)
    ensures
        text@ == params_text(params_view(*p)),
{
    match p {
        None => "null".to_owned(),
        Some(q) => q.json.clone(),
    }
}

/// Frames the parts of a delegation context as its JSON object.
pub fn frame_context(
    delegate_to_json: &str,
    additional_json: &str,
    attempt_id: &str,
    project_id: &str,
    task_id: &str,
) -> (text: String)
    ensures
        text@ == context_frame(
            delegate_to_json@,
            additional_json@,
            attempt_id@,
            project_id@,
            task_id@,
        ),
{
    let mut text = "{\"delegate_to\":".to_owned();
    text.append(delegate_to_json);
    text.append(",\"operation_params\":{\"additional\":");
    text.append(additional_json);
    text.append(",\"attempt_id\":\"");
    text.append(attempt_id);
    text.append("\",\"project_id\":\"");
    text.append(project_id);
    text.append("\",\"task_id\":\"");
    text.append(task_id);
    text.append("\"}}");
    text
}

impl DelegationContext {
    /// Writes the context as JSON.
    pub fn to_json(&self) -> (text: String)
        ensures
            text@ == context_text(self@),
    {
        frame_context(
            json_string(self.delegate_to.as_str()).as_str(),
            write_params(&self.additional).as_str(),
            id_text(self.ids.attempt_id).as_str(),
            id_text(self.ids.project_id).as_str(),
            id_text(self.ids.task_id).as_str(),
        )
    }
}

} // verus!
