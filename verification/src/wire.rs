//! What goes over the wire to the generation service: where the requests
//! go, and what a generation request carries.

use vstd::prelude::*;

verus! {

/// The model that answers.
pub open spec fn model_id() -> Seq<char> {
    "gpt-5-pro"@
}

/// The instructions that every generation request carries.
pub open spec fn system_instructions() -> Seq<char> {
    "You are Oracle, a meticulous, senior-level coding assistant. Always think step-by-step and consider edge cases before answering. When relevant, suggest concrete code changes and explain why."@
}

/// The reasoning effort that every generation request asks for.
pub open spec fn reasoning_effort() -> Seq<char> {
    "high"@
}

/// The address that generation requests are posted to.
pub open spec fn responses_address() -> Seq<char> {
    "https://api.openai.com/v1/responses"@
}

/// One generation request.
#[derive(Debug)]
pub struct SubmitRequest {
    pub model: String,
    pub input: String,
    pub instructions: String,
    pub reasoning_effort: String,
    pub max_output_tokens: u32,
}

/// The generation request for `prompt` with the output budget
/// `output_budget`: the fixed model, instructions and reasoning effort,
/// the prompt as its input, and the budget as its cap on the output.
pub fn submit_request(prompt: &str, output_budget: u32) -> (r: SubmitRequest)
    ensures
        r.model@ == model_id(),
        r.input@ == prompt@,
        r.instructions@ == system_instructions(),
        r.reasoning_effort@ == reasoning_effort(),
        r.max_output_tokens == output_budget,
{
    SubmitRequest {
        model: "gpt-5-pro".to_owned(),
        input: prompt.to_owned(),
        instructions: "You are Oracle, a meticulous, senior-level coding assistant. Always think step-by-step and consider edge cases before answering. When relevant, suggest concrete code changes and explain why.".to_owned(),
        reasoning_effort: "high".to_owned(),
        max_output_tokens: output_budget,
    }
}

/// The address that generation requests are posted to.
pub fn responses_url() -> (r: String)
    ensures
        r@ == responses_address(),
{
    "https://api.openai.com/v1/responses".to_owned()
}

/// The address at which the job `job_id` is fetched.
pub fn poll_url(job_id: &str) -> (r: String)
    ensures
        r@ == responses_address() + "/"@ + job_id@,
{
    let mut url = "https://api.openai.com/v1/responses".to_owned();
    url.append("/");
    url.append(job_id);
    url
}

} // verus!
