use crate::bot::error::AppError;
use crate::json::{json_string, quote};
use vstd::prelude::*;
use vstd::string::StringExecFns;

verus! {

/// Where prompts are sent.
pub const COMPLETIONS_URL: &'static str = "https://api.groq.com/openai/v1/chat/completions";

/// The body of the request that puts `prompt` to the language model, given the prompt
/// already quoted: one message of the user, and the model's name.
pub open spec fn body_text(prompt_json: Seq<char>) -> Seq<char> {
    "{\"messages\":[{\"content\":"@ + prompt_json + ",\"role\":\"user\"}],\"model\":\"llama3-8b-8192\"}"@
}

/// Puts a quoted prompt into the body of a request.
pub fn body_of(prompt_json: &str) -> (body: String)
    ensures
        body@ == body_text(prompt_json@),
{
    let mut body = String::from_str("{\"messages\":[{\"content\":");
    body.append(prompt_json);
    body.append(",\"role\":\"user\"}],\"model\":\"llama3-8b-8192\"}");
    body
}

/// The body of the request that puts `prompt` to the language model.
pub fn prompt_body(prompt: &str) -> (body: String)
    ensures
        body@ == body_text(json_string(prompt@)),
{
    let quoted = quote(prompt);
    body_of(quoted.as_str())
}

/// The `Authorization` header that goes with the request.
pub fn authorization(api_key: &str) -> (header: String)
    ensures
        header@ == "Bearer "@ + api_key@,
{
    let mut header = String::from_str("Bearer ");
    header.append(api_key);
    header
}

/// The answer of the language model: what its first choice says.
pub fn first_reply(choices: Vec<String>) -> (reply: Result<String, AppError>)
    ensures
        match reply {
            Ok(content) => choices@.len() > 0 && content@ == choices@[0]@,
            Err(error) => choices@.len() == 0 && (error matches AppError::Anyhow(detail) && detail@
                == "There isn't any choice in LLM response"@),
        },
{
    if choices.len() == 0 {
        Err(AppError::Anyhow(String::from_str("There isn't any choice in LLM response")))
    } else {
        Ok(choices[0].clone())
    }
}

} // verus!
