use vstd::prelude::*;
use vstd::string::StringExecFns;

verus! {

/// Why the server could not start or had to stop.
#[derive(Debug)]
pub enum AppError {
    /// A setting of the environment is missing or wrong.
    Config { env: &'static str, message: String },
    Internal(String),
}

/// What the `Debug` of a string writes: the text between double quotes, with Rust's
/// escapes.
pub uninterp spec fn debug_string(text: Seq<char>) -> Seq<char>;

/// Formats a string slice with `{:?}`, that is with the `Debug` of `str`.
#[verifier::external_body]
pub(crate) fn debug_quoted(text: &str) -> (quoted: String)
    ensures
        quoted@ == debug_string(text@),
{
    format!("{:?}", text)
}

impl AppError {
    /// This error blames the setting `env` in the words `message`.
    pub open spec fn blames(self, env: Seq<char>, message: Seq<char>) -> bool {
        self matches AppError::Config { env: named, message: said } && named@ == env && said@ == message
    }

    /// The sentence that tells this error.
    pub open spec fn sentence(self) -> Seq<char> {
        match self {
            AppError::Config { env, message } => "Problem with "@ + debug_string(env@)
                + " env variable. Additional info "@ + debug_string(message@),
            AppError::Internal(detail) => "Internal error: "@ + detail@,
        }
    }

    /// The sentence that tells this error.
    pub fn message(&self) -> (text: String)
        ensures
            text@ == self.sentence(),
    {
        match self {
            AppError::Config { env, message } => {
                let mut text = String::from_str("Problem with ");
                text.append(debug_quoted(env).as_str());
                text.append(" env variable. Additional info ");
                text.append(debug_quoted(message.as_str()).as_str());
                text
            },
            AppError::Internal(detail) => {
                let mut text = String::from_str("Internal error: ");
                text.append(detail.as_str());
                text
            },
        }
    }
}

} // verus!
