use vstd::prelude::*;
use vstd::string::StringExecFns;

verus! {

/// Why the bot could not start or could not answer.
#[derive(Debug)]
pub enum AppError {
    /// A setting of the environment is missing; the words say which.
    Config(String),
    /// The request to the language model failed; the words of the HTTP client are carried.
    Reqwest(String),
    /// Something else failed; its words are carried.
    Anyhow(String),
    /// The chat platform handed over something unusable.
    Bot(String),
}

impl AppError {
    /// The sentence that tells this error.
    pub open spec fn sentence(self) -> Seq<char> {
        match self {
            AppError::Config(detail) => "Something went wrong with configuration. Details: "@ + detail@,
            AppError::Reqwest(detail) => detail@,
            AppError::Anyhow(detail) => detail@,
            AppError::Bot(detail) => "Something went wrong with the bot. Details: "@ + detail@,
        }
    }

    /// The sentence that tells this error.
    pub fn message(&self) -> (text: String)
        ensures
            text@ == self.sentence(),
    {
        match self {
            AppError::Config(detail) => {
                let mut text = String::from_str("Something went wrong with configuration. Details: ");
                text.append(detail.as_str());
                text
            },
            AppError::Reqwest(detail) => detail.clone(),
            AppError::Anyhow(detail) => detail.clone(),
            AppError::Bot(detail) => {
                let mut text = String::from_str("Something went wrong with the bot. Details: ");
                text.append(detail.as_str());
                text
            },
        }
    }
}

} // verus!
