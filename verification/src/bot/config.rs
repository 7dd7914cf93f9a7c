use crate::bot::error::AppError;
use vstd::prelude::*;
use vstd::string::StringExecFns;

verus! {

/// The words for the setting `name` that is not there.
pub open spec fn unread(name: Seq<char>) -> Seq<char> {
    "Can't read env variable "@ + name
}

/// The value of the setting `name`, which the environment gave as `value`.
pub fn get_env(name: &'static str, value: Option<String>) -> (found: Result<String, AppError>)
    ensures
        match found {
            Ok(text) => value == Some(text),
            Err(error) => value is None && (error matches AppError::Config(detail) && detail@ == unread(name@)),
        },
{
    match value {
        Some(text) => Ok(text),
        None => {
            let mut detail = String::from_str("Can't read env variable ");
            detail.append(name);
            Err(AppError::Config(detail))
        },
    }
}

/// The key for the OpenAI service.
#[allow(non_snake_case)]
#[derive(Debug)]
pub struct OpenaiConfig {
    pub API_KEY: String,
}

/// The key for the Groq service.
#[allow(non_snake_case)]
#[derive(Debug)]
pub struct GroqConfig {
    pub API_KEY: String,
}

/// The token of the Telegram bot.
#[allow(non_snake_case)]
#[derive(Debug)]
pub struct TelegramConfig {
    pub TOKEN: String,
}

/// All the settings of the bot.
#[allow(non_snake_case)]
#[derive(Debug)]
pub struct Config {
    pub OPENAI: OpenaiConfig,
    pub GROQ: GroqConfig,
    pub TELEGRAM: TelegramConfig,
}

/// `error` says that the setting `name` is not there.
pub open spec fn missing(error: AppError, name: Seq<char>) -> bool {
    error matches AppError::Config(detail) && detail@ == unread(name)
}

impl OpenaiConfig {
    /// Reads the key out of `OPENAI_API_KEY` as the environment has it.
    pub fn load(api_key: Option<String>) -> (loaded: Result<OpenaiConfig, AppError>)
        ensures
            match loaded {
                Ok(config) => api_key matches Some(key) && config.API_KEY@ == key@,
                Err(error) => api_key is None && missing(error, "OPENAI_API_KEY"@),
            },
    {
        match get_env("OPENAI_API_KEY", api_key) {
            Ok(key) => Ok(OpenaiConfig { API_KEY: key }),
            Err(error) => Err(error),
        }
    }
}

impl GroqConfig {
    /// Reads the key out of `GROQ_API_KEY` as the environment has it.
    pub fn load(api_key: Option<String>) -> (loaded: Result<GroqConfig, AppError>)
        ensures
            match loaded {
                Ok(config) => api_key matches Some(key) && config.API_KEY@ == key@,
                Err(error) => api_key is None && missing(error, "GROQ_API_KEY"@),
            },
    {
        match get_env("GROQ_API_KEY", api_key) {
            Ok(key) => Ok(GroqConfig { API_KEY: key }),
            Err(error) => Err(error),
        }
    }
}

impl TelegramConfig {
    /// Reads the token out of `TELEGRAM_TOKEN` as the environment has it.
    pub fn load(token: Option<String>) -> (loaded: Result<TelegramConfig, AppError>)
        ensures
            match loaded {
                Ok(config) => token matches Some(key) && config.TOKEN@ == key@,
                Err(error) => token is None && missing(error, "TELEGRAM_TOKEN"@),
            },
    {
        match get_env("TELEGRAM_TOKEN", token) {
            Ok(token) => Ok(TelegramConfig { TOKEN: token }),
            Err(error) => Err(error),
        }
    }
}

impl Config {
    /// Reads the three settings, in the order OpenAI, Groq, Telegram: the first that is not
    /// there is blamed.
    pub fn load(openai_api_key: Option<String>, groq_api_key: Option<String>, telegram_token: Option<String>) -> (loaded:
        Result<Config, AppError>)
        ensures
            match loaded {
                Ok(config) => {
                    &&& openai_api_key matches Some(key) && config.OPENAI.API_KEY@ == key@
                    &&& groq_api_key matches Some(key) && config.GROQ.API_KEY@ == key@
                    &&& telegram_token matches Some(key) && config.TELEGRAM.TOKEN@ == key@
                },
                Err(error) => {
                    ||| openai_api_key is None && missing(error, "OPENAI_API_KEY"@)
                    ||| openai_api_key is Some && groq_api_key is None && missing(error, "GROQ_API_KEY"@)
                    ||| openai_api_key is Some && groq_api_key is Some && telegram_token is None && missing(
                        error,
                        "TELEGRAM_TOKEN"@,
                    )
                },
            },
    {
        let openai = match OpenaiConfig::load(openai_api_key) {
            Ok(openai) => openai,
            Err(error) => {
                return Err(error);
            },
        };
        let groq = match GroqConfig::load(groq_api_key) {
            Ok(groq) => groq,
            Err(error) => {
                return Err(error);
            },
        };
        let telegram = match TelegramConfig::load(telegram_token) {
            Ok(telegram) => telegram,
            Err(error) => {
                return Err(error);
            },
        };
        Ok(Config { OPENAI: openai, GROQ: groq, TELEGRAM: telegram })
    }
}

} // verus!
