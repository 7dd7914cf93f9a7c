use crate::error::AppError;
use crate::text::{parse_number, parsed_number};
use vstd::prelude::*;
use vstd::string::StringExecFns;

verus! {

/// The words for a setting that is not there.
pub open spec fn unread() -> Seq<char> {
    "Can't read env variable from the file"@
}

/// The words for a setting that is not a number in range.
pub open spec fn unparsed() -> Seq<char> {
    "Can't not parse this variable"@
}

/// The value of the setting `name`, which the environment gave as `value`.
pub fn get_env(name: &'static str, value: Option<String>) -> (found: Result<String, AppError>)
    ensures
        match found {
            Ok(text) => value == Some(text),
            Err(error) => value is None && error.blames(name@, unread()),
        },
{
    match value {
        Some(text) => Ok(text),
        None => Err(
            AppError::Config { env: name, message: String::from_str("Can't read env variable from the file") },
        ),
    }
}

/// Where the server listens.
#[allow(non_snake_case)]
#[derive(Debug)]
pub struct ServerConfig {
    pub PORT: u16,
    pub HOST: String,
}

/// How access tokens are signed and how many seconds they hold.
#[allow(non_snake_case)]
#[derive(Debug)]
pub struct JWTConfig {
    pub SECRET: String,
    pub ACCESS_DURATION: u64,
}

/// All the settings of the server.
#[allow(non_snake_case)]
#[derive(Debug)]
pub struct Config {
    pub SERVER: ServerConfig,
    pub JWT: JWTConfig,
}

/// What reading the server's address comes to, given `SERVER_PORT` and `SERVER_HOST` as the
/// environment has them: the port must be there and be a number up to 65535, then the host
/// must be there; the first that fails is blamed.
pub open spec fn server_post(port: Option<String>, host: Option<String>, loaded: Result<ServerConfig, AppError>) -> bool {
    match port {
        None => loaded matches Err(error) && error.blames("SERVER_PORT"@, unread()),
        Some(digits) => match parsed_number(digits@, 65535) {
            None => loaded matches Err(error) && error.blames("SERVER_PORT"@, unparsed()),
            Some(number) => match host {
                None => loaded matches Err(error) && error.blames("SERVER_HOST"@, unread()),
                Some(name) => loaded matches Ok(config) && config.PORT == number && config.HOST@ == name@,
            },
        },
    }
}

/// What reading the token settings comes to, given `JWT_SECRET` and `JWT_ACCESS_DURATION`
/// as the environment has them: the secret must be there, then the duration must be there
/// and be a number of 64 bits; the first that fails is blamed.
pub open spec fn jwt_post(secret: Option<String>, access_duration: Option<String>, loaded: Result<JWTConfig, AppError>) -> bool {
    match secret {
        None => loaded matches Err(error) && error.blames("JWT_SECRET"@, unread()),
        Some(key) => match access_duration {
            None => loaded matches Err(error) && error.blames("JWT_ACCESS_DURATION"@, unread()),
            Some(digits) => match parsed_number(digits@, u64::MAX as nat) {
                None => loaded matches Err(error) && error.blames("JWT_ACCESS_DURATION"@, unparsed()),
                Some(number) => loaded matches Ok(config) && config.SECRET@ == key@ && config.ACCESS_DURATION
                    == number,
            },
        },
    }
}

impl ServerConfig {
    /// Reads the server's address out of the two settings.
    pub fn load(port: Option<String>, host: Option<String>) -> (loaded: Result<ServerConfig, AppError>)
        ensures
            server_post(port, host, loaded),
    {
        let digits = match get_env("SERVER_PORT", port) {
            Ok(digits) => digits,
            Err(error) => {
                return Err(error);
            },
        };
        let port: u16 = match parse_number(digits.as_str(), 65535) {
            Some(number) => number as u16,
            None => {
                return Err(
                    AppError::Config {
                        env: "SERVER_PORT",
                        message: String::from_str("Can't not parse this variable"),
                    },
                );
            },
        };
        let host = match get_env("SERVER_HOST", host) {
            Ok(host) => host,
            Err(error) => {
                return Err(error);
            },
        };
        Ok(ServerConfig { PORT: port, HOST: host })
    }
}

impl JWTConfig {
    /// Reads the token settings out of the two settings.
    pub fn load(secret: Option<String>, access_duration: Option<String>) -> (loaded: Result<JWTConfig, AppError>)
        ensures
            jwt_post(secret, access_duration, loaded),
    {
        let secret = match get_env("JWT_SECRET", secret) {
            Ok(secret) => secret,
            Err(error) => {
                return Err(error);
            },
        };
        let digits = match get_env("JWT_ACCESS_DURATION", access_duration) {
            Ok(digits) => digits,
            Err(error) => {
                return Err(error);
            },
        };
        let access_duration = match parse_number(digits.as_str(), u64::MAX) {
            Some(number) => number,
            None => {
                return Err(
                    AppError::Config {
                        env: "JWT_ACCESS_DURATION",
                        message: String::from_str("Can't not parse this variable"),
                    },
                );
            },
        };
        Ok(JWTConfig { SECRET: secret, ACCESS_DURATION: access_duration })
    }
}

impl Config {
    /// Reads all the settings, the server's address first: the first setting that fails is
    /// blamed.
    pub fn load(
        server_port: Option<String>,
        server_host: Option<String>,
        jwt_secret: Option<String>,
        jwt_access_duration: Option<String>,
    ) -> (loaded: Result<Config, AppError>)
        ensures
            match loaded {
                Ok(config) => server_post(server_port, server_host, Ok(config.SERVER)) && jwt_post(
                    jwt_secret,
                    jwt_access_duration,
                    Ok(config.JWT),
                ),
                Err(error) => server_post(server_port, server_host, Err(error)) || (exists|server: ServerConfig|
                    server_post(server_port, server_host, Ok(server)) && jwt_post(
                        jwt_secret,
                        jwt_access_duration,
                        Err(error),
                    )),
            },
    {
        let server = match ServerConfig::load(server_port, server_host) {
            Ok(server) => server,
            Err(error) => {
                return Err(error);
            },
        };
        let jwt = match JWTConfig::load(jwt_secret, jwt_access_duration) {
            Ok(jwt) => jwt,
            Err(error) => {
                return Err(error);
            },
        };
        Ok(Config { SERVER: server, JWT: jwt })
    }
}

} // verus!
