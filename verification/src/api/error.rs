use crate::api::user::Role;
use crate::json::{json_string, quote};
use crate::text::{decimal, write_number};
use vstd::prelude::*;
use vstd::string::StringExecFns;

verus! {

/// The kinds of records that the repository keeps.
#[derive(Debug, Clone, Copy, PartialEq, Eq, Structural)]
pub enum Entity {
    User,
}

impl Entity {
    /// The kind's name as it is written into messages.
    pub open spec fn label(self) -> Seq<char> {
        match self {
            Entity::User => "User"@,
        }
    }

    /// The kind's name as it is written into messages.
    pub fn as_ref(&self) -> (name: &'static str)
        ensures
            name@ == self.label(),
    {
        match self {
            Entity::User => "User",
        }
    }
}

/// What the repository can fail with.
#[derive(Debug)]
pub enum RepoError {
    /// No record of this kind matches.
    NotFound(Entity),
    /// A record of this kind already holds that value in the named field.
    AlreadyExist(Entity, String),
    /// The named field of a record of this kind lacks something.
    Missing(Entity, String),
    Internal,
}

impl RepoError {
    /// The sentence that tells this error.
    pub open spec fn sentence(self) -> Seq<char> {
        match self {
            RepoError::NotFound(entity) => "Entity "@ + entity.label() + " not found"@,
            RepoError::AlreadyExist(entity, field) => "Entity "@ + entity.label() + " with field: "@
                + field@ + " already exist"@,
            RepoError::Missing(entity, field) => "Entity "@ + entity.label()
                + " is missing smth in field: "@ + field@ + " "@,
            RepoError::Internal => "Something went wrong"@,
        }
    }

    /// The HTTP status that answers this error.
    pub open spec fn code(self) -> u16 {
        match self {
            RepoError::NotFound(_) => 404,
            RepoError::AlreadyExist(_, _) => 409,
            RepoError::Missing(_, _) => 422,
            RepoError::Internal => 500,
        }
    }

    /// The sentence that tells this error.
    pub fn message(&self) -> (text: String)
        ensures
            text@ == self.sentence(),
    {
        match self {
            RepoError::NotFound(entity) => {
                let mut text = String::from_str("Entity ");
                text.append(entity.as_ref());
                text.append(" not found");
                text
            },
            RepoError::AlreadyExist(entity, field) => {
                let mut text = String::from_str("Entity ");
                text.append(entity.as_ref());
                text.append(" with field: ");
                text.append(field.as_str());
                text.append(" already exist");
                text
            },
            RepoError::Missing(entity, field) => {
                let mut text = String::from_str("Entity ");
                text.append(entity.as_ref());
                text.append(" is missing smth in field: ");
                text.append(field.as_str());
                text.append(" ");
                text
            },
            RepoError::Internal => String::from_str("Something went wrong"),
        }
    }

    /// The HTTP status that answers this error.
    pub fn status(&self) -> (code: u16)
        ensures
            code == self.code(),
    {
        match self {
            RepoError::NotFound(_) => 404,
            RepoError::AlreadyExist(_, _) => 409,
            RepoError::Missing(_, _) => 422,
            RepoError::Internal => 500,
        }
    }
}

/// How the check of a token went wrong, as far as the answer depends on it.
#[derive(Debug, Clone, Copy, PartialEq, Eq, Structural)]
pub enum TokenFault {
    /// The text has not the shape of a token.
    InvalidToken,
    /// The signature does not fit.
    InvalidSignature,
    /// The token is out of date.
    ExpiredSignature,
    /// Anything else.
    Other,
}

/// A failed check of a token: what went wrong, and the words of the token library on it.
#[derive(Debug)]
pub struct TokenError {
    pub fault: TokenFault,
    pub detail: String,
}

/// The roles of `roles` by name, between square brackets, with a comma and a blank
/// between neighbours.
pub open spec fn roles_text(roles: Seq<Role>) -> Seq<char> {
    "["@ + role_names(roles) + "]"@
}

/// The names of `roles`, with a comma and a blank between neighbours.
pub open spec fn role_names(roles: Seq<Role>) -> Seq<char>
    decreases roles.len(),
{
    if roles.len() == 0 {
        Seq::empty()
    } else if roles.len() == 1 {
        roles[0].label()
    } else {
        role_names(roles.drop_last()) + ", "@ + roles.last().label()
    }
}

/// Writes `roles` by name between square brackets.
pub fn write_roles(roles: &Vec<Role>) -> (text: String)
    ensures
        text@ == roles_text(roles@),
{
    let mut text = String::from_str("[");
    let mut at: usize = 0;
    while at < roles.len()
        invariant
            at <= roles.len(),
            text@ == "["@ + role_names(roles@.take(at as int)),
        decreases roles.len() - at,
    {
        proof {
            assert(roles@.take(at as int + 1).drop_last() =~= roles@.take(at as int));
        }
        if at > 0 {
            text.append(", ");
        }
        text.append(roles[at].as_ref());
        at = at + 1;
    }
    proof {
        assert(roles@.take(at as int) =~= roles@);
    }
    text.append("]");
    text
}

/// Why a caller is not let through.
#[derive(Debug)]
pub enum AuthError {
    /// The password, whose digest is carried, is not the account's.
    PasswordWrong(String),
    /// The account has none of the roles that are asked for.
    InappropriateRole { user_roles: Vec<Role>, needed_roles: Vec<Role> },
    /// The request carries no bearer token.
    MissingToken,
    /// The token did not pass its check.
    JWThandling(TokenError),
}

impl AuthError {
    /// The sentence that tells this error.
    pub open spec fn sentence(self) -> Seq<char> {
        match self {
            AuthError::PasswordWrong(digest) => "Password "@ + digest@ + " wrong to this user"@,
            AuthError::InappropriateRole { user_roles, needed_roles } =>
                "This part only accessible for this roles: "@ + roles_text(needed_roles@)
                + ", but you have: "@ + roles_text(user_roles@),
            AuthError::MissingToken =>
                "There isn't token in the header. Try to add Authorization: Bearer xxx"@,
            AuthError::JWThandling(failure) => failure.detail@,
        }
    }

    /// The HTTP status that answers this error.
    pub open spec fn code(self) -> u16 {
        match self {
            AuthError::PasswordWrong(_) => 401,
            AuthError::InappropriateRole { .. } => 403,
            AuthError::MissingToken => 401,
            AuthError::JWThandling(failure) => match failure.fault {
                TokenFault::InvalidToken | TokenFault::InvalidSignature | TokenFault::ExpiredSignature => 401,
                TokenFault::Other => 500,
            },
        }
    }

    /// The sentence that tells this error.
    pub fn message(&self) -> (text: String)
        ensures
            text@ == self.sentence(),
    {
        match self {
            AuthError::PasswordWrong(digest) => {
                let mut text = String::from_str("Password ");
                text.append(digest.as_str());
                text.append(" wrong to this user");
                text
            },
            AuthError::InappropriateRole { user_roles, needed_roles } => {
                let mut text = String::from_str("This part only accessible for this roles: ");
                let needed = write_roles(needed_roles);
                text.append(needed.as_str());
                text.append(", but you have: ");
                let had = write_roles(user_roles);
                text.append(had.as_str());
                text
            },
            AuthError::MissingToken => String::from_str(
                "There isn't token in the header. Try to add Authorization: Bearer xxx",
            ),
            AuthError::JWThandling(failure) => failure.detail.clone(),
        }
    }

    /// The HTTP status that answers this error.
    pub fn status(&self) -> (code: u16)
        ensures
            code == self.code(),
    {
        match self {
            AuthError::PasswordWrong(_) => 401,
            AuthError::InappropriateRole { .. } => 403,
            AuthError::MissingToken => 401,
            AuthError::JWThandling(failure) => match failure.fault {
                TokenFault::InvalidToken => 401,
                TokenFault::InvalidSignature => 401,
                TokenFault::ExpiredSignature => 401,
                TokenFault::Other => 500,
            },
        }
    }
}

/// A field of a request that broke its rule, with the words that say so.
#[derive(Debug)]
pub struct FieldError {
    pub field: String,
    pub message: String,
}

/// Why the body of a request could not be taken as JSON.
#[derive(Debug)]
pub enum ParseError {
    /// The content type, which is carried, is not a JSON one.
    InvalidContentType(String),
    /// The request names no content type.
    ContentTypeRequired,
    /// The body is not the JSON that is asked for; the parser's words are carried.
    Parse(String),
}

impl ParseError {
    /// The sentence that tells this error.
    pub open spec fn sentence(self) -> Seq<char> {
        match self {
            ParseError::InvalidContentType(given) => "invalid content type `"@ + given@
                + "`, expect: `application/json`"@,
            ParseError::ContentTypeRequired => "expect content type `application/json`"@,
            ParseError::Parse(detail) => "parse error: "@ + detail@,
        }
    }

    /// The HTTP status that answers this error.
    pub open spec fn code(self) -> u16 {
        match self {
            ParseError::InvalidContentType(_) => 415,
            ParseError::ContentTypeRequired => 415,
            ParseError::Parse(_) => 400,
        }
    }

    /// The sentence that tells this error.
    pub fn message(&self) -> (text: String)
        ensures
            text@ == self.sentence(),
    {
        match self {
            ParseError::InvalidContentType(given) => {
                let mut text = String::from_str("invalid content type `");
                text.append(given.as_str());
                text.append("`, expect: `application/json`");
                text
            },
            ParseError::ContentTypeRequired => String::from_str("expect content type `application/json`"),
            ParseError::Parse(detail) => {
                let mut text = String::from_str("parse error: ");
                text.append(detail.as_str());
                text
            },
        }
    }

    /// The HTTP status that answers this error.
    pub fn status(&self) -> (code: u16)
        ensures
            code == self.code(),
    {
        match self {
            ParseError::InvalidContentType(_) => 415,
            ParseError::ContentTypeRequired => 415,
            ParseError::Parse(_) => 400,
        }
    }
}

/// One line for each broken field: its name, a colon and a blank, and the words on it;
/// a line break between neighbours.
pub open spec fn fields_text(errors: Seq<FieldError>) -> Seq<char>
    decreases errors.len(),
{
    if errors.len() == 0 {
        Seq::empty()
    } else if errors.len() == 1 {
        errors[0].field@ + ": "@ + errors[0].message@
    } else {
        fields_text(errors.drop_last()) + "\n"@ + errors.last().field@ + ": "@ + errors.last().message@
    }
}

/// Writes one line for each broken field.
pub fn write_fields(errors: &Vec<FieldError>) -> (text: String)
    ensures
        text@ == fields_text(errors@),
{
    let mut text = String::new();
    let mut at: usize = 0;
    while at < errors.len()
        invariant
            at <= errors.len(),
            text@ == fields_text(errors@.take(at as int)),
        decreases errors.len() - at,
    {
        proof {
            assert(errors@.take(at as int + 1).drop_last() =~= errors@.take(at as int));
        }
        if at > 0 {
            text.append("\n");
        }
        text.append(errors[at].field.as_str());
        text.append(": ");
        text.append(errors[at].message.as_str());
        proof {
            if at == 0 {
                assert(text@ =~= errors@[0].field@ + ": "@ + errors@[0].message@);
            } else {
                assert(text@ =~= fields_text(errors@.take(at as int)) + "\n"@ + errors@[at as int].field@
                    + ": "@ + errors@[at as int].message@);
            }
        }
        at = at + 1;
    }
    proof {
        assert(errors@.take(at as int) =~= errors@);
    }
    text
}

/// The reason phrase that the `http` crate knows for the status `code`, where it knows one.
pub uninterp spec fn canonical_reason(code: u16) -> Option<Seq<char>>;

/// Makes an `http::StatusCode` of `code` with `StatusCode::from_u16`, which takes the
/// numbers from 100 to 999, and asks it for `canonical_reason`.
#[verifier::external_body]
pub(crate) fn reason(code: u16) -> (phrase: Option<String>)
    ensures
        match phrase {
            Some(text) => canonical_reason(code) == Some(text@),
            None => canonical_reason(code) is None,
        },
{
    let status = poem::http::StatusCode::from_u16(code).ok()?;
    Some(status.canonical_reason()?.to_string())
}

/// Every way in which a request can fail.
#[derive(Debug)]
pub enum ApiError {
    Authentication(AuthError),
    Repository(RepoError),
    /// The request's body broke the rules on these fields.
    Validation(Vec<FieldError>),
    Parsing(ParseError),
    Internal,
}

/// The answer to a failed request: the status, and the JSON body that goes with it.
#[derive(Debug)]
pub struct ErrorReply {
    pub status: u16,
    pub body: String,
}

/// The body of the answer to a failed request, given its four texts.
pub open spec fn reply_body(
    status_code: Seq<char>,
    status_code_message: Seq<char>,
    message: Seq<char>,
    error_name: Seq<char>,
) -> Seq<char> {
    "{\"status_code\":"@ + json_string(status_code) + ",\"status_code_message\":"@ + json_string(
        status_code_message,
    ) + ",\"message\":"@ + json_string(message) + ",\"error_name\":"@ + json_string(error_name) + "}"@
}

/// The reason phrase for `code`, or the word for a status without one.
pub open spec fn reason_or_unknown(found: Option<Seq<char>>) -> Seq<char> {
    match found {
        Some(phrase) => phrase,
        None => "Unknown"@,
    }
}

impl ApiError {
    /// The sentence that tells this error.
    pub open spec fn sentence(self) -> Seq<char> {
        match self {
            ApiError::Authentication(error) => error.sentence(),
            ApiError::Repository(error) => error.sentence(),
            ApiError::Validation(errors) => fields_text(errors@),
            ApiError::Parsing(error) => error.sentence(),
            ApiError::Internal => "Something went wrong"@,
        }
    }

    /// The HTTP status that answers this error.
    pub open spec fn code(self) -> u16 {
        match self {
            ApiError::Authentication(error) => error.code(),
            ApiError::Repository(error) => error.code(),
            ApiError::Validation(_) => 409,
            ApiError::Parsing(error) => error.code(),
            ApiError::Internal => 500,
        }
    }

    /// The name of the kind of error.
    pub open spec fn label(self) -> Seq<char> {
        match self {
            ApiError::Authentication(_) => "Authentication"@,
            ApiError::Repository(_) => "Repository"@,
            ApiError::Validation(_) => "Validation"@,
            ApiError::Parsing(_) => "Parsing"@,
            ApiError::Internal => "Internal"@,
        }
    }

    /// The sentence that tells this error.
    pub fn message(&self) -> (text: String)
        ensures
            text@ == self.sentence(),
    {
        match self {
            ApiError::Authentication(error) => error.message(),
            ApiError::Repository(error) => error.message(),
            ApiError::Validation(errors) => write_fields(errors),
            ApiError::Parsing(error) => error.message(),
            ApiError::Internal => String::from_str("Something went wrong"),
        }
    }

    /// The HTTP status that answers this error.
    pub fn status(&self) -> (code: u16)
        ensures
            code == self.code(),
    {
        match self {
            ApiError::Authentication(error) => error.status(),
            ApiError::Repository(error) => error.status(),
            ApiError::Validation(_) => 409,
            ApiError::Parsing(error) => error.status(),
            ApiError::Internal => 500,
        }
    }

    /// The name of the kind of error.
    pub fn as_ref(&self) -> (name: &'static str)
        ensures
            name@ == self.label(),
    {
        match self {
            ApiError::Authentication(_) => "Authentication",
            ApiError::Repository(_) => "Repository",
            ApiError::Validation(_) => "Validation",
            ApiError::Parsing(_) => "Parsing",
            ApiError::Internal => "Internal",
        }
    }

    /// Puts the four texts of an answer into its JSON body.
    pub fn write_body(status_code: &str, status_code_message: &str, message: &str, error_name: &str) -> (body:
        String)
        ensures
            body@ == reply_body(status_code@, status_code_message@, message@, error_name@),
    {
        let mut body = String::from_str("{\"status_code\":");
        body.append(quote(status_code).as_str());
        body.append(",\"status_code_message\":");
        body.append(quote(status_code_message).as_str());
        body.append(",\"message\":");
        body.append(quote(message).as_str());
        body.append(",\"error_name\":");
        body.append(quote(error_name).as_str());
        body.append("}");
        body
    }

    /// The answer to the request that failed with this error: the status, and a JSON body
    /// with the status in digits, its reason phrase, the sentence, and the name of the
    /// kind of error followed by `Error`.
    pub fn as_response(&self) -> (reply: ErrorReply)
        ensures
            reply.status == self.code(),
            reply.body@ == reply_body(
                decimal(self.code() as nat),
                reason_or_unknown(canonical_reason(self.code())),
                self.sentence(),
                self.label() + "Error"@,
            ),
    {
        let code = self.status();
        let digits = write_number(code as u64);
        let phrase = match reason(code) {
            Some(phrase) => phrase,
            None => String::from_str("Unknown"),
        };
        let message = self.message();
        let mut error_name = String::from_str(self.as_ref());
        error_name.append("Error");
        let body = ApiError::write_body(digits.as_str(), phrase.as_str(), message.as_str(), error_name.as_str());
        ErrorReply { status: code, body }
    }
}

} // verus!
