use crate::api::error::{ApiError, FieldError, ParseError};
use crate::api::user::{CreateUserDto, LoginUserDto, Role, UpdateUserDto};
use validator::ValidateLength;
use vstd::prelude::*;
use vstd::string::StringExecFns;

verus! {

/// The parts of a media type that the service looks at, in lower case.
#[derive(Debug)]
pub struct MediaType {
    pub kind: String,
    pub subtype: String,
    pub suffix: Option<String>,
}

/// A media type as its contracts see it.
pub struct MediaTypeView {
    pub kind: Seq<char>,
    pub subtype: Seq<char>,
    pub suffix: Option<Seq<char>>,
}

impl View for MediaType {
    type V = MediaTypeView;

    open spec fn view(&self) -> MediaTypeView {
        MediaTypeView {
            kind: self.kind@,
            subtype: self.subtype@,
            suffix: match self.suffix {
                Some(suffix) => Some(suffix@),
                None => None,
            },
        }
    }
}

/// What the `mime` crate reads out of `content_type`: the type, the subtype and the suffix
/// behind a plus sign, all in lower case; `None` where it does not take the text for a
/// media type.
pub uninterp spec fn media_type(content_type: Seq<char>) -> Option<MediaTypeView>;

/// Parses `content_type` with the `FromStr` of `mime::Mime` and copies out what `type_`,
/// `subtype` and `suffix` give.
#[verifier::external_body]
pub(crate) fn parse_media_type(content_type: &str) -> (parsed: Option<MediaType>)
    ensures
        match parsed {
            Some(media) => media_type(content_type@) == Some(media@),
            None => media_type(content_type@) is None,
        },
{
    let mime = content_type.parse::<mime::Mime>().ok()?;
    Some(
        MediaType {
            kind: mime.type_().as_str().to_string(),
            subtype: mime.subtype().as_str().to_string(),
            suffix: mime.suffix().map(|name| name.as_str().to_string()),
        },
    )
}

/// A media type stands for JSON: an `application` type whose subtype or suffix is `json`.
pub open spec fn is_json(media: Option<MediaTypeView>) -> bool {
    media matches Some(media) && media.kind == "application"@ && (media.subtype == "json"@ || media.suffix
        == Some("json"@))
}

/// Whether a media type stands for JSON.
pub fn is_json_media_type(media: &Option<MediaType>) -> (json: bool)
    ensures
        json == is_json(
            match *media {
                Some(media) => Some(media@),
                None => None,
            },
        ),
{
    match media {
        None => false,
        Some(media) => {
            let application = String::from_str("application");
            let json = String::from_str("json");
            if !(media.kind == application) {
                false
            } else if media.subtype == json {
                true
            } else {
                match &media.suffix {
                    Some(suffix) => *suffix == json,
                    None => false,
                }
            }
        },
    }
}

/// Whether the content type of a request stands for JSON.
pub fn is_json_content_type(content_type: &str) -> (json: bool)
    ensures
        json == is_json(media_type(content_type@)),
{
    let media = parse_media_type(content_type);
    is_json_media_type(&media)
}

/// Decides by the content type of a request, where it names one that is text, whether its
/// body is to be read as JSON.
pub fn check_content_type(content_type: Option<&str>) -> (outcome: Result<(), ApiError>)
    ensures
        match outcome {
            Ok(_) => content_type matches Some(given) && is_json(media_type(given@)),
            Err(ApiError::Parsing(ParseError::ContentTypeRequired)) => content_type is None,
            Err(ApiError::Parsing(ParseError::InvalidContentType(named))) => content_type matches Some(given)
                && !is_json(media_type(given@)) && named@ == given@,
            Err(_) => false,
        },
{
    match content_type {
        None => Err(ApiError::Parsing(ParseError::ContentTypeRequired)),
        Some(given) => {
            if !is_json_content_type(given) {
                Err(ApiError::Parsing(ParseError::InvalidContentType(String::from_str(given))))
            } else {
                Ok(())
            }
        },
    }
}

/// Calls `ValidateLength::validate_length` of the `validator` crate on a string, with both
/// bounds given. It counts the characters of the string and answers whether their number
/// is neither below `min` nor above `max`.
#[verifier::external_body]
pub(crate) fn length_between(text: &str, min: u64, max: u64) -> (within: bool)
    ensures
        within == (min <= text@.len() <= max),
{
    text.validate_length(Some(min), Some(max), None)
}

/// Calls `ValidateLength::validate_length` of the `validator` crate on a list, with the
/// lower bound given. It answers whether the list has `min` items or more.
#[verifier::external_body]
pub(crate) fn length_at_least(roles: &Vec<Role>, min: u64) -> (within: bool)
    ensures
        within == (roles@.len() >= min),
{
    roles.validate_length(Some(min), None, None)
}

/// A text has from `min` to `max` characters.
pub open spec fn sized(text: Seq<char>, min: nat, max: nat) -> bool {
    min <= text.len() <= max
}

/// A description, where one is given, has from 3 to 1000 characters.
pub open spec fn desc_fits(desc: Option<String>) -> bool {
    desc matches Some(text) ==> sized(text@, 3, 1000)
}

/// The broken fields of a request, seen as pairs of the field's name and the words on
/// it.
pub open spec fn faults(errors: Seq<FieldError>) -> Seq<(Seq<char>, Seq<char>)> {
    errors.map_values(|error: FieldError| (error.field@, error.message@))
}

/// One fault, where `broken` holds, else none.
pub open spec fn fault_if(broken: bool, field: Seq<char>, message: Seq<char>) -> Seq<(Seq<char>, Seq<char>)> {
    if broken {
        seq![(field, message)]
    } else {
        Seq::empty()
    }
}

/// The faults of a request to log in, in the order of its fields.
pub open spec fn login_faults(request: LoginUserDto) -> Seq<(Seq<char>, Seq<char>)> {
    fault_if(!sized(request.username@, 3, 100), "username"@, "Must be between 3 and 30 characters"@)
        + fault_if(!sized(request.password@, 3, 100), "password"@, "Must be between 3 and 1000 characters"@)
}

/// The faults of a request to make an account, in the order of its fields.
pub open spec fn create_faults(request: CreateUserDto) -> Seq<(Seq<char>, Seq<char>)> {
    fault_if(!sized(request.username@, 3, 100), "username"@, "Must be between 3 and 30 characters"@)
        + fault_if(!sized(request.password@, 3, 100), "password"@, "Must be between 3 and 1000 characters"@)
        + fault_if(!desc_fits(request.desc), "desc"@, "Must be between 3 and 1000 characters"@) + fault_if(
        request.roles@.len() < 1,
        "roles"@,
        "Must be at least one role"@,
    )
}

/// The faults of a request to change a description.
pub open spec fn update_faults(request: UpdateUserDto) -> Seq<(Seq<char>, Seq<char>)> {
    fault_if(!desc_fits(request.desc), "desc"@, "Must be between 3 and 1000 characters"@)
}

/// What a check of a request comes to, given the faults that it has: well where it has
/// none, else the error that carries them all.
pub open spec fn checked(found: Seq<(Seq<char>, Seq<char>)>, outcome: Result<(), ApiError>) -> bool {
    match outcome {
        Ok(_) => found.len() == 0,
        Err(ApiError::Validation(errors)) => found.len() > 0 && faults(errors@) == found,
        Err(_) => false,
    }
}

/// Notes the fault of `field` where `fits` does not hold.
fn note(errors: &mut Vec<FieldError>, fits: bool, field: &str, message: &str)
    ensures
        faults(final(errors)@) == faults(old(errors)@) + fault_if(!fits, field@, message@),
{
    if !fits {
        let ghost before = errors@;
        errors.push(FieldError { field: String::from_str(field), message: String::from_str(message) });
        proof {
            assert(faults(errors@) =~= faults(before) + seq![(field@, message@)]);
        }
    } else {
        proof {
            assert(faults(errors@) =~= faults(errors@) + Seq::<(Seq<char>, Seq<char>)>::empty());
        }
    }
}

/// The outcome of a check that found `errors`.
fn conclude(errors: Vec<FieldError>) -> (outcome: Result<(), ApiError>)
    ensures
        checked(faults(errors@), outcome),
{
    if errors.len() == 0 {
        Ok(())
    } else {
        Err(ApiError::Validation(errors))
    }
}

/// Whether a description, where one is given, has from 3 to 1000 characters.
fn desc_within(desc: &Option<String>) -> (fits: bool)
    ensures
        fits == desc_fits(*desc),
{
    match desc {
        Some(text) => length_between(text.as_str(), 3, 1000),
        None => true,
    }
}

impl LoginUserDto {
    /// Holds the request to its rules: name and password of 3 to 100 characters each.
    pub fn validate(&self) -> (outcome: Result<(), ApiError>)
        ensures
            checked(login_faults(*self), outcome),
    {
        let mut errors: Vec<FieldError> = Vec::new();
        proof {
            assert(faults(errors@) =~= Seq::empty());
        }
        let name_fits = length_between(self.username.as_str(), 3, 100);
        note(&mut errors, name_fits, "username", "Must be between 3 and 30 characters");
        let password_fits = length_between(self.password.as_str(), 3, 100);
        note(&mut errors, password_fits, "password", "Must be between 3 and 1000 characters");
        proof {
            assert(faults(errors@) =~= login_faults(*self));
        }
        conclude(errors)
    }
}

impl CreateUserDto {
    /// Holds the request to its rules: name and password of 3 to 100 characters each, a
    /// description, where one is given, of 3 to 1000, and one role at least.
    pub fn validate(&self) -> (outcome: Result<(), ApiError>)
        ensures
            checked(create_faults(*self), outcome),
    {
        let mut errors: Vec<FieldError> = Vec::new();
        proof {
            assert(faults(errors@) =~= Seq::empty());
        }
        let name_fits = length_between(self.username.as_str(), 3, 100);
        note(&mut errors, name_fits, "username", "Must be between 3 and 30 characters");
        let password_fits = length_between(self.password.as_str(), 3, 100);
        note(&mut errors, password_fits, "password", "Must be between 3 and 1000 characters");
        let desc_fits = desc_within(&self.desc);
        note(&mut errors, desc_fits, "desc", "Must be between 3 and 1000 characters");
        let roles_fit = length_at_least(&self.roles, 1);
        note(&mut errors, roles_fit, "roles", "Must be at least one role");
        proof {
            assert(faults(errors@) =~= create_faults(*self));
        }
        conclude(errors)
    }
}

impl UpdateUserDto {
    /// Holds the request to its rule: a description, where one is given, of 3 to 1000
    /// characters.
    pub fn validate(&self) -> (outcome: Result<(), ApiError>)
        ensures
            checked(update_faults(*self), outcome),
    {
        let mut errors: Vec<FieldError> = Vec::new();
        proof {
            assert(faults(errors@) =~= Seq::empty());
        }
        let desc_fits = desc_within(&self.desc);
        note(&mut errors, desc_fits, "desc", "Must be between 3 and 1000 characters");
        proof {
            assert(faults(errors@) =~= update_faults(*self));
        }
        conclude(errors)
    }
}

} // verus!
