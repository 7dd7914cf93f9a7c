use vstd::prelude::*;

verus! {

/// What `serde_json::to_string` writes for a string: the text between double quotes, with
/// JSON's escapes.
pub uninterp spec fn json_string(text: Seq<char>) -> Seq<char>;

/// Calls `serde_json::to_string` on a string slice. Writing a string into memory cannot
/// fail, so the quoted text always comes back.
#[verifier::external_body]
pub(crate) fn quote(text: &str) -> (quoted: String)
    ensures
        quoted@ == json_string(text@),
{
    match serde_json::to_string(text) {
        Ok(quoted) => quoted,
        Err(_) => String::new(),
    }
}

/// The string that the JSON object spelled by `body` holds under `key`; `None` where `body`
/// is not JSON, is not an object, has no such key, or holds something else than a string
/// there.
pub uninterp spec fn json_member(body: Seq<char>, key: Seq<char>) -> Option<Seq<char>>;

/// Parses `body` with `serde_json::from_str` into a `serde_json::Value` and reads the string
/// under `key` out of it with `Value::get` and `Value::as_str`.
#[verifier::external_body]
pub(crate) fn member(body: &str, key: &str) -> (found: Option<String>)
    ensures
        found matches Some(text) ==> json_member(body@, key@) == Some(text@),
        found is None ==> json_member(body@, key@) is None,
{
    let value = serde_json::from_str::<serde_json::Value>(body).ok()?;
    Some(value.get(key)?.as_str()?.to_string())
}

} // verus!
