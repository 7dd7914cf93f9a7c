use vstd::prelude::*;

verus! {

/// The claims of an access token as their contracts see them.
pub struct ClaimsView {
    pub iss: Seq<char>,
    pub sub: Seq<char>,
    pub iat: i64,
    pub exp: i64,
}

/// What an access token says: who it is for, which roles it carries, when it was made and
/// until when it holds, both in seconds since the epoch.
#[derive(Debug)]
pub struct Claims {
    pub iss: String,
    pub sub: String,
    pub iat: i64,
    pub exp: i64,
}

impl View for Claims {
    type V = ClaimsView;

    open spec fn view(&self) -> ClaimsView {
        ClaimsView { iss: self.iss@, sub: self.sub@, iat: self.iat, exp: self.exp }
    }
}

/// The longest time, in seconds, that a token may be asked to hold.
pub const MAX_DURATION: i64 = 9_223_372_036_854_775;

/// The claims of a token made at `now` for `issuer`, with `subject`, that holds for
/// `duration` seconds.
pub fn make_claims(issuer: String, subject: String, now: i64, duration: i64) -> (claims: Claims)
    requires
        -MAX_DURATION <= duration <= MAX_DURATION,
        i64::MIN <= now + duration <= i64::MAX,
    ensures
        claims@ == (ClaimsView { iss: issuer@, sub: subject@, iat: now, exp: (now + duration) as i64 }),
{
    Claims { iss: issuer, sub: subject, iat: now, exp: now + duration }
}

} // verus!
