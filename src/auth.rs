use vstd::prelude::*;
use crate::status::Status;
use vstd::utf8::{decode_utf8, valid_utf8};

verus! {

/// Relies on `String::from_utf8`: the text of the bytes where they are valid
/// UTF-8, an error otherwise.
#[verifier::external_body]
fn string_from_utf8(b: Vec<u8>) -> (r: Option<String>)
    ensures
        r is Some <==> valid_utf8(b@),
        r matches Some(s) ==> s@ == decode_utf8(b@),
{
    String::from_utf8(b).ok()
}

/// The text of a byte string that is valid UTF-8.
pub fn text_of(b: &Vec<u8>) -> (r: Option<String>)
    ensures
        r is Some <==> valid_utf8(b@),
        r matches Some(s) ==> s@ == decode_utf8(b@),
{
    string_from_utf8(b.clone())
}

/// Authentication kind code: no credentials.
pub const AUTH_NONE: u8 = 0;

/// Authentication kind code: the credential is the application's name in UTF-8.
pub const AUTH_DIRECT: u8 = 1;

/// The outcome of authentication: `None` where it fails, `Some(None)` for a
/// request without credentials, `Some(Some(name))` for an authenticated application.
pub open spec fn authenticated(auth_type: u8, auth: Seq<u8>) -> Option<Option<Seq<char>>> {
    if auth_type == AUTH_NONE {
        Some(None)
    } else if auth_type == AUTH_DIRECT && auth.len() > 0 {
        if valid_utf8(auth) {
            Some(Some(decode_utf8(auth)))
        } else {
            None
        }
    } else {
        None
    }
}

/// Authenticates credential bytes under a declared kind.
pub fn authenticate(auth_type: u8, auth: &Vec<u8>) -> (r: Result<Option<String>, Status>)
    ensures
        authenticated(auth_type, auth@) is None <==> r == Err::<Option<String>, Status>(
            Status::AuthenticationFailed,
        ),
        authenticated(auth_type, auth@) == Some(None::<Seq<char>>) ==> r matches Ok(None),
        authenticated(auth_type, auth@) matches Some(Some(t)) ==> (r matches Ok(Some(name))
            && name@ == t),
{
    if auth_type == AUTH_NONE {
        Ok(None)
    } else if auth_type == AUTH_DIRECT && auth.len() > 0 {
        match text_of(auth) {
            Some(name) => Ok(Some(name)),
            None => Err(Status::AuthenticationFailed),
        }
    } else {
        Err(Status::AuthenticationFailed)
    }
}

} // verus!
