//! Authentication of incoming requests by API key.
use vstd::prelude::*;
use crate::manager::Config;
use crate::text::same_text;

verus! {

/// The `Authorization` header `header` carries the API key `key`, bare or as
/// a bearer token (`Bearer <key>`).
pub open spec fn carries_key(header: Seq<char>, key: Seq<char>) -> bool {
    header == key || header == "Bearer "@ + key
}

/// A request carrying the API key, bare or as a bearer token, is let through
/// whatever the key (its length or its characters); a header that is neither
/// is not.
pub proof fn lemma_key_is_accepted_whatever_its_length(header: Seq<char>, key: Seq<char>)
    ensures
        carries_key(key, key),
        carries_key("Bearer "@ + key, key),
        header == key ==> carries_key(header, key),
        header == "Bearer "@ + key ==> carries_key(header, key),
        header != key && header != "Bearer "@ + key ==> !carries_key(header, key),
{
}

/// Decides whether a request may go on. The shutdown route always may, and so
/// may every request when the service has no configuration or its API key is
/// empty (authentication is then off). Otherwise the request must carry the
/// key in its `Authorization` header, bare or as a bearer token: without the
/// header it is refused with `Missing API Key`, with another value with
/// `Invalid API Key`.
///
/// `authorization` is the header's text (the empty text when the header is
/// not visible ASCII), or `None` when the request has no such header.
pub fn authorize_request(path: &str, config: Option<&Config>, authorization: Option<String>) -> (verdict:
    Result<(), String>)
    ensures
        path@ == "/shutdown"@ ==> verdict is Ok,
        path@ != "/shutdown"@ ==> match config {
            None => verdict is Ok,
            Some(c) => if c.api_key@.len() == 0 {
                verdict is Ok
            } else {
                match authorization {
                    None => verdict matches Err(e) && e@ == "Missing API Key"@,
                    Some(h) => if carries_key(h@, c.api_key@) {
                        verdict is Ok
                    } else {
                        verdict matches Err(e) && e@ == "Invalid API Key"@
                    },
                }
            },
        },
        config is Some && authorization is Some && (authorization.unwrap()@
            == config.unwrap().api_key@ || authorization.unwrap()@ == "Bearer "@
            + config.unwrap().api_key@) ==> verdict is Ok,
        path@ != "/shutdown"@ && config is Some && config.unwrap().api_key@.len() > 0
            && authorization is Some && authorization.unwrap()@ != config.unwrap().api_key@
            && authorization.unwrap()@ != "Bearer "@ + config.unwrap().api_key@ ==> (verdict matches Err(
            e,
        ) && e@ == "Invalid API Key"@),
{
    proof {
        lemma_key_is_accepted_whatever_its_length(authorization.unwrap()@, config.unwrap().api_key@);
    }
    if same_text(path, "/shutdown") {
        return Ok(());
    }
    match config {
        None => Ok(()),
        Some(c) => {
            if c.api_key.as_str().unicode_len() == 0 {
                return Ok(());
            }
            match authorization {
                None => Err(String::from_str("Missing API Key")),
                Some(h) => {
                    let mut bearer = String::from_str("Bearer ");
                    bearer.append(c.api_key.as_str());
                    if same_text(h.as_str(), c.api_key.as_str()) || same_text(
                        h.as_str(),
                        bearer.as_str(),
                    ) {
                        Ok(())
                    } else {
                        Err(String::from_str("Invalid API Key"))
                    }
                },
            }
        },
    }
}

} // verus!
