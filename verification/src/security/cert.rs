//! The check that a client certificate names a permitted client: the common
//! name of its subject must be one of the allowed names.
use vstd::prelude::*;
use crate::text::same_text;

verus! {

/// What parsing the DER certificate `der` with x509-parser and reading the
/// first common name of its subject gives: `None` when the certificate does
/// not parse; otherwise the name, when there is one and it is a string.
pub uninterp spec fn der_first_common_name(der: Seq<u8>) -> Option<Option<Seq<char>>>;

/// Parses `der` with `x509_parser::parse_x509_certificate` and reads the first
/// common name of its subject (`iter_common_name`, then `as_str`). The
/// contract names the outcome `der_first_common_name`.
#[verifier::external_body]
fn first_common_name(der: &[u8]) -> (name: Option<Option<String>>)
    ensures
        match name {
            None => der_first_common_name(der@) is None,
            Some(None) => der_first_common_name(der@) == Some(None::<Seq<char>>),
            Some(Some(n)) => der_first_common_name(der@) == Some(Some(n@)),
        },
{
    match x509_parser::parse_x509_certificate(der) {
        Err(_) => None,
        Ok((_, cert)) => match cert.subject().iter_common_name().next() {
            None => Some(None),
            Some(attr) => match attr.as_str() {
                Ok(s) => Some(Some(s.to_string())),
                Err(_) => Some(None),
            },
        },
    }
}

/// The name a client certificate is known by: its first common name, or the
/// empty name when it has none that is a string.
pub open spec fn client_name(cn: Option<Seq<char>>) -> Seq<char> {
    match cn {
        Some(n) => n,
        None => Seq::empty(),
    }
}

/// `name` is one of `allowed`.
pub open spec fn name_allowed(allowed: Seq<String>, name: Seq<char>) -> bool {
    exists|i: int| 0 <= i < allowed.len() && #[trigger] allowed[i]@ == name
}

/// Every name in the list is allowed, wherever it stands, and a name that
/// equals none of them is not.
pub proof fn lemma_every_listed_name_is_allowed(allowed: Seq<String>, name: Seq<char>)
    ensures
        forall|i: int| 0 <= i < allowed.len() ==> name_allowed(allowed, #[trigger] allowed[i]@),
        (forall|i: int| 0 <= i < allowed.len() ==> #[trigger] allowed[i]@ != name) ==> !name_allowed(
            allowed,
            name,
        ),
{
    assert forall|i: int| 0 <= i < allowed.len() implies name_allowed(allowed, #[trigger] allowed[i]@) by {
        assert(allowed[i]@ == allowed[i]@);
    }
}

/// A certificate is known by its first common name when it has one, and by
/// the empty name otherwise.
pub proof fn lemma_client_name(n: Seq<char>)
    ensures
        client_name(Some(n)) == n,
        client_name(None) == Seq::<char>::empty(),
{
}

/// Whether `name` is one of `allowed`.
pub fn is_allowed(allowed: &Vec<String>, name: &str) -> (found: bool)
    ensures
        found == name_allowed(allowed@, name@),
        found <==> exists|i: int| 0 <= i < allowed@.len() && #[trigger] allowed@[i]@ == name@,
{
    let n = allowed.len();
    let mut i: usize = 0;
    while i < n
        invariant
            n == allowed@.len(),
            0 <= i <= n,
            forall|j: int| 0 <= j < i ==> allowed@[j]@ != name@,
        decreases n - i,
    {
        if same_text(allowed[i].as_str(), name) {
            assert(allowed@[i as int]@ == name@);
            return true;
        }
        i = i + 1;
    }
    false
}

/// Checks the subject of the client certificate `der` (already verified as a
/// certificate chain) against the allowed names. Refused with
/// `Failed to parse client certificate` when it does not parse, and with
/// `Invalid client certificate subject` when its common name (the empty name
/// when it has none) is not allowed.
pub fn check_client_name(der: &[u8], allowed: &Vec<String>) -> (verdict: Result<(), String>)
    ensures
        match der_first_common_name(der@) {
            None => verdict matches Err(e) && e@ == "Failed to parse client certificate"@,
            Some(cn) => if name_allowed(allowed@, client_name(cn)) {
                verdict is Ok
            } else {
                verdict matches Err(e) && e@ == "Invalid client certificate subject"@
            },
        },
        forall|i: int|
            0 <= i < allowed@.len() && der_first_common_name(der@) == Some(Some(
                #[trigger] allowed@[i]@,
            )) ==> verdict is Ok,
{
    proof {
        lemma_every_listed_name_is_allowed(allowed@, Seq::empty());
    }
    match first_common_name(der) {
        None => Err(String::from_str("Failed to parse client certificate")),
        Some(cn) => {
            let name = match cn {
                Some(n) => n,
                None => String::new(),
            };
            if is_allowed(allowed, name.as_str()) {
                Ok(())
            } else {
                Err(String::from_str("Invalid client certificate subject"))
            }
        },
    }
}

} // verus!
