//! The types of other crates that the classifier meets. A token and a
//! transport error are taken as they are and handed on; an error of the JSON
//! reader is asked for its text. Nothing here looks inside a value of them.

use vstd::prelude::*;

verus! {

/// `oauth2::AccessToken`: a token that the endpoint granted. It keeps its text
/// to itself and prints as redacted, so a reply can be logged without giving
/// the secret away.
#[verifier::external_type_specification]
#[verifier::external_body]
pub struct ExAccessToken(oauth2::AccessToken);

/// `Clone::clone` of `oauth2::AccessToken`, which a grant's own `clone` calls
/// for each of its tokens. Nothing is claimed of the copy.
pub assume_specification[ <oauth2::AccessToken as Clone>::clone ](
    token: &oauth2::AccessToken,
) -> oauth2::AccessToken;

/// `serde_json::Error`: what the JSON reader had against a body. The
/// classifier asks it only for its text, through `to_string`.
#[verifier::external_type_specification]
#[verifier::external_body]
pub struct ExJsonError(serde_json::Error);

/// `reqwest::Error`: why the exchange with the endpoint failed before there
/// was a body to classify.
#[verifier::external_type_specification]
#[verifier::external_body]
pub struct ExTransportError(reqwest::Error);

} // verus!
