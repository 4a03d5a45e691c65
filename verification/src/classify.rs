//! From a reply of the token endpoint to what the poller is to make of it.
//!
//! The endpoint answers a poll with one of two records, a grant or an error
//! record, and nothing outside the body says which. So the body is read as
//! each, and the readings are weighed in a fixed order: a body that reads as a
//! grant is a grant, whatever else it reads as; failing that, the code of the
//! error record decides; failing that too, the body is handed back with what
//! the reader said of it.

use crate::responses::option_view;
use crate::responses::result_view;
use crate::responses::DeviceCodeAuthorization;
use crate::responses::DeviceCodeAuthorizationView;
use crate::responses::DeviceCodeError;
use crate::responses::DeviceCodeErrorResponse;
use crate::responses::DeviceCodeErrorResponseView;
use crate::responses::DeviceCodeErrorView;
use crate::responses::DeviceCodeResponse;
use crate::responses::DeviceCodeResponseView;
use crate::text::same_text;
use vstd::prelude::*;

verus! {

/// What an error record comes to. Its code decides, compared as it stands:
/// case counts and nothing is trimmed. One code means that the user has not
/// decided yet, three are known failures, and any other is a failure that is
/// not recognised. The record is kept whole in each.
pub open spec fn error_response_outcome(response: DeviceCodeErrorResponseView) -> Result<
    DeviceCodeResponseView,
    DeviceCodeErrorView,
> {
    if response.error == "authorization_pending"@ {
        Ok(DeviceCodeResponseView::AuthorizationPending(response))
    } else if response.error == "authorization_declined"@ {
        Err(DeviceCodeErrorView::AuthorizationDeclined(response))
    } else if response.error == "bad_verification_code"@ {
        Err(DeviceCodeErrorView::BadVerificationCode(response))
    } else if response.error == "expired_token"@ {
        Err(DeviceCodeErrorView::ExpiredToken(response))
    } else {
        Err(DeviceCodeErrorView::UnrecognizedError(response))
    }
}

/// What a body comes to, given what reading it as a grant gave and what
/// reading it as an error record gave. The first that holds decides:
/// a grant was read; an error record was read; neither was, and the body goes
/// back with the complaint of the second reading.
pub open spec fn outcome(
    body: Seq<char>,
    authorization: Option<DeviceCodeAuthorizationView>,
    error_response: Result<DeviceCodeErrorResponseView, Seq<char>>,
) -> Result<DeviceCodeResponseView, DeviceCodeErrorView> {
    match authorization {
        Some(granted) => Ok(DeviceCodeResponseView::AuthorizationSucceded(granted)),
        None => match error_response {
            Ok(response) => error_response_outcome(response),
            Err(complaint) => Err(DeviceCodeErrorView::UnhandledError(complaint, body)),
        },
    }
}

/// Whether a code is one of the four that the classifier knows.
pub open spec fn is_known_code(code: Seq<char>) -> bool {
    ||| code == "authorization_pending"@
    ||| code == "authorization_declined"@
    ||| code == "bad_verification_code"@
    ||| code == "expired_token"@
}

/// Classifies an error record by its code.
pub fn classify_error_response(response: DeviceCodeErrorResponse) -> (classified: Result<
    DeviceCodeResponse,
    DeviceCodeError,
>)
    ensures
        result_view(classified) == error_response_outcome(response@),
{
    if same_text(response.error.as_str(), "authorization_pending") {
        Ok(DeviceCodeResponse::AuthorizationPending(response))
    } else if same_text(response.error.as_str(), "authorization_declined") {
        Err(DeviceCodeError::AuthorizationDeclined(response))
    } else if same_text(response.error.as_str(), "bad_verification_code") {
        Err(DeviceCodeError::BadVerificationCode(response))
    } else if same_text(response.error.as_str(), "expired_token") {
        Err(DeviceCodeError::ExpiredToken(response))
    } else {
        Err(DeviceCodeError::UnrecognizedError(response))
    }
}

/// Classifies a reply of the token endpoint.
///
/// `body` is the reply as it came. `authorization` is the grant that the body
/// reads as, if it reads as one: type, scope, lifetime and access token all
/// there and of the right kind. `error_response` is the error record that it
/// reads as, or else what the reader said against it.
pub fn classify(
    body: String,
    authorization: Option<DeviceCodeAuthorization>,
    error_response: Result<DeviceCodeErrorResponse, String>,
) -> (classified: Result<DeviceCodeResponse, DeviceCodeError>)
    ensures
        result_view(classified) == outcome(
            body@,
            option_view(authorization),
            result_view(error_response),
        ),
{
    match authorization {
        Some(granted) => Ok(DeviceCodeResponse::AuthorizationSucceded(granted)),
        None => match error_response {
            Ok(response) => classify_error_response(response),
            Err(complaint) => Err(DeviceCodeError::UnhandledError(complaint, body)),
        },
    }
}

/// Whether `text` is what an error of the JSON reader shows of itself when it
/// is written out.
pub open spec fn written_out(error: serde_json::Error, text: Seq<char>) -> bool {
    exists|shown: String| #[trigger]
        vstd::string::to_string_from_display_ensures(&error, shown) && shown@ == text
}

/// Classifies a reply of the token endpoint from what `serde_json` made of
/// its body, read once as a grant and once as an error record.
///
/// What the reader had against the body as a grant is dropped. What it had
/// against the body as an error record is written out, and that text goes
/// back with the body where neither record was read.
pub fn classify_parsed(
    body: String,
    authorization: Result<DeviceCodeAuthorization, serde_json::Error>,
    error_response: Result<DeviceCodeErrorResponse, serde_json::Error>,
) -> (classified: Result<DeviceCodeResponse, DeviceCodeError>)
    ensures
        authorization matches Ok(granted) ==> result_view(classified) == Ok::<
            DeviceCodeResponseView,
            DeviceCodeErrorView,
        >(DeviceCodeResponseView::AuthorizationSucceded(granted@)),
        authorization is Err ==> match error_response {
            Ok(response) => result_view(classified) == error_response_outcome(response@),
            Err(error) => {
                &&& classified matches Err(DeviceCodeError::UnhandledError(complaint, kept))
                &&& written_out(error, complaint@)
                &&& kept@ == body@
            },
        },
{
    let granted = match authorization {
        Ok(granted) => Some(granted),
        Err(_) => None,
    };
    let read = match error_response {
        Ok(response) => Ok(response),
        Err(error) => {
            let complaint = error.to_string();
            assert(written_out(error, complaint@));
            Err(complaint)
        },
    };
    classify(body, granted, read)
}

/// No two of the four known codes are the same text.
proof fn known_codes_differ()
    ensures
        "authorization_pending"@ != "authorization_declined"@,
        "authorization_pending"@ != "bad_verification_code"@,
        "authorization_pending"@ != "expired_token"@,
        "authorization_declined"@ != "bad_verification_code"@,
        "authorization_declined"@ != "expired_token"@,
        "bad_verification_code"@ != "expired_token"@,
{
    reveal_strlit("authorization_pending");
    reveal_strlit("authorization_declined");
    reveal_strlit("bad_verification_code");
    reveal_strlit("expired_token");
    assert("authorization_pending"@.len() == 21);
    assert("authorization_declined"@.len() == 22);
    assert("bad_verification_code"@.len() == 21);
    assert("expired_token"@.len() == 13);
    assert("authorization_pending"@[0] != "bad_verification_code"@[0]);
}

/// A body that reads as a grant is classified as that grant, every field as
/// it was read, whatever reading it as an error record gave: the grant is
/// tried first and wins.
pub proof fn grant_takes_priority(
    body: Seq<char>,
    granted: DeviceCodeAuthorizationView,
    error_response: Result<DeviceCodeErrorResponseView, Seq<char>>,
)
    ensures
        outcome(body, Some(granted), error_response) == Ok::<
            DeviceCodeResponseView,
            DeviceCodeErrorView,
        >(DeviceCodeResponseView::AuthorizationSucceded(granted)),
{
}

/// The table by which a code decides: each known code has its own outcome,
/// no code has two, and a code that is none of the four is not recognised.
/// The record is kept whole in each.
pub proof fn code_decides(response: DeviceCodeErrorResponseView)
    ensures
        response.error == "authorization_pending"@ ==> error_response_outcome(response) == Ok::<
            DeviceCodeResponseView,
            DeviceCodeErrorView,
        >(DeviceCodeResponseView::AuthorizationPending(response)),
        response.error == "authorization_declined"@ ==> error_response_outcome(response) == Err::<
            DeviceCodeResponseView,
            DeviceCodeErrorView,
        >(DeviceCodeErrorView::AuthorizationDeclined(response)),
        response.error == "bad_verification_code"@ ==> error_response_outcome(response) == Err::<
            DeviceCodeResponseView,
            DeviceCodeErrorView,
        >(DeviceCodeErrorView::BadVerificationCode(response)),
        response.error == "expired_token"@ ==> error_response_outcome(response) == Err::<
            DeviceCodeResponseView,
            DeviceCodeErrorView,
        >(DeviceCodeErrorView::ExpiredToken(response)),
        !is_known_code(response.error) ==> error_response_outcome(response) == Err::<
            DeviceCodeResponseView,
            DeviceCodeErrorView,
        >(DeviceCodeErrorView::UnrecognizedError(response)),
{
    known_codes_differ();
}

/// Each outcome comes of its own inputs and of no others: the grant only
/// where one was read; word of an error record only where no grant was read
/// and that record was, with the code that the outcome stands for; the body
/// handed back only where neither was read, with the complaint of the second
/// reading. A transport error is never the outcome.
pub proof fn outcome_names_its_inputs(
    body: Seq<char>,
    authorization: Option<DeviceCodeAuthorizationView>,
    error_response: Result<DeviceCodeErrorResponseView, Seq<char>>,
)
    ensures
        match outcome(body, authorization, error_response) {
            Ok(DeviceCodeResponseView::AuthorizationSucceded(granted)) => authorization == Some(
                granted,
            ),
            Ok(DeviceCodeResponseView::AuthorizationPending(kept)) => {
                &&& authorization is None
                &&& error_response == Ok::<DeviceCodeErrorResponseView, Seq<char>>(kept)
                &&& kept.error == "authorization_pending"@
            },
            Err(DeviceCodeErrorView::AuthorizationDeclined(kept)) => {
                &&& authorization is None
                &&& error_response == Ok::<DeviceCodeErrorResponseView, Seq<char>>(kept)
                &&& kept.error == "authorization_declined"@
            },
            Err(DeviceCodeErrorView::BadVerificationCode(kept)) => {
                &&& authorization is None
                &&& error_response == Ok::<DeviceCodeErrorResponseView, Seq<char>>(kept)
                &&& kept.error == "bad_verification_code"@
            },
            Err(DeviceCodeErrorView::ExpiredToken(kept)) => {
                &&& authorization is None
                &&& error_response == Ok::<DeviceCodeErrorResponseView, Seq<char>>(kept)
                &&& kept.error == "expired_token"@
            },
            Err(DeviceCodeErrorView::UnrecognizedError(kept)) => {
                &&& authorization is None
                &&& error_response == Ok::<DeviceCodeErrorResponseView, Seq<char>>(kept)
                &&& !is_known_code(kept.error)
            },
            Err(DeviceCodeErrorView::UnhandledError(complaint, kept)) => {
                &&& authorization is None
                &&& error_response == Err::<DeviceCodeErrorResponseView, Seq<char>>(complaint)
                &&& kept == body
            },
            Err(DeviceCodeErrorView::TransportError(_)) => false,
        },
{
}

/// Classifying again gives the same. Where two bodies are the same text and
/// were read alike, what `classify` makes of the one is equal, part by part,
/// to what it makes of the other.
pub proof fn classify_twice_agrees(
    body: String,
    authorization: Option<DeviceCodeAuthorization>,
    error_response: Result<DeviceCodeErrorResponse, String>,
    first: Result<DeviceCodeResponse, DeviceCodeError>,
    body_again: String,
    authorization_again: Option<DeviceCodeAuthorization>,
    error_response_again: Result<DeviceCodeErrorResponse, String>,
    second: Result<DeviceCodeResponse, DeviceCodeError>,
)
    requires
        body@ == body_again@,
        option_view(authorization) == option_view(authorization_again),
        result_view(error_response) == result_view(error_response_again),
        result_view(first) == outcome(
            body@,
            option_view(authorization),
            result_view(error_response),
        ),
        result_view(second) == outcome(
            body_again@,
            option_view(authorization_again),
            result_view(error_response_again),
        ),
    ensures
        result_view(first) == result_view(second),
{
}

} // verus!
