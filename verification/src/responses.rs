//! The two records that the endpoint answers with, the outcomes of
//! classifying an answer, and the mathematical value of each.

use vstd::prelude::*;

verus! {

/// The error record of the endpoint: a code, a description for people and a
/// link to more.
#[derive(Debug, Clone, PartialEq)]
pub struct DeviceCodeErrorResponse {
    pub error: String,
    pub error_description: String,
    pub error_uri: String,
}

/// What a `DeviceCodeErrorResponse` holds, as sequences of characters.
pub struct DeviceCodeErrorResponseView {
    pub error: Seq<char>,
    pub error_description: Seq<char>,
    pub error_uri: Seq<char>,
}

impl View for DeviceCodeErrorResponse {
    type V = DeviceCodeErrorResponseView;

    open spec fn view(&self) -> DeviceCodeErrorResponseView {
        DeviceCodeErrorResponseView {
            error: self.error@,
            error_description: self.error_description@,
            error_uri: self.error_uri@,
        }
    }
}

/// The grant: the tokens, their kind and scope, and the seconds for which the
/// access token is good.
#[derive(Debug, Clone)]
pub struct DeviceCodeAuthorization {
    pub token_type: String,
    pub scope: String,
    pub expires_in: u64,
    pub access_token: oauth2::AccessToken,
    pub refresh_token: Option<oauth2::AccessToken>,
    pub id_token: Option<oauth2::AccessToken>,
}

/// What a `DeviceCodeAuthorization` holds. The tokens stand for themselves:
/// they are closed values, equal only to themselves.
pub struct DeviceCodeAuthorizationView {
    pub token_type: Seq<char>,
    pub scope: Seq<char>,
    pub expires_in: u64,
    pub access_token: oauth2::AccessToken,
    pub refresh_token: Option<oauth2::AccessToken>,
    pub id_token: Option<oauth2::AccessToken>,
}

impl View for DeviceCodeAuthorization {
    type V = DeviceCodeAuthorizationView;

    open spec fn view(&self) -> DeviceCodeAuthorizationView {
        DeviceCodeAuthorizationView {
            token_type: self.token_type@,
            scope: self.scope@,
            expires_in: self.expires_in,
            access_token: self.access_token,
            refresh_token: self.refresh_token,
            id_token: self.id_token,
        }
    }
}

/// The outcomes on which polling does not fail: the grant, or word that the
/// user has not decided yet.
#[derive(Debug, Clone)]
pub enum DeviceCodeResponse {
    AuthorizationSucceded(DeviceCodeAuthorization),
    AuthorizationPending(DeviceCodeErrorResponse),
}

/// The value of a `DeviceCodeResponse`.
pub enum DeviceCodeResponseView {
    AuthorizationSucceded(DeviceCodeAuthorizationView),
    AuthorizationPending(DeviceCodeErrorResponseView),
}

impl View for DeviceCodeResponse {
    type V = DeviceCodeResponseView;

    open spec fn view(&self) -> DeviceCodeResponseView {
        match self {
            DeviceCodeResponse::AuthorizationSucceded(authorization) => {
                DeviceCodeResponseView::AuthorizationSucceded(authorization@)
            },
            DeviceCodeResponse::AuthorizationPending(response) => {
                DeviceCodeResponseView::AuthorizationPending(response@)
            },
        }
    }
}

/// The outcomes on which polling ends in failure.
#[derive(Debug)]
pub enum DeviceCodeError {
    /// The user refused.
    AuthorizationDeclined(DeviceCodeErrorResponse),
    /// The endpoint did not know the device code.
    BadVerificationCode(DeviceCodeErrorResponse),
    /// The device code is too old.
    ExpiredToken(DeviceCodeErrorResponse),
    /// An error record with a code that is none of the known ones.
    UnrecognizedError(DeviceCodeErrorResponse),
    /// The body is neither record: what the reader said of it, then the body
    /// itself, as it came.
    UnhandledError(String, String),
    /// The exchange failed before there was a body.
    TransportError(reqwest::Error),
}

/// The value of a `DeviceCodeError`. A transport error stands for itself.
pub enum DeviceCodeErrorView {
    AuthorizationDeclined(DeviceCodeErrorResponseView),
    BadVerificationCode(DeviceCodeErrorResponseView),
    ExpiredToken(DeviceCodeErrorResponseView),
    UnrecognizedError(DeviceCodeErrorResponseView),
    UnhandledError(Seq<char>, Seq<char>),
    TransportError(reqwest::Error),
}

impl View for DeviceCodeError {
    type V = DeviceCodeErrorView;

    open spec fn view(&self) -> DeviceCodeErrorView {
        match self {
            DeviceCodeError::AuthorizationDeclined(response) => {
                DeviceCodeErrorView::AuthorizationDeclined(response@)
            },
            DeviceCodeError::BadVerificationCode(response) => {
                DeviceCodeErrorView::BadVerificationCode(response@)
            },
            DeviceCodeError::ExpiredToken(response) => {
                DeviceCodeErrorView::ExpiredToken(response@)
            },
            DeviceCodeError::UnrecognizedError(response) => {
                DeviceCodeErrorView::UnrecognizedError(response@)
            },
            DeviceCodeError::UnhandledError(complaint, body) => {
                DeviceCodeErrorView::UnhandledError(complaint@, body@)
            },
            DeviceCodeError::TransportError(cause) => DeviceCodeErrorView::TransportError(*cause),
        }
    }
}

/// The value of what may be missing: the value of what is there, if anything
/// is.
pub open spec fn option_view<T: View>(held: Option<T>) -> Option<T::V> {
    match held {
        Some(value) => Some(value@),
        None => None,
    }
}

/// The value of what went well or badly: the value of what came of it, on
/// either side.
pub open spec fn result_view<T: View, E: View>(held: Result<T, E>) -> Result<T::V, E::V> {
    match held {
        Ok(value) => Ok(value@),
        Err(error) => Err(error@),
    }
}

} // verus!
