//! Classification of the replies that an OAuth2 token endpoint gives while a
//! device-code grant is being polled.
//!
//! A reply is a grant, word that the user has not decided yet, one of a few
//! known failures, a failure with a code that is not known, or a body that is
//! no record at all. `classify` decides which from the body and from what
//! reading the body as each of the two records gave; `classify_parsed` takes
//! the readings as `serde_json` returns them. The classifier keeps no state
//! and decides the same each time: whether to poll again is for the caller.

pub mod classify;
pub mod outside;
pub mod responses;
pub mod text;

pub use classify::classify;
pub use classify::classify_error_response;
pub use classify::classify_parsed;
pub use responses::DeviceCodeAuthorization;
pub use responses::DeviceCodeError;
pub use responses::DeviceCodeErrorResponse;
pub use responses::DeviceCodeResponse;
