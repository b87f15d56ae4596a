//! The envelope of the submission step in its compact form, which reports a
//! breached limit instead of a full status.

use vstd::prelude::*;
use vstd::string::*;
use crate::status::{BadRequest, LambdaDetailError};
use crate::text::{opt_view, str_eq};

verus! {

/// The compact envelope.
#[derive(Debug)]
pub struct LambdaResponse {
    pub status_code: u16,
    pub message: String,
    pub detailed_message: Option<String>,
    pub detail_error: Option<LambdaDetailError>,
}

impl LambdaResponse {
    /// A successful envelope with the given message.
    pub fn ok(message: &str) -> (r: LambdaResponse)
        ensures
            r.status_code == 200,
            r.message@ == message@,
            r.detailed_message is None,
            r.detail_error is None,
    {
        LambdaResponse {
            status_code: 200,
            message: message.to_string(),
            detailed_message: None,
            detail_error: None,
        }
    }

    /// A copy without a detailed message that repeats the message.
    pub fn clean(&mut self) -> (r: LambdaResponse)
        ensures
            *final(self) == *old(self),
            r.status_code == old(self).status_code,
            r.message@ == old(self).message@,
            r.detail_error == old(self).detail_error,
            opt_view(r.detailed_message) == (if opt_view(old(self).detailed_message) == Some(
                old(self).message@,
            ) {
                None
            } else {
                opt_view(old(self).detailed_message)
            }),
    {
        let detailed_message = match &self.detailed_message {
            Some(d) => if str_eq(d.as_str(), self.message.as_str()) {
                None
            } else {
                Some(d.clone())
            },
            None => None,
        };
        LambdaResponse {
            status_code: self.status_code,
            message: self.message.clone(),
            detailed_message,
            detail_error: self.detail_error,
        }
    }

    /// The envelope for a request that the loader rejected as malformed.
    pub fn from_bad_request(exc: &BadRequest) -> (r: LambdaResponse)
        ensures
            r.status_code == 400,
            r.message@ == (match exc.message {
                Some(m) => m@,
                None => "unknown message"@,
            }),
            opt_view(r.detailed_message) == Some(exc.detailed_message@),
            r.detail_error == LambdaDetailError::from_bad_request_spec(*exc),
    {
        LambdaResponse {
            status_code: 400,
            message: match &exc.message {
                Some(m) => m.clone(),
                None => String::from_str("unknown message"),
            },
            detailed_message: Some(exc.detailed_message.clone()),
            detail_error: LambdaDetailError::from_bad_request_exception(exc),
        }
    }
}

} // verus!
