//! The status that ends a request.

use crate::action::EncodeError;
use crate::proto::GrrMessage;
use crate::proto::GrrMessageView;
use crate::proto::GrrStatus;
use crate::proto::GrrStatusView;
use crate::proto::MessageType;
use crate::proto::ReturnedStatus;
use crate::session::demand::Header;
use crate::session::demand::HeaderView;
use crate::session::error::Error;
use vstd::prelude::*;
use vstd::string::StringExecFns;

verus! {

/// The outcome of one request, as its status will report it.
#[derive(Debug)]
pub struct Status {
    pub header: Header,
    pub result: Result<(), Error>,
}

/// What a status tells of a result: success and no message, or a generic
/// error and the text by which the error is reported.
pub open spec fn status_payload(result: Result<(), Error>) -> GrrStatusView {
    match result {
        Ok(_) => GrrStatusView { status: Some(ReturnedStatus::Success), error_message: None },
        Err(error) => GrrStatusView {
            status: Some(ReturnedStatus::GenericError),
            error_message: Some(error@.message()),
        },
    }
}

/// The envelope of the status that ends a request.
pub open spec fn status_envelope(header: HeaderView, data: Seq<u8>) -> GrrMessageView {
    GrrMessageView {
        session_id: Some(header.session_id),
        request_id: Some(header.request_id),
        response_id: None,
        name: None,
        message_type: Some(MessageType::Status),
        args: Some(data),
        args_rdf_name: Some("GrrStatus"@),
    }
}

/// Builds the envelope of a status from the request's ids and the
/// serialized payload.
pub fn pack_status(header: Header, data: Vec<u8>) -> (message: GrrMessage)
    ensures
        message@ == status_envelope(header@, data@),
{
    GrrMessage {
        session_id: Some(header.session_id),
        request_id: Some(header.request_id),
        response_id: None,
        name: None,
        message_type: Some(MessageType::Status),
        args: Some(data),
        args_rdf_name: Some(String::from_str("GrrStatus")),
    }
}

impl Status {
    /// The payload that reports this outcome.
    pub fn payload(&self) -> (payload: GrrStatus)
        ensures
            payload@ == status_payload(self.result),
    {
        match &self.result {
            Ok(_) => GrrStatus { status: Some(ReturnedStatus::Success), error_message: None },
            Err(error) => GrrStatus {
                status: Some(ReturnedStatus::GenericError),
                error_message: Some(error.to_string()),
            },
        }
    }

    /// Serializes the status into its envelope.
    ///
    /// `encode` is handed the payload that reports the outcome. Its bytes
    /// become the payload of a status envelope for the request; its error
    /// comes back unchanged.
    pub fn try_into<E>(self, encode: E) -> (result: Result<GrrMessage, EncodeError>) where
        E: FnOnce(GrrStatus) -> Result<Vec<u8>, EncodeError>,

        requires
            forall|payload: GrrStatus|
                payload@ == status_payload(self.result) ==> call_requires(encode, (payload,)),
        ensures
            (exists|payload: GrrStatus, encoded: Result<Vec<u8>, EncodeError>|
                payload@ == status_payload(self.result) && #[trigger] call_ensures(
                    encode,
                    (payload,),
                    encoded,
                ) && match encoded {
                    Ok(data) => result matches Ok(message) && message@ == status_envelope(
                        self.header@,
                        data@,
                    ),
                    Err(error) => result == Err::<GrrMessage, EncodeError>(error),
                }),
    {
        let payload = self.payload();
        match encode(payload) {
            Ok(data) => Ok(pack_status(self.header, data)),
            Err(error) => Err(error),
        }
    }
}

} // verus!
