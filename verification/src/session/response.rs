//! Responses: how a result of an action becomes an envelope, and where it
//! is addressed.

use crate::action;
use crate::action::EncodeError;
use crate::proto::lemma_views_of_push;
use crate::proto::views_of;
use crate::proto::GrrMessage;
use crate::proto::GrrMessageView;
use crate::proto::MessageType;
use crate::session::error::Error;
use vstd::prelude::*;
use vstd::string::StringExecFns;

verus! {

/// The envelope of one data response.
pub open spec fn response_envelope(
    session_id: Seq<char>,
    request_id: Option<u64>,
    response_id: Option<u64>,
    rdf_name: Option<Seq<char>>,
    data: Seq<u8>,
) -> GrrMessageView {
    GrrMessageView {
        session_id: Some(session_id),
        request_id,
        response_id,
        name: None,
        message_type: Some(MessageType::Message),
        args: Some(data),
        args_rdf_name: rdf_name,
    }
}

/// Characters of an optional type name.
pub open spec fn name_of(rdf_name: Option<&'static str>) -> Option<Seq<char>> {
    match rdf_name {
        Some(name) => Some(name@),
        None => None,
    }
}

/// Type name under which values of `R` travel.
pub open spec fn rdf_name_of<R: action::Response>() -> Option<Seq<char>> {
    name_of(R::RDF_NAME)
}

/// How handing one response over for sending ends, given what its encoder
/// answered: the envelope joins the end of the list, or the encoder's error
/// comes back and the list stays as it was.
pub open spec fn submitted(
    before: Seq<GrrMessageView>,
    session_id: Seq<char>,
    request_id: Option<u64>,
    response_id: Option<u64>,
    rdf_name: Option<Seq<char>>,
    encoded: Result<Vec<u8>, EncodeError>,
    after: Seq<GrrMessageView>,
    result: Result<(), Error>,
) -> bool {
    match encoded {
        Ok(data) => result is Ok && after == before.push(
            response_envelope(session_id, request_id, response_id, rdf_name, data@),
        ),
        Err(error) => result == Err::<(), Error>(Error::Encode(error)) && after == before,
    }
}

/// Whether every envelope in the list is a data response.
pub open spec fn only_responses(messages: Seq<GrrMessageView>) -> bool {
    forall|i: int|
        0 <= i < messages.len() ==> (#[trigger] messages[i]).message_type == Some(
            MessageType::Message,
        )
}

/// Builds the envelope of one data response from its parts.
pub fn pack_response(
    session_id: String,
    request_id: Option<u64>,
    response_id: Option<u64>,
    rdf_name: Option<&'static str>,
    data: Vec<u8>,
) -> (message: GrrMessage)
    ensures
        message@ == response_envelope(
            session_id@,
            request_id,
            response_id,
            name_of(rdf_name),
            data@,
        ),
{
    let args_rdf_name = match rdf_name {
        Some(name) => Some(String::from_str(name)),
        None => None,
    };
    GrrMessage {
        session_id: Some(session_id),
        request_id,
        response_id,
        name: None,
        message_type: Some(MessageType::Message),
        args: Some(data),
        args_rdf_name,
    }
}

/// One result of an action, addressed and ready to be serialized.
#[derive(Debug)]
pub struct Response<R: action::Response> {
    pub session_id: String,
    pub request_id: Option<u64>,
    pub response_id: Option<u64>,
    pub data: R,
}

impl<R: action::Response> Response<R> {
    /// Serializes the response into its envelope.
    ///
    /// Whatever the encoder of `R` answers for the data decides: its bytes
    /// become the payload of a data envelope that carries this response's
    /// ids and `R`'s type name, and its error comes back unchanged.
    pub fn try_into(self) -> (result: Result<GrrMessage, EncodeError>)
        ensures
            (exists|encoded: Result<Vec<u8>, EncodeError>| #[trigger]
                call_ensures(R::encode, (self.data,), encoded) && match encoded {
                    Ok(data) => result matches Ok(message) && message@ == response_envelope(
                        self.session_id@,
                        self.request_id,
                        self.response_id,
                        rdf_name_of::<R>(),
                        data@,
                    ),
                    Err(error) => result == Err::<GrrMessage, EncodeError>(error),
                }),
    {
        match self.data.encode() {
            Ok(data) => Ok(
                pack_response(
                    self.session_id,
                    self.request_id,
                    self.response_id,
                    R::RDF_NAME,
                    data,
                ),
            ),
            Err(error) => Err(error),
        }
    }

    /// Serializes the response and hands its envelope over for sending.
    ///
    /// On success the envelope is the new last entry of `outbox`. Where the
    /// encoder fails, `outbox` is untouched and the failure comes back as
    /// [`Error::Encode`].
    pub fn send(self, outbox: &mut Vec<GrrMessage>) -> (result: Result<(), Error>)
        ensures
            exists|encoded: Result<Vec<u8>, EncodeError>| #[trigger]
                call_ensures(R::encode, (self.data,), encoded) && submitted(
                    views_of(old(outbox)@),
                    self.session_id@,
                    self.request_id,
                    self.response_id,
                    rdf_name_of::<R>(),
                    encoded,
                    views_of(final(outbox)@),
                    result,
                ),
            result is Err ==> final(outbox)@ == old(outbox)@,
    {
        match self.try_into() {
            Ok(message) => {
                proof {
                    lemma_views_of_push(outbox@, message);
                }
                outbox.push(message);
                Ok(())
            },
            Err(error) => Err(Error::Encode(error)),
        }
    }
}

/// A fixed destination for reports that answer no request.
#[derive(Debug)]
pub struct Sink {
    id: &'static str,
}

impl View for Sink {
    type V = Seq<char>;

    closed spec fn view(&self) -> Seq<char> {
        self.id@
    }
}

/// The sink to which an agent reports that it has started.
pub fn startup() -> (sink: Sink)
    ensures
        sink@ == "/flows/F:Startup"@,
{
    Sink { id: "/flows/F:Startup" }
}

impl Sink {
    /// The session id under which everything sent to this sink travels.
    pub fn id(&self) -> (id: &'static str)
        ensures
            id@ == self@,
    {
        self.id
    }

    /// Addresses a response to this sink: the sink's id stands in for the
    /// session id, and the response answers no request.
    pub fn wrap<R: action::Response>(&self, response: R) -> (wrapped: Response<R>)
        ensures
            wrapped.session_id@ == self@,
            wrapped.request_id is None,
            wrapped.response_id is None,
            wrapped.data == response,
    {
        Response {
            session_id: String::from_str(self.id),
            request_id: None,
            response_id: None,
            data: response,
        }
    }
}

} // verus!
