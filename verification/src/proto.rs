//! The wire envelope and the status payload, by their logical fields.

use vstd::prelude::*;

verus! {

/// Tells an ordinary data response from the status that ends a request.
#[derive(Clone, Copy, Debug, PartialEq, Eq, Structural)]
pub enum MessageType {
    Message,
    Status,
}

/// Outcome that a status payload reports.
#[derive(Clone, Copy, Debug, PartialEq, Eq, Structural)]
pub enum ReturnedStatus {
    /// The request ran to its end.
    Success,
    /// The request failed; the payload says why.
    GenericError,
}

/// One envelope as it travels between the agent and the control server.
#[derive(Clone, Debug, PartialEq, Eq)]
pub struct GrrMessage {
    /// Identifier of the flow that the envelope belongs to.
    pub session_id: Option<String>,
    /// Number of the request within its flow.
    pub request_id: Option<u64>,
    /// Number of the response within its request.
    pub response_id: Option<u64>,
    /// Name of the action to run.
    pub name: Option<String>,
    /// Whether this is a data response or a status.
    pub message_type: Option<MessageType>,
    /// Serialized payload, opaque at this level.
    pub args: Option<Vec<u8>>,
    /// Type name of the payload, for the far end's diagnostics.
    pub args_rdf_name: Option<String>,
}

/// Mathematical content of a [`GrrMessage`].
pub struct GrrMessageView {
    pub session_id: Option<Seq<char>>,
    pub request_id: Option<u64>,
    pub response_id: Option<u64>,
    pub name: Option<Seq<char>>,
    pub message_type: Option<MessageType>,
    pub args: Option<Seq<u8>>,
    pub args_rdf_name: Option<Seq<char>>,
}

/// Characters of an optional string.
pub open spec fn text_of(value: Option<String>) -> Option<Seq<char>> {
    match value {
        Some(text) => Some(text@),
        None => None,
    }
}

/// Bytes of an optional buffer.
pub open spec fn bytes_of(value: Option<Vec<u8>>) -> Option<Seq<u8>> {
    match value {
        Some(bytes) => Some(bytes@),
        None => None,
    }
}

impl GrrMessageView {
    /// The envelope with every field absent.
    pub open spec fn empty() -> GrrMessageView {
        GrrMessageView {
            session_id: None,
            request_id: None,
            response_id: None,
            name: None,
            message_type: None,
            args: None,
            args_rdf_name: None,
        }
    }
}

impl View for GrrMessage {
    type V = GrrMessageView;

    open spec fn view(&self) -> GrrMessageView {
        GrrMessageView {
            session_id: text_of(self.session_id),
            request_id: self.request_id,
            response_id: self.response_id,
            name: text_of(self.name),
            message_type: self.message_type,
            args: bytes_of(self.args),
            args_rdf_name: text_of(self.args_rdf_name),
        }
    }
}

impl Default for GrrMessage {
    fn default() -> (message: GrrMessage)
        ensures
            message@ == GrrMessageView::empty(),
    {
        GrrMessage {
            session_id: None,
            request_id: None,
            response_id: None,
            name: None,
            message_type: None,
            args: None,
            args_rdf_name: None,
        }
    }
}

/// Payload of a status envelope.
#[derive(Clone, Debug, PartialEq, Eq)]
pub struct GrrStatus {
    /// How the request ended.
    pub status: Option<ReturnedStatus>,
    /// Human-readable account of the failure, if there was one.
    pub error_message: Option<String>,
}

/// Mathematical content of a [`GrrStatus`].
pub struct GrrStatusView {
    pub status: Option<ReturnedStatus>,
    pub error_message: Option<Seq<char>>,
}

impl View for GrrStatus {
    type V = GrrStatusView;

    open spec fn view(&self) -> GrrStatusView {
        GrrStatusView { status: self.status, error_message: text_of(self.error_message) }
    }
}

impl Default for GrrStatus {
    fn default() -> (status: GrrStatus)
        ensures
            status@ == (GrrStatusView { status: None, error_message: None }),
    {
        GrrStatus { status: None, error_message: None }
    }
}

/// Views of the envelopes in a list, in the same order.
pub open spec fn views_of(messages: Seq<GrrMessage>) -> Seq<GrrMessageView> {
    messages.map_values(|message: GrrMessage| message@)
}

/// Adding an envelope to a list adds its view to the list's views.
pub proof fn lemma_views_of_push(messages: Seq<GrrMessage>, message: GrrMessage)
    ensures
        views_of(messages.push(message)) == views_of(messages).push(message@),
{
    assert(views_of(messages.push(message)) =~= views_of(messages).push(message@));
}

} // verus!
