//! Action requests: what an inbound envelope must carry to be one.

use crate::action::Args;
use crate::action::ParseArgsError;
use crate::proto::GrrMessage;
use crate::proto::GrrMessageView;
use vstd::prelude::*;
use vstd::std_specs::cmp::PartialEqSpecImpl;
use vstd::std_specs::convert::FromSpecImpl;
use vstd::std_specs::convert::TryFromSpecImpl;

verus! {

/// An action request message.
#[derive(Debug)]
pub struct Request {
    /// A unique id of the request.
    id: RequestId,
    /// A name of the action to execute.
    action: String,
    /// Serialized message with request arguments.
    serialized_args: Option<Vec<u8>>,
}

/// A unique identifier of a request.
#[derive(Clone, Debug, Eq, Hash)]
pub struct RequestId {
    /// A server-issued session identifier (usually corresponds to a flow).
    session_id: String,
    /// A server-issued request identifier.
    request_id: u64,
}

/// Mathematical content of a [`RequestId`].
pub struct RequestIdView {
    pub session_id: Seq<char>,
    pub request_id: u64,
}

/// Mathematical content of a [`Request`].
pub struct RequestView {
    pub id: RequestIdView,
    pub action: Seq<char>,
    pub serialized_args: Option<Seq<u8>>,
}

impl View for RequestId {
    type V = RequestIdView;

    closed spec fn view(&self) -> RequestIdView {
        RequestIdView { session_id: self.session_id@, request_id: self.request_id }
    }
}

impl PartialEq for RequestId {
    /// Two ids are equal when they name the same request of the same
    /// session.
    fn eq(&self, other: &RequestId) -> (equal: bool) {
        self.session_id == other.session_id && self.request_id == other.request_id
    }
}

impl PartialEqSpecImpl for RequestId {
    open spec fn obeys_eq_spec() -> bool {
        true
    }

    open spec fn eq_spec(&self, other: &RequestId) -> bool {
        self@ == other@
    }
}

impl View for Request {
    type V = RequestView;

    closed spec fn view(&self) -> RequestView {
        RequestView {
            id: self.id@,
            action: self.action@,
            serialized_args: crate::proto::bytes_of(self.serialized_args),
        }
    }
}

/// Kinds of errors that can happen when parsing an action request.
#[derive(Clone, Copy, Debug, PartialEq, Eq, Hash, Structural)]
pub enum ParseRequestErrorKind {
    /// No session identifier in the action request message.
    NoSessionId,
    /// No request identifier in the action request message.
    NoRequestId,
    /// No action name in the action request message.
    NoActionName,
}

/// The error type for cases when action request parsing fails.
#[derive(Debug)]
pub struct ParseRequestError {
    /// A corresponding [`ParseRequestErrorKind`] of this error.
    kind: ParseRequestErrorKind,
}

/// What decoding makes of an envelope: the request it carries, or the first
/// of session id, request id and action name that it lacks.
pub open spec fn decode_request(proto: GrrMessageView) -> Result<
    RequestView,
    ParseRequestErrorKind,
> {
    if proto.session_id is None {
        Err(ParseRequestErrorKind::NoSessionId)
    } else if proto.request_id is None {
        Err(ParseRequestErrorKind::NoRequestId)
    } else if proto.name is None {
        Err(ParseRequestErrorKind::NoActionName)
    } else {
        Ok(
            RequestView {
                id: RequestIdView {
                    session_id: proto.session_id->Some_0,
                    request_id: proto.request_id->Some_0,
                },
                action: proto.name->Some_0,
                serialized_args: proto.args,
            },
        )
    }
}

/// How reading argument bytes as `A` may end: with what `A` makes of the
/// bytes, or, where there are none, with what `A` makes of their absence.
pub open spec fn args_parsed_as<A: Args>(
    serialized_args: Option<Seq<u8>>,
    result: Result<A, ParseArgsError>,
) -> bool {
    match serialized_args {
        Some(bytes) => exists|raw: &[u8]|
            raw@ == bytes && #[trigger] call_ensures(A::from_bytes, (raw,), result),
        None => call_ensures(A::from_default, (), result),
    }
}

impl RequestId {
    /// The server-issued session identifier.
    pub fn session_id(&self) -> (session_id: &str)
        ensures
            session_id@ == self@.session_id,
    {
        self.session_id.as_str()
    }

    /// The server-issued request identifier.
    pub fn request_id(&self) -> (request_id: u64)
        ensures
            request_id == self@.request_id,
    {
        self.request_id
    }
}

impl Request {
    /// The unique id of the request.
    pub fn id(&self) -> (id: &RequestId)
        ensures
            id@ == self@.id,
    {
        &self.id
    }

    /// The name of the action to execute.
    pub fn action(&self) -> (action: &str)
        ensures
            action@ == self@.action,
    {
        self.action.as_str()
    }

    /// The serialized arguments, if the request came with any.
    pub fn serialized_args(&self) -> (args: Option<&Vec<u8>>)
        ensures
            (match args {
                Some(bytes) => self@.serialized_args == Some(bytes@),
                None => self@.serialized_args is None,
            }),
    {
        self.serialized_args.as_ref()
    }

    /// Parses the action arguments stored in this request.
    ///
    /// At the moment the request is received we don't know yet what is the
    /// type of the arguments it contains and so we cannot interpret it. Once
    /// the request is dispatched to an appropriate action handler, we can
    /// parse the arguments to a concrete type. Bytes that are present go to
    /// `A`'s reader; absent bytes are no error, and `A` says what stands for
    /// them.
    pub fn parse_args<A: Args>(&self) -> (result: Result<A, ParseArgsError>)
        ensures
            args_parsed_as::<A>(self@.serialized_args, result),
    {
        match &self.serialized_args {
            Some(bytes) => A::from_bytes(bytes.as_slice()),
            None => A::from_default(),
        }
    }
}

impl ParseRequestErrorKind {
    /// The message that describes this kind of error.
    pub open spec fn message(self) -> Seq<char> {
        match self {
            ParseRequestErrorKind::NoSessionId => "no session id in the action request"@,
            ParseRequestErrorKind::NoRequestId => "no request id in the action request"@,
            ParseRequestErrorKind::NoActionName => "no action name in the action request"@,
        }
    }

    pub fn as_str(&self) -> (text: &'static str)
        ensures
            text@ == self.message(),
    {
        match *self {
            ParseRequestErrorKind::NoSessionId => "no session id in the action request",
            ParseRequestErrorKind::NoRequestId => "no request id in the action request",
            ParseRequestErrorKind::NoActionName => "no action name in the action request",
        }
    }
}

impl ParseRequestError {
    /// The kind of this error, in specifications.
    pub closed spec fn spec_kind(&self) -> ParseRequestErrorKind {
        self.kind
    }

    /// Returns the corresponding [`ParseRequestErrorKind`] of this error.
    #[verifier::when_used_as_spec(spec_kind)]
    pub fn kind(&self) -> (kind: ParseRequestErrorKind)
        ensures
            kind == self.spec_kind(),
    {
        self.kind
    }

    /// The message of this error, as it is shown to a reader.
    pub fn to_string(&self) -> (text: String)
        ensures
            text@ == self.kind().message(),
    {
        String::from_str(self.kind.as_str())
    }
}

impl From<ParseRequestErrorKind> for ParseRequestError {
    fn from(kind: ParseRequestErrorKind) -> (error: ParseRequestError)
        ensures
            error.kind() == kind,
    {
        ParseRequestError { kind }
    }
}

impl FromSpecImpl<ParseRequestErrorKind> for ParseRequestError {
    open spec fn obeys_from_spec() -> bool {
        true
    }

    closed spec fn from_spec(kind: ParseRequestErrorKind) -> ParseRequestError {
        ParseRequestError { kind }
    }
}

impl TryFrom<GrrMessage> for Request {
    type Error = ParseRequestError;

    /// Decodes the request that an envelope carries.
    ///
    /// Succeeds exactly when session id, request id and action name are all
    /// present, and then keeps each of them, and the argument bytes, as they
    /// came. Otherwise the error names the first of the three that is
    /// missing. The argument bytes are never looked into.
    fn try_from(proto: GrrMessage) -> (result: Result<Request, ParseRequestError>)
        ensures
            (match decode_request(proto@) {
                Ok(request) => result matches Ok(decoded) && decoded@ == request,
                Err(kind) => result matches Err(error) && error.kind() == kind,
            }),
    {
        let session_id = match proto.session_id {
            Some(session_id) => session_id,
            None => {
                return Err(ParseRequestError::from(ParseRequestErrorKind::NoSessionId));
            },
        };
        let request_id = match proto.request_id {
            Some(request_id) => request_id,
            None => {
                return Err(ParseRequestError::from(ParseRequestErrorKind::NoRequestId));
            },
        };
        let id = RequestId { session_id, request_id };

        let action = match proto.name {
            Some(name) => name,
            None => {
                return Err(ParseRequestError::from(ParseRequestErrorKind::NoActionName));
            },
        };

        Ok(Request { id, action, serialized_args: proto.args })
    }
}

impl TryFromSpecImpl<GrrMessage> for Request {
    open spec fn obeys_try_from_spec() -> bool {
        true
    }

    closed spec fn try_from_spec(proto: GrrMessage) -> Result<Request, ParseRequestError> {
        if proto.session_id is None {
            Err(ParseRequestError { kind: ParseRequestErrorKind::NoSessionId })
        } else if proto.request_id is None {
            Err(ParseRequestError { kind: ParseRequestErrorKind::NoRequestId })
        } else if proto.name is None {
            Err(ParseRequestError { kind: ParseRequestErrorKind::NoActionName })
        } else {
            Ok(
                Request {
                    id: RequestId {
                        session_id: proto.session_id->Some_0,
                        request_id: proto.request_id->Some_0,
                    },
                    action: proto.name->Some_0,
                    serialized_args: proto.args,
                },
            )
        }
    }
}

/// An envelope that carries session id, request id and action name always
/// decodes, and the request holds each of them, and the argument bytes,
/// exactly as the envelope did.
pub proof fn lemma_complete_request_decodes(proto: GrrMessageView)
    requires
        proto.session_id is Some,
        proto.request_id is Some,
        proto.name is Some,
    ensures
        decode_request(proto) is Ok,
        Some(decode_request(proto)->Ok_0.id.session_id) == proto.session_id,
        Some(decode_request(proto)->Ok_0.id.request_id) == proto.request_id,
        Some(decode_request(proto)->Ok_0.action) == proto.name,
        decode_request(proto)->Ok_0.serialized_args == proto.args,
{
}

/// An envelope that lacks one of session id, request id and action name
/// never decodes, and where it lacks exactly one, the error is of the kind
/// that names that one.
pub proof fn lemma_incomplete_request_is_refused(proto: GrrMessageView)
    requires
        proto.session_id is None || proto.request_id is None || proto.name is None,
    ensures
        decode_request(proto) is Err,
        proto.request_id is Some && proto.name is Some ==> decode_request(proto) == Err::<
            RequestView,
            ParseRequestErrorKind,
        >(ParseRequestErrorKind::NoSessionId),
        proto.session_id is Some && proto.name is Some ==> decode_request(proto) == Err::<
            RequestView,
            ParseRequestErrorKind,
        >(ParseRequestErrorKind::NoRequestId),
        proto.session_id is Some && proto.request_id is Some ==> decode_request(proto) == Err::<
            RequestView,
            ParseRequestErrorKind,
        >(ParseRequestErrorKind::NoActionName),
{
}

} // verus!
