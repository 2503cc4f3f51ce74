//! Demands: what an inbound envelope must carry to start an action.

use crate::action;
use crate::action::DecodeError;
use crate::proto::bytes_of;
use crate::proto::GrrMessage;
use crate::proto::GrrMessageView;
use crate::session::error::ParseError;
use crate::session::error::ParseErrorView;
use vstd::prelude::*;
use vstd::std_specs::convert::TryFromSpecImpl;

verus! {

/// Identity of the request that a session serves.
#[derive(Debug)]
pub struct Header {
    pub session_id: String,
    pub request_id: u64,
}

/// Mathematical content of a [`Header`].
pub struct HeaderView {
    pub session_id: Seq<char>,
    pub request_id: u64,
}

impl View for Header {
    type V = HeaderView;

    open spec fn view(&self) -> HeaderView {
        HeaderView { session_id: self.session_id@, request_id: self.request_id }
    }
}

impl Clone for Header {
    fn clone(&self) -> (copy: Header)
        ensures
            copy == *self,
    {
        Header { session_id: self.session_id.clone(), request_id: self.request_id }
    }
}

/// Argument bytes of a demand, not yet read as any type.
#[derive(Debug)]
pub struct Payload(Option<Vec<u8>>);

impl View for Payload {
    type V = Option<Seq<u8>>;

    closed spec fn view(&self) -> Option<Seq<u8>> {
        bytes_of(self.0)
    }
}

/// A decoded instruction to run one action.
#[derive(Debug)]
pub struct Demand {
    pub action: String,
    pub header: Header,
    pub payload: Payload,
}

/// Mathematical content of a [`Demand`].
pub struct DemandView {
    pub action: Seq<char>,
    pub header: HeaderView,
    pub payload: Option<Seq<u8>>,
}

impl View for Demand {
    type V = DemandView;

    open spec fn view(&self) -> DemandView {
        DemandView { action: self.action@, header: self.header@, payload: self.payload@ }
    }
}

/// What decoding makes of an envelope: the demand it carries, or the first
/// of session id, request id and action name that it lacks.
pub open spec fn decode_demand(message: GrrMessageView) -> Result<DemandView, ParseErrorView> {
    if message.session_id is None {
        Err(ParseErrorView::MissingField("session id"@))
    } else if message.request_id is None {
        Err(ParseErrorView::MissingField("request id"@))
    } else if message.name is None {
        Err(ParseErrorView::MissingField("action name"@))
    } else {
        Ok(
            DemandView {
                action: message.name->Some_0,
                header: HeaderView {
                    session_id: message.session_id->Some_0,
                    request_id: message.request_id->Some_0,
                },
                payload: message.args,
            },
        )
    }
}

impl TryFrom<GrrMessage> for Demand {
    type Error = ParseError;

    /// Decodes the demand that an envelope carries.
    ///
    /// Succeeds exactly when session id, request id and action name are all
    /// present, and then keeps each of them, and the argument bytes, as they
    /// came. Otherwise the error names the first of the three that is
    /// missing, and no part of a demand comes out.
    fn try_from(message: GrrMessage) -> (result: Result<Demand, ParseError>)
        ensures
            (match decode_demand(message@) {
                Ok(demand) => result matches Ok(decoded) && decoded@ == demand,
                Err(error) => result matches Err(found) && found@ == error,
            }),
    {
        let session_id = match message.session_id {
            Some(session_id) => session_id,
            None => {
                return Err(ParseError::MissingField("session id"));
            },
        };
        let request_id = match message.request_id {
            Some(request_id) => request_id,
            None => {
                return Err(ParseError::MissingField("request id"));
            },
        };
        let header = Header { session_id, request_id };

        let action = match message.name {
            Some(name) => name,
            None => {
                return Err(ParseError::MissingField("action name"));
            },
        };

        Ok(Demand { action, header, payload: Payload(message.args) })
    }
}

impl TryFromSpecImpl<GrrMessage> for Demand {
    open spec fn obeys_try_from_spec() -> bool {
        true
    }

    closed spec fn try_from_spec(message: GrrMessage) -> Result<Demand, ParseError> {
        if message.session_id is None {
            Err(ParseError::MissingField("session id"))
        } else if message.request_id is None {
            Err(ParseError::MissingField("request id"))
        } else if message.name is None {
            Err(ParseError::MissingField("action name"))
        } else {
            Ok(
                Demand {
                    action: message.name->Some_0,
                    header: Header {
                        session_id: message.session_id->Some_0,
                        request_id: message.request_id->Some_0,
                    },
                    payload: Payload(message.args),
                },
            )
        }
    }
}

/// How reading a payload as `R` may end: with what `R` makes of the bytes,
/// or, where there are none, with the value that `R` keeps for that case.
pub open spec fn parsed_as<R: action::Request>(
    payload: Option<Seq<u8>>,
    result: Result<R, ParseError>,
) -> bool {
    match payload {
        Some(bytes) => exists|raw: &[u8], decoded: Result<R, DecodeError>|
            raw@ == bytes && #[trigger] call_ensures(R::from_bytes, (raw,), decoded)
                && result == match decoded {
                Ok(request) => Ok::<R, ParseError>(request),
                Err(error) => Err::<R, ParseError>(ParseError::Decode(error)),
            },
        None => exists|request: R| #[trigger]
            call_ensures(R::from_default, (), request) && result == Ok::<R, ParseError>(request),
    }
}

impl Payload {
    /// Wraps argument bytes as they came off the wire.
    pub fn new(bytes: Option<Vec<u8>>) -> (payload: Payload)
        ensures
            payload@ == bytes_of(bytes),
    {
        Payload(bytes)
    }

    /// Reads the payload as the argument type of the action about to run.
    ///
    /// Bytes that are present go to `R`'s decoder, whose failure comes back
    /// as [`ParseError::Decode`]. Absent bytes are no error: they give the
    /// value that `R` keeps for that case.
    pub fn parse<R: action::Request>(&self) -> (result: Result<R, ParseError>)
        ensures
            parsed_as::<R>(self@, result),
    {
        match &self.0 {
            Some(bytes) => {
                match R::from_bytes(bytes.as_slice()) {
                    Ok(request) => Ok(request),
                    Err(error) => Err(ParseError::Decode(error)),
                }
            },
            None => Ok(R::from_default()),
        }
    }
}

/// An envelope that carries session id, request id and action name always
/// decodes, and the demand holds each of them, and the argument bytes,
/// exactly as the envelope did.
pub proof fn lemma_complete_demand_decodes(message: GrrMessageView)
    requires
        message.session_id is Some,
        message.request_id is Some,
        message.name is Some,
    ensures
        decode_demand(message) is Ok,
        Some(decode_demand(message)->Ok_0.header.session_id) == message.session_id,
        Some(decode_demand(message)->Ok_0.header.request_id) == message.request_id,
        Some(decode_demand(message)->Ok_0.action) == message.name,
        decode_demand(message)->Ok_0.payload == message.args,
{
}

/// An envelope that lacks one of session id, request id and action name
/// never decodes, and where it lacks exactly one, the error names that one.
pub proof fn lemma_incomplete_demand_is_refused(message: GrrMessageView)
    requires
        message.session_id is None || message.request_id is None || message.name is None,
    ensures
        decode_demand(message) is Err,
        message.request_id is Some && message.name is Some ==> decode_demand(message) == Err::<
            DemandView,
            ParseErrorView,
        >(ParseErrorView::MissingField("session id"@)),
        message.session_id is Some && message.name is Some ==> decode_demand(message) == Err::<
            DemandView,
            ParseErrorView,
        >(ParseErrorView::MissingField("request id"@)),
        message.session_id is Some && message.request_id is Some ==> decode_demand(message)
            == Err::<DemandView, ParseErrorView>(ParseErrorView::MissingField("action name"@)),
{
}

} // verus!
