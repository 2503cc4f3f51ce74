//! Sessions: the handle through which a running action sends its results.
//!
//! A session never performs a send itself. It keeps, oldest first, the
//! envelopes that it hands over for sending; whoever owns the transport
//! delivers them in that order.

mod demand;
mod error;
mod response;
mod status;

pub use self::demand::decode_demand;
pub use self::demand::lemma_complete_demand_decodes;
pub use self::demand::lemma_incomplete_demand_is_refused;
pub use self::demand::parsed_as;
pub use self::demand::Demand;
pub use self::demand::DemandView;
pub use self::demand::Header;
pub use self::demand::HeaderView;
pub use self::demand::Payload;
pub use self::error::Error;
pub use self::error::ErrorView;
pub use self::error::ParseError;
pub use self::error::ParseErrorView;
pub use self::response::name_of;
pub use self::response::only_responses;
pub use self::response::pack_response;
pub use self::response::rdf_name_of;
pub use self::response::response_envelope;
pub use self::response::startup;
pub use self::response::submitted;
pub use self::response::Response;
pub use self::response::Sink;
pub use self::status::pack_status;
pub use self::status::status_envelope;
pub use self::status::status_payload;
pub use self::status::Status;
use crate::action;
use crate::action::EncodeError;
use crate::proto::lemma_views_of_push;
use crate::proto::views_of;
use crate::proto::GrrMessage;
use crate::proto::GrrMessageView;
use crate::proto::GrrStatus;
use crate::proto::MessageType;
use vstd::prelude::*;

verus! {

/// The handle through which a running action sends its results.
pub trait Session {
    /// The envelopes handed over for sending so far, oldest first.
    spec fn sent(&self) -> Seq<GrrMessageView>;

    /// Answers the request that the session serves.
    ///
    /// Whatever the kind of session, what was handed over before stays, at
    /// most one envelope joins it, and none does where the call fails.
    fn reply<R: action::Response>(&mut self, response: R) -> (result: Result<(), Error>)
        ensures
            old(self).sent().is_prefix_of(final(self).sent()),
            final(self).sent().len() <= old(self).sent().len() + 1,
            result is Err ==> final(self).sent() == old(self).sent(),
    ;

    /// Sends a report to a sink.
    ///
    /// Whatever the kind of session, the envelope has the sink's id for its
    /// session id and neither request id nor response id; it is handed over
    /// unless the encoder of `R` fails, and then that error comes back.
    fn send<R: action::Response>(&mut self, sink: Sink, response: R) -> (result: Result<
        (),
        Error,
    >)
        ensures
            exists|encoded: Result<Vec<u8>, EncodeError>| #[trigger]
                call_ensures(R::encode, (response,), encoded) && submitted(
                    old(self).sent(),
                    sink@,
                    None,
                    None,
                    rdf_name_of::<R>(),
                    encoded,
                    final(self).sent(),
                    result,
                ),
    ;
}

/// A session that serves no request: it can report to sinks, and has no one
/// to reply to.
#[derive(Debug)]
pub struct Adhoc {
    outbox: Vec<GrrMessage>,
}

impl Adhoc {
    /// A session that has sent nothing yet.
    pub fn new() -> (session: Adhoc)
        ensures
            session.sent() == Seq::<GrrMessageView>::empty(),
    {
        let session = Adhoc { outbox: Vec::new() };
        assert(session.sent() =~= Seq::<GrrMessageView>::empty());
        session
    }

    /// Ends the session and gives out what it handed over for sending.
    pub fn into_outbox(self) -> (outbox: Vec<GrrMessage>)
        ensures
            views_of(outbox@) == self.sent(),
    {
        self.outbox
    }
}

impl Session for Adhoc {
    closed spec fn sent(&self) -> Seq<GrrMessageView> {
        views_of(self.outbox@)
    }

    /// Drops the response: there is no request that it could answer.
    /// Nothing is sent, and the call succeeds.
    fn reply<R: action::Response>(&mut self, response: R) -> (result: Result<(), Error>)
        ensures
            result is Ok,
            final(self).sent() == old(self).sent(),
    {
        Ok(())
    }

    fn send<R: action::Response>(&mut self, sink: Sink, response: R) -> (result: Result<
        (),
        Error,
    >) {
        sink.wrap(response).send(&mut self.outbox)
    }
}

/// A session bound to one request, which numbers its replies.
#[derive(Debug)]
pub struct Action {
    header: Header,
    next_response_id: u64,
    outbox: Vec<GrrMessage>,
}

/// Mathematical content of an [`Action`] session.
pub struct ActionView {
    /// The request that the session serves.
    pub header: HeaderView,
    /// The number that the next reply will carry.
    pub next_response_id: u64,
    /// The envelopes handed over for sending so far, oldest first.
    pub sent: Seq<GrrMessageView>,
}

impl ActionView {
    /// The session that has just been made for a request.
    pub open spec fn fresh(header: HeaderView) -> ActionView {
        ActionView { header, next_response_id: 0, sent: Seq::empty() }
    }

    /// What holds of every session: each reply so far took one number and
    /// left one envelope, so the count of replies never runs ahead of the
    /// list; and the list holds data responses only.
    pub open spec fn valid(self) -> bool {
        &&& self.next_response_id <= self.sent.len()
        &&& only_responses(self.sent)
    }

    /// The envelope of the next reply, for a payload and its type name.
    pub open spec fn next_reply(self, rdf_name: Option<Seq<char>>, data: Seq<u8>) -> GrrMessageView {
        response_envelope(
            self.header.session_id,
            Some(self.header.request_id),
            Some(self.next_response_id),
            rdf_name,
            data,
        )
    }

    /// The session after a reply with the given payload went out.
    pub open spec fn replied(self, rdf_name: Option<Seq<char>>, data: Seq<u8>) -> ActionView {
        ActionView {
            header: self.header,
            next_response_id: (self.next_response_id + 1) as u64,
            sent: self.sent.push(self.next_reply(rdf_name, data)),
        }
    }
}

impl View for Action {
    type V = ActionView;

    closed spec fn view(&self) -> ActionView {
        ActionView {
            header: self.header@,
            next_response_id: self.next_response_id,
            sent: views_of(self.outbox@),
        }
    }
}

impl Action {
    #[verifier::type_invariant]
    spec fn inv(self) -> bool {
        self@.valid()
    }

    /// Makes the session for one request. Its first reply is number 0.
    pub fn new(header: Header) -> (session: Action)
        ensures
            session@ == ActionView::fresh(header@),
            session@.valid(),
            session.sent() == session@.sent,
    {
        let session = Action { header: header, next_response_id: 0, outbox: Vec::new() };
        assert(views_of(session.outbox@) =~= Seq::<GrrMessageView>::empty());
        session
    }

    /// Ends the session and gives out what it handed over for sending.
    pub fn into_outbox(self) -> (outbox: Vec<GrrMessage>)
        ensures
            views_of(outbox@) == self@.sent,
            self.sent() == self@.sent,
            self@.valid(),
    {
        proof {
            use_type_invariant(&self);
        }
        self.outbox
    }

    /// Moves the session out of its place and leaves a blank one there, for
    /// the moment in which the caller rebuilds it.
    fn take(&mut self) -> (session: Action)
        ensures
            session == *old(self),
    {
        let mut session = Action {
            header: Header { session_id: String::new(), request_id: 0 },
            next_response_id: 0,
            outbox: Vec::new(),
        };
        core::mem::swap(self, &mut session);
        session
    }
}

impl Session for Action {
    closed spec fn sent(&self) -> Seq<GrrMessageView> {
        views_of(self.outbox@)
    }

    /// Sends one reply to the request that the session serves.
    ///
    /// The reply carries the session's ids and the session's current
    /// number, which then goes up by one. Where the encoder of `R` fails,
    /// its error comes back and the session is as it was.
    fn reply<R: action::Response>(&mut self, response: R) -> (result: Result<(), Error>)
        ensures
            final(self).sent() == final(self)@.sent,
            final(self)@.valid(),
            (exists|encoded: Result<Vec<u8>, EncodeError>| #[trigger]
                call_ensures(R::encode, (response,), encoded) && match encoded {
                    Ok(data) => result is Ok && final(self)@ == old(self)@.replied(
                        rdf_name_of::<R>(),
                        data@,
                    ),
                    Err(error) => result == Err::<(), Error>(Error::Encode(error)) && final(self)@
                        == old(self)@,
                }),
    {
        // The list grows outside the session, which is put together again
        // once the count of replies matches the list.
        let session = self.take();
        proof {
            use_type_invariant(&session);
        }
        let Action { header, next_response_id, mut outbox } = session;
        let ghost before = views_of(outbox@);
        let result = Response {
            session_id: header.session_id.clone(),
            request_id: Some(header.request_id),
            response_id: Some(next_response_id),
            data: response,
        }.send(&mut outbox);
        assert(result is Ok ==> outbox.len() == before.len() + 1) by {
            assert(views_of(outbox@).len() == outbox@.len());
        }

        let next_response_id = if result.is_ok() {
            next_response_id + 1
        } else {
            next_response_id
        };
        *self = Action { header, next_response_id, outbox };
        result
    }

    /// Sends a report to a sink. The session's ids and its count of replies
    /// play no part and stay as they are.
    fn send<R: action::Response>(&mut self, sink: Sink, response: R) -> (result: Result<
        (),
        Error,
    >)
        ensures
            final(self).sent() == final(self)@.sent,
            final(self)@.valid(),
            final(self)@.header == old(self)@.header,
            final(self)@.next_response_id == old(self)@.next_response_id,
    {
        let session = self.take();
        proof {
            use_type_invariant(&session);
        }
        let Action { header, next_response_id, mut outbox } = session;
        let result = sink.wrap(response).send(&mut outbox);
        assert(views_of(outbox@).len() == outbox@.len());
        *self = Action { header, next_response_id, outbox };
        result
    }
}

/// Runs a handler on a session with the arguments that a payload holds.
///
/// The payload is read as the handler's argument type first. Where that
/// fails, the handler does not run, the session is untouched, and the
/// failure comes back as [`Error::Parse`]. Otherwise the handler runs once,
/// on this session and those arguments, and its result is the result.
pub fn execute<S, R, H>(session: &mut S, handler: H, payload: Payload) -> (result: Result<
    (),
    Error,
>) where S: Session, R: action::Request, H: FnOnce(&mut S, R) -> Result<(), Error>
    requires
        forall|bound: &mut S, request: R|
            *bound == *old(session) ==> call_requires(handler, (bound, request)),
    ensures
        (exists|parsed: Result<R, ParseError>|
            parsed_as::<R>(payload@, parsed) && match parsed {
                Ok(request) => exists|bound: &mut S|
                    *bound == *old(session) && *final(bound) == *final(session)
                        && #[trigger] call_ensures(handler, (bound, request), result),
                Err(error) => result == Err::<(), Error>(Error::Parse(error)) && *final(session)
                    == *old(session),
            }),
{
    match payload.parse::<R>() {
        Ok(request) => handler(session, request),
        Err(error) => Err(Error::Parse(error)),
    }
}

/// Handles one inbound message from decoding to status.
///
/// A message that is no demand is dropped: nothing is handed over for
/// sending. For a demand, `dispatch` runs the named action on a fresh
/// session for the demand's request. Everything that this session handed
/// over comes out first, in order, and every one of them is a data
/// response. Last comes the status of the action's result, as `encode`
/// serialized it. Where `encode` fails there is no status, and no second
/// attempt to report.
pub fn handle<M, D, E>(message: M, dispatch: D, encode: E) -> (sent: Vec<GrrMessage>) where
    M: TryInto<Demand, Error = ParseError>,
    D: FnOnce(&str, &mut Action, Payload) -> Result<(), Error>,
    E: FnOnce(GrrStatus) -> Result<Vec<u8>, EncodeError>,

    requires
        forall|name: &str, session: &mut Action, payload: Payload|
            session@ == ActionView::fresh(session@.header) ==> call_requires(
                dispatch,
                (name, session, payload),
            ),
        forall|payload: GrrStatus| call_requires(encode, (payload,)),
    ensures
        (exists|decoded: Result<Demand, ParseError>| #[trigger]
            call_ensures(M::try_into, (message,), decoded) && match decoded {
                Err(_) => views_of(sent@) == Seq::<GrrMessageView>::empty(),
                Ok(demand) => exists|
                    name: &str,
                    session: &mut Action,
                    result: Result<(), Error>,
                    payload: GrrStatus,
                    encoded: Result<Vec<u8>, EncodeError>,
                |
                    {
                        &&& name@ == demand.action@
                        &&& session@ == ActionView::fresh(demand.header@)
                        &&& #[trigger] call_ensures(
                            dispatch,
                            (name, session, demand.payload),
                            result,
                        )
                        &&& final(session)@.valid()
                        &&& payload@ == status_payload(result)
                        &&& #[trigger] call_ensures(encode, (payload,), encoded)
                        &&& views_of(sent@) == match encoded {
                            Ok(data) => final(session)@.sent.push(
                                status_envelope(demand.header@, data@),
                            ),
                            Err(_) => final(session)@.sent,
                        }
                    },
            }),
{
    let demand = match message.try_into() {
        Ok(demand) => demand,
        Err(_) => {
            let sent: Vec<GrrMessage> = Vec::new();
            assert(views_of(sent@) =~= Seq::<GrrMessageView>::empty());
            return sent;
        },
    };

    let mut session = Action::new(demand.header.clone());
    let result = dispatch(demand.action.as_str(), &mut session, demand.payload);
    let status = Status { header: demand.header, result: result };
    let mut sent = session.into_outbox();

    match status.try_into(encode) {
        Ok(message) => {
            proof {
                lemma_views_of_push(sent@, message);
            }
            sent.push(message);
        },
        Err(_) => {},
    }
    sent
}

impl ActionView {
    /// The session after one reply for each entry went out, in order. An
    /// entry is a reply's type name and its serialized payload.
    pub open spec fn replied_all(self, replies: Seq<(Option<Seq<char>>, Seq<u8>)>) -> ActionView
        decreases replies.len(),
    {
        if replies.len() == 0 {
            self
        } else {
            self.replied_all(replies.drop_last()).replied(replies.last().0, replies.last().1)
        }
    }
}

/// Consecutive replies are numbered without gaps. After a run of replies
/// the session still serves the same request, what it had handed over
/// before is untouched, and the run follows in order: its `i`-th reply
/// carries the session's ids and the number that the session was at plus
/// `i`. For a fresh session the numbers are 0, 1, and so on.
pub proof fn lemma_replies_are_numbered(
    session: ActionView,
    replies: Seq<(Option<Seq<char>>, Seq<u8>)>,
)
    requires
        session.valid(),
        session.sent.len() + replies.len() <= usize::MAX,
    ensures
        ({
            let after = session.replied_all(replies);
            &&& after.valid()
            &&& after.header == session.header
            &&& after.next_response_id == session.next_response_id + replies.len()
            &&& after.sent.len() == session.sent.len() + replies.len()
            &&& session.sent.is_prefix_of(after.sent)
            &&& forall|i: int|
                0 <= i < replies.len() ==> #[trigger] after.sent[session.sent.len() + i]
                    == response_envelope(
                    session.header.session_id,
                    Some(session.header.request_id),
                    Some((session.next_response_id + i) as u64),
                    replies[i].0,
                    replies[i].1,
                )
        }),
    decreases replies.len(),
{
    if replies.len() > 0 {
        let earlier = replies.drop_last();
        lemma_replies_are_numbered(session, earlier);
        let before = session.replied_all(earlier);
        let after = session.replied_all(replies);
        assert(after == before.replied(replies.last().0, replies.last().1));
        assert forall|i: int| 0 <= i < replies.len() implies #[trigger] after.sent[session.sent.len()
            + i] == response_envelope(
            session.header.session_id,
            Some(session.header.request_id),
            Some((session.next_response_id + i) as u64),
            replies[i].0,
            replies[i].1,
        ) by {
            if i < earlier.len() {
                assert(after.sent[session.sent.len() + i] == before.sent[session.sent.len() + i]);
                assert(earlier[i] == replies[i]);
            }
        }
    }
}

/// A report to a sink travels under the sink's id and answers no request:
/// the envelope that a successful send adds has the sink's id for its
/// session id and neither request id nor response id.
pub proof fn lemma_sink_report_is_unaddressed(
    before: Seq<GrrMessageView>,
    sink: Seq<char>,
    rdf_name: Option<Seq<char>>,
    encoded: Result<Vec<u8>, EncodeError>,
    after: Seq<GrrMessageView>,
    result: Result<(), Error>,
)
    requires
        submitted(before, sink, None, None, rdf_name, encoded, after, result),
        result is Ok,
    ensures
        after.len() == before.len() + 1,
        before.is_prefix_of(after),
        after.last().session_id == Some(sink),
        after.last().request_id is None,
        after.last().response_id is None,
{
}

/// A request ends with exactly one status: among the data responses of a
/// session followed by the status of its request, the last envelope is a
/// status and no other is.
pub proof fn lemma_exactly_one_status(
    responses: Seq<GrrMessageView>,
    header: HeaderView,
    data: Seq<u8>,
)
    requires
        only_responses(responses),
    ensures
        ({
            let sent = responses.push(status_envelope(header, data));
            forall|i: int|
                0 <= i < sent.len() ==> ((#[trigger] sent[i]).message_type == Some(
                    MessageType::Status,
                ) <==> i == sent.len() - 1)
        }),
{
    let sent = responses.push(status_envelope(header, data));
    assert forall|i: int| 0 <= i < sent.len() implies ((#[trigger] sent[i]).message_type == Some(
        MessageType::Status,
    ) <==> i == sent.len() - 1) by {
        if i < responses.len() {
            assert(sent[i] == responses[i]);
        }
    }
}

} // verus!
