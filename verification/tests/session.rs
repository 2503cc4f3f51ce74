use std::convert::TryFrom;

use rrg::action::{DecodeError, EncodeError, Request, Response};
use rrg::proto::{GrrMessage, GrrStatus, MessageType, ReturnedStatus};
use rrg::session::{
    execute, handle, pack_response, pack_status, startup, Action, Adhoc, Demand, Error, Header,
    ParseError, Payload, Session, Status,
};

// A response that travels as the bytes of its text.
#[derive(Debug, PartialEq)]
struct Text(&'static str);

impl Response for Text {
    const RDF_NAME: Option<&'static str> = Some("Text");

    fn encode(self) -> Result<Vec<u8>, EncodeError> {
        Ok(self.0.as_bytes().to_vec())
    }
}

// A response without a type name.
struct Untagged(u8);

impl Response for Untagged {
    const RDF_NAME: Option<&'static str> = None;

    fn encode(self) -> Result<Vec<u8>, EncodeError> {
        Ok(vec![self.0])
    }
}

// A response that cannot be serialized.
struct Unwritable;

impl Response for Unwritable {
    const RDF_NAME: Option<&'static str> = Some("Unwritable");

    fn encode(self) -> Result<Vec<u8>, EncodeError> {
        Err(EncodeError {
            description: String::from("no room"),
        })
    }
}

// Arguments of four bytes, which default to zero.
#[derive(Debug, PartialEq)]
struct Count(u32);

impl Request for Count {
    fn from_bytes(bytes: &[u8]) -> Result<Count, DecodeError> {
        match <[u8; 4]>::try_from(bytes) {
            Ok(bytes) => Ok(Count(u32::from_le_bytes(bytes))),
            Err(_) => Err(DecodeError {
                description: String::from("expected four bytes"),
            }),
        }
    }

    fn from_default() -> Count {
        Count(0)
    }
}

fn envelope() -> GrrMessage {
    GrrMessage {
        session_id: Some(String::from("F:123")),
        request_id: Some(7),
        name: Some(String::from("ListDir")),
        ..Default::default()
    }
}

fn header() -> Header {
    Header {
        session_id: String::from("F:123"),
        request_id: 7,
    }
}

fn reply(response_id: u64, rdf_name: Option<&str>, data: &[u8]) -> GrrMessage {
    GrrMessage {
        session_id: Some(String::from("F:123")),
        request_id: Some(7),
        response_id: Some(response_id),
        name: None,
        message_type: Some(MessageType::Message),
        args: Some(data.to_vec()),
        args_rdf_name: rdf_name.map(String::from),
    }
}

fn report(sink: &str, rdf_name: Option<&str>, data: &[u8]) -> GrrMessage {
    GrrMessage {
        session_id: Some(String::from(sink)),
        request_id: None,
        response_id: None,
        name: None,
        message_type: Some(MessageType::Message),
        args: Some(data.to_vec()),
        args_rdf_name: rdf_name.map(String::from),
    }
}

fn status(data: &[u8]) -> GrrMessage {
    GrrMessage {
        session_id: Some(String::from("F:123")),
        request_id: Some(7),
        response_id: None,
        name: None,
        message_type: Some(MessageType::Status),
        args: Some(data.to_vec()),
        args_rdf_name: Some(String::from("GrrStatus")),
    }
}

// A stand-in for the status encoder: one byte for the outcome, then the
// message.
fn encode_status(status: GrrStatus) -> Result<Vec<u8>, EncodeError> {
    let mut data = match status.status {
        Some(ReturnedStatus::Success) => vec![0],
        Some(ReturnedStatus::GenericError) => vec![10],
        None => vec![255],
    };
    if let Some(message) = status.error_message {
        data.extend_from_slice(message.as_bytes());
    }
    Ok(data)
}

fn refuse_status(_status: GrrStatus) -> Result<Vec<u8>, EncodeError> {
    Err(EncodeError {
        description: String::from("no room"),
    })
}

#[test]
fn test_demand_keeps_identity_fields() {
    let demand = Demand::try_from(envelope()).unwrap();

    assert_eq!(demand.action, "ListDir");
    assert_eq!(demand.header.session_id, "F:123");
    assert_eq!(demand.header.request_id, 7);
    assert_eq!(demand.payload.parse::<Count>(), Ok(Count(0)));
}

#[test]
fn test_demand_keeps_args() {
    let message = GrrMessage {
        args: Some(vec![5, 0, 0, 0]),
        response_id: Some(9),
        ..envelope()
    };
    let demand = Demand::try_from(message).unwrap();

    assert_eq!(demand.action, "ListDir");
    assert_eq!(demand.header.session_id, "F:123");
    assert_eq!(demand.header.request_id, 7);
    assert_eq!(demand.payload.parse::<Count>(), Ok(Count(5)));
}

#[test]
fn test_demand_missing_session_id() {
    let message = GrrMessage {
        session_id: None,
        ..envelope()
    };

    let error = Demand::try_from(message).unwrap_err();
    assert_eq!(error, ParseError::MissingField("session id"));
}

#[test]
fn test_demand_missing_request_id() {
    let message = GrrMessage {
        request_id: None,
        ..envelope()
    };

    let error = Demand::try_from(message).unwrap_err();
    assert_eq!(error, ParseError::MissingField("request id"));
}

#[test]
fn test_demand_missing_action_name() {
    let message = GrrMessage {
        name: None,
        ..envelope()
    };

    let error = Demand::try_from(message).unwrap_err();
    assert_eq!(error, ParseError::MissingField("action name"));
}

#[test]
fn test_demand_reports_first_missing_field() {
    let error = Demand::try_from(GrrMessage::default()).unwrap_err();
    assert_eq!(error, ParseError::MissingField("session id"));

    let message = GrrMessage {
        session_id: Some(String::from("F:123")),
        args: Some(vec![1]),
        ..Default::default()
    };
    let error = Demand::try_from(message).unwrap_err();
    assert_eq!(error, ParseError::MissingField("request id"));
}

#[test]
fn test_demand_through_try_into() {
    let decoded: Result<Demand, ParseError> = envelope().try_into();

    assert_eq!(decoded.unwrap().header.request_id, 7);
}

#[test]
fn test_header_clone() {
    let header = header();
    let copy = header.clone();

    assert_eq!(copy.session_id, "F:123");
    assert_eq!(copy.request_id, 7);
    assert_eq!(header.session_id, "F:123");
}

#[test]
fn test_payload_parse_present() {
    let payload = Payload::new(Some(vec![1, 2, 0, 0]));

    assert_eq!(payload.parse::<Count>(), Ok(Count(513)));
}

#[test]
fn test_payload_parse_absent() {
    let payload = Payload::new(None);

    assert_eq!(payload.parse::<Count>(), Ok(Count(0)));
}

#[test]
fn test_payload_parse_malformed() {
    let payload = Payload::new(Some(vec![1, 2, 3]));

    assert_eq!(
        payload.parse::<Count>(),
        Err(ParseError::Decode(DecodeError {
            description: String::from("expected four bytes"),
        }))
    );
}

#[test]
fn test_payload_parse_empty_is_not_absent() {
    let payload = Payload::new(Some(vec![]));

    assert!(payload.parse::<Count>().is_err());
}

#[test]
fn test_pack_response() {
    let message = pack_response(String::from("F:123"), Some(7), Some(2), Some("Text"), vec![1]);
    assert_eq!(message, reply(2, Some("Text"), &[1]));

    let message = pack_response(String::from("/sink"), None, None, None, vec![]);
    assert_eq!(message, report("/sink", None, &[]));
}

#[test]
fn test_response_try_into() {
    let response = rrg::session::Response {
        session_id: String::from("F:123"),
        request_id: Some(7),
        response_id: Some(4),
        data: Text("foo"),
    };

    assert_eq!(response.try_into(), Ok(reply(4, Some("Text"), b"foo")));
}

#[test]
fn test_response_try_into_untagged() {
    let response = rrg::session::Response {
        session_id: String::from("F:123"),
        request_id: Some(7),
        response_id: Some(0),
        data: Untagged(9),
    };

    assert_eq!(response.try_into(), Ok(reply(0, None, &[9])));
}

#[test]
fn test_response_try_into_encode_error() {
    let response = rrg::session::Response {
        session_id: String::from("F:123"),
        request_id: Some(7),
        response_id: Some(4),
        data: Unwritable,
    };

    assert_eq!(
        response.try_into(),
        Err(EncodeError {
            description: String::from("no room"),
        })
    );
}

#[test]
fn test_response_send() {
    let mut outbox = vec![report("/sink", None, &[1])];
    let response = rrg::session::Response {
        session_id: String::from("F:123"),
        request_id: Some(7),
        response_id: Some(0),
        data: Text("foo"),
    };

    assert_eq!(response.send(&mut outbox), Ok(()));
    assert_eq!(
        outbox,
        vec![report("/sink", None, &[1]), reply(0, Some("Text"), b"foo")]
    );
}

#[test]
fn test_response_send_encode_error() {
    let mut outbox = vec![report("/sink", None, &[1])];
    let response = rrg::session::Response {
        session_id: String::from("F:123"),
        request_id: Some(7),
        response_id: Some(0),
        data: Unwritable,
    };

    assert_eq!(
        response.send(&mut outbox),
        Err(Error::Encode(EncodeError {
            description: String::from("no room"),
        }))
    );
    assert_eq!(outbox, vec![report("/sink", None, &[1])]);
}

#[test]
fn test_startup_sink() {
    assert_eq!(startup().id(), "/flows/F:Startup");
}

#[test]
fn test_sink_wrap() {
    let wrapped = startup().wrap(Text("foo"));

    assert_eq!(wrapped.session_id, "/flows/F:Startup");
    assert_eq!(wrapped.request_id, None);
    assert_eq!(wrapped.response_id, None);
    assert_eq!(wrapped.data, Text("foo"));
}

#[test]
fn test_action_new_has_sent_nothing() {
    let session = Action::new(header());

    assert_eq!(session.into_outbox(), vec![]);
}

#[test]
fn test_action_replies_are_numbered_from_zero() {
    let mut session = Action::new(header());

    assert_eq!(session.reply(Text("foo")), Ok(()));
    assert_eq!(session.reply(Untagged(1)), Ok(()));
    assert_eq!(session.reply(Text("bar")), Ok(()));
    assert_eq!(session.reply(Text("")), Ok(()));
    assert_eq!(session.reply(Untagged(2)), Ok(()));

    assert_eq!(
        session.into_outbox(),
        vec![
            reply(0, Some("Text"), b"foo"),
            reply(1, None, &[1]),
            reply(2, Some("Text"), b"bar"),
            reply(3, Some("Text"), b""),
            reply(4, None, &[2]),
        ]
    );
}

#[test]
fn test_action_many_replies() {
    let mut session = Action::new(header());
    for _ in 0..1000 {
        assert_eq!(session.reply(Untagged(0)), Ok(()));
    }

    let outbox = session.into_outbox();
    assert_eq!(outbox.len(), 1000);
    for (number, message) in outbox.iter().enumerate() {
        assert_eq!(*message, reply(number as u64, None, &[0]));
    }
}

#[test]
fn test_action_failed_reply_takes_no_number() {
    let mut session = Action::new(header());

    assert_eq!(session.reply(Text("foo")), Ok(()));
    assert_eq!(
        session.reply(Unwritable),
        Err(Error::Encode(EncodeError {
            description: String::from("no room"),
        }))
    );
    assert_eq!(session.reply(Text("bar")), Ok(()));

    assert_eq!(
        session.into_outbox(),
        vec![reply(0, Some("Text"), b"foo"), reply(1, Some("Text"), b"bar")]
    );
}

#[test]
fn test_action_send_takes_no_number() {
    let mut session = Action::new(header());

    assert_eq!(session.reply(Text("foo")), Ok(()));
    assert_eq!(session.send(startup(), Text("up")), Ok(()));
    assert_eq!(session.reply(Text("bar")), Ok(()));

    assert_eq!(
        session.into_outbox(),
        vec![
            reply(0, Some("Text"), b"foo"),
            report("/flows/F:Startup", Some("Text"), b"up"),
            reply(1, Some("Text"), b"bar"),
        ]
    );
}

#[test]
fn test_action_send_encode_error() {
    let mut session = Action::new(header());

    assert_eq!(
        session.send(startup(), Unwritable),
        Err(Error::Encode(EncodeError {
            description: String::from("no room"),
        }))
    );
    assert_eq!(session.reply(Text("foo")), Ok(()));

    assert_eq!(session.into_outbox(), vec![reply(0, Some("Text"), b"foo")]);
}

#[test]
fn test_adhoc_reply_sends_nothing() {
    let mut session = Adhoc::new();

    assert_eq!(session.reply(Text("foo")), Ok(()));
    assert_eq!(session.reply(Unwritable), Ok(()));

    assert_eq!(session.into_outbox(), vec![]);
}

#[test]
fn test_adhoc_send() {
    let mut session = Adhoc::new();

    assert_eq!(session.send(startup(), Text("up")), Ok(()));
    assert_eq!(session.reply(Text("foo")), Ok(()));
    assert_eq!(session.send(startup(), Untagged(3)), Ok(()));

    assert_eq!(
        session.into_outbox(),
        vec![
            report("/flows/F:Startup", Some("Text"), b"up"),
            report("/flows/F:Startup", None, &[3]),
        ]
    );
}

#[test]
fn test_adhoc_send_encode_error() {
    let mut session = Adhoc::new();

    assert_eq!(
        session.send(startup(), Unwritable),
        Err(Error::Encode(EncodeError {
            description: String::from("no room"),
        }))
    );

    assert_eq!(session.into_outbox(), vec![]);
}

#[test]
fn test_send_is_the_same_for_every_session() {
    let mut action = Action::new(header());
    let mut adhoc = Adhoc::new();

    assert_eq!(action.send(startup(), Text("up")), Ok(()));
    assert_eq!(adhoc.send(startup(), Text("up")), Ok(()));

    let action = action.into_outbox();
    let adhoc = adhoc.into_outbox();
    assert_eq!(action, adhoc);
    assert_eq!(action.len(), 1);
    assert_eq!(action[0].session_id.as_deref(), Some("/flows/F:Startup"));
    assert_eq!(action[0].request_id, None);
    assert_eq!(action[0].response_id, None);
}

#[test]
fn test_status_payload_ok() {
    let status = Status {
        header: header(),
        result: Ok(()),
    };

    assert_eq!(
        status.payload(),
        GrrStatus {
            status: Some(ReturnedStatus::Success),
            error_message: None,
        }
    );
}

#[test]
fn test_status_payload_error() {
    let status = Status {
        header: header(),
        result: Err(Error::Action(String::from("disk on fire"))),
    };

    assert_eq!(
        status.payload(),
        GrrStatus {
            status: Some(ReturnedStatus::GenericError),
            error_message: Some(String::from("action error: disk on fire")),
        }
    );
}

#[test]
fn test_pack_status() {
    assert_eq!(pack_status(header(), vec![1, 2]), status(&[1, 2]));
}

#[test]
fn test_status_try_into() {
    let outcome = Status {
        header: header(),
        result: Err(Error::Dispatch(String::from("Nope"))),
    };

    let message = outcome.try_into(encode_status).unwrap();
    assert_eq!(message, status(b"\x0aunknown action: Nope"));
    assert_eq!(message.request_id, Some(7));
    assert_eq!(message.response_id, None);
    assert_eq!(message.message_type, Some(MessageType::Status));
}

#[test]
fn test_status_try_into_encode_error() {
    let outcome = Status {
        header: header(),
        result: Ok(()),
    };

    assert_eq!(
        outcome.try_into(refuse_status),
        Err(EncodeError {
            description: String::from("no room"),
        })
    );
}

#[test]
fn test_error_texts() {
    assert_eq!(
        Error::Action(String::from("disk on fire")).to_string(),
        "action error: disk on fire"
    );
    assert_eq!(
        Error::Dispatch(String::from("Nope")).to_string(),
        "unknown action: Nope"
    );
    assert_eq!(
        Error::Encode(EncodeError {
            description: String::from("no room"),
        })
        .to_string(),
        "failure during encoding proto message: no room"
    );
    assert_eq!(
        Error::Parse(ParseError::MissingField("request id")).to_string(),
        "malformed proto message: missing required field: request id"
    );
    assert_eq!(
        Error::Parse(ParseError::Decode(DecodeError {
            description: String::from("expected four bytes"),
        }))
        .to_string(),
        "malformed proto message: failed to decode proto message: expected four bytes"
    );
}

#[test]
fn test_parse_error_texts() {
    assert_eq!(
        ParseError::MissingField("session id").to_string(),
        "missing required field: session id"
    );
    assert_eq!(
        ParseError::Decode(DecodeError {
            description: String::from("truncated"),
        })
        .to_string(),
        "failed to decode proto message: truncated"
    );
}

#[test]
fn test_execute_runs_handler() {
    let mut session = Action::new(header());

    let result = execute(
        &mut session,
        |session: &mut Action, count: Count| {
            for _ in 0..count.0 {
                session.reply(Text("foo"))?;
            }
            Ok(())
        },
        Payload::new(Some(vec![2, 0, 0, 0])),
    );

    assert_eq!(result, Ok(()));
    assert_eq!(
        session.into_outbox(),
        vec![reply(0, Some("Text"), b"foo"), reply(1, Some("Text"), b"foo")]
    );
}

#[test]
fn test_execute_hands_default_arguments() {
    let mut session = Adhoc::new();

    let result = execute(
        &mut session,
        |session: &mut Adhoc, count: Count| {
            assert_eq!(count, Count(0));
            session.send(startup(), Text("up"))
        },
        Payload::new(None),
    );

    assert_eq!(result, Ok(()));
    assert_eq!(
        session.into_outbox(),
        vec![report("/flows/F:Startup", Some("Text"), b"up")]
    );
}

#[test]
fn test_execute_returns_handler_error() {
    let mut session = Action::new(header());

    let result = execute(
        &mut session,
        |_: &mut Action, _: Count| Err(Error::Action(String::from("disk on fire"))),
        Payload::new(None),
    );

    assert_eq!(result, Err(Error::Action(String::from("disk on fire"))));
}

#[test]
fn test_execute_malformed_arguments() {
    let mut session = Action::new(header());
    let mut ran = false;

    let result = execute(
        &mut session,
        |_: &mut Action, _: Count| {
            ran = true;
            Ok(())
        },
        Payload::new(Some(vec![1])),
    );

    assert_eq!(
        result,
        Err(Error::Parse(ParseError::Decode(DecodeError {
            description: String::from("expected four bytes"),
        })))
    );
    assert!(!ran);
    assert_eq!(session.into_outbox(), vec![]);
}

#[test]
fn test_handle_two_replies_then_ok() {
    let sent = handle(
        envelope(),
        |name: &str, session: &mut Action, payload: Payload| {
            assert_eq!(name, "ListDir");
            assert_eq!(payload.parse::<Count>(), Ok(Count(0)));
            session.reply(Text("foo"))?;
            session.reply(Text("bar"))?;
            Ok(())
        },
        encode_status,
    );

    assert_eq!(
        sent,
        vec![
            reply(0, Some("Text"), b"foo"),
            reply(1, Some("Text"), b"bar"),
            status(&[0]),
        ]
    );
}

#[test]
fn test_handle_missing_request_id() {
    let message = GrrMessage {
        request_id: None,
        ..envelope()
    };
    let mut dispatched = false;
    let mut encoded = false;

    let sent = handle(
        message,
        |_: &str, _: &mut Action, _: Payload| {
            dispatched = true;
            Ok(())
        },
        |status: GrrStatus| {
            encoded = true;
            encode_status(status)
        },
    );

    assert_eq!(sent, vec![]);
    assert!(!dispatched);
    assert!(!encoded);
}

#[test]
fn test_handle_ok_gives_one_ok_status() {
    let sent = handle(
        envelope(),
        |_: &str, _: &mut Action, _: Payload| Ok(()),
        encode_status,
    );

    assert_eq!(sent, vec![status(&[0])]);
}

#[test]
fn test_handle_error_gives_one_error_status() {
    let error = Error::Dispatch(String::from("ListDir"));
    let message = error.to_string();

    let sent = handle(
        envelope(),
        |name: &str, _: &mut Action, _: Payload| Err(Error::Dispatch(String::from(name))),
        encode_status,
    );

    assert_eq!(message, "unknown action: ListDir");
    assert_eq!(sent, vec![status(b"\x0aunknown action: ListDir")]);
}

#[test]
fn test_handle_partial_replies_then_error() {
    let sent = handle(
        envelope(),
        |_: &str, session: &mut Action, _: Payload| {
            session.reply(Text("foo"))?;
            session.reply(Unwritable)?;
            session.reply(Text("bar"))?;
            Ok(())
        },
        encode_status,
    );

    assert_eq!(
        sent,
        vec![
            reply(0, Some("Text"), b"foo"),
            status(b"\x0afailure during encoding proto message: no room"),
        ]
    );
}

#[test]
fn test_handle_passes_arguments_on() {
    let message = GrrMessage {
        args: Some(vec![3, 0, 0, 0]),
        ..envelope()
    };

    let sent = handle(
        message,
        |_: &str, session: &mut Action, payload: Payload| {
            execute(
                session,
                |session: &mut Action, count: Count| session.reply(Untagged(count.0 as u8)),
                payload,
            )
        },
        encode_status,
    );

    assert_eq!(sent, vec![reply(0, None, &[3]), status(&[0])]);
}

#[test]
fn test_handle_status_encode_error() {
    let sent = handle(
        envelope(),
        |_: &str, session: &mut Action, _: Payload| session.reply(Text("foo")),
        refuse_status,
    );

    assert_eq!(sent, vec![reply(0, Some("Text"), b"foo")]);
}

#[test]
fn test_handle_status_comes_last() {
    let sent = handle(
        envelope(),
        |_: &str, session: &mut Action, _: Payload| {
            session.send(startup(), Text("up"))?;
            session.reply(Text("foo"))?;
            session.send(startup(), Text("still up"))
        },
        encode_status,
    );

    assert_eq!(sent.len(), 4);
    for message in &sent[..3] {
        assert_eq!(message.message_type, Some(MessageType::Message));
    }
    assert_eq!(sent[3], status(&[0]));
}
