use std::num::NonZeroI32;

use netlink_packet_core::{
    DoneMessage, ErrorMessage, NetlinkHeader, NetlinkMessage, NetlinkPayload,
};
use netlink_packet_route::RtnlMessage;
use rtnl_link_set::{
    drain, step, Action, Drained, Error, Event, LinkSetRequest, Reply, TransactionState,
};

fn error_message(code: i32) -> NetlinkMessage<RtnlMessage> {
    let mut error = ErrorMessage::default();
    error.code = NonZeroI32::new(code);
    NetlinkMessage::new(NetlinkHeader::default(), NetlinkPayload::Error(error))
}

#[test]
fn draining_stops_at_the_first_error() {
    let replies = vec![Reply::Message, Reply::Message, Reply::Error(22), Reply::Message];
    let drained = drain(&replies);
    assert_eq!(drained, Drained { outcome: Err(Error::Protocol(22)), consumed: 3 });
}

#[test]
fn draining_reports_one_error_only() {
    let replies = vec![Reply::Message, Reply::Error(-17), Reply::Error(-22), Reply::Error(-1)];
    let drained = drain(&replies);
    assert_eq!(drained.outcome, Err(Error::Protocol(-17)));
    assert_eq!(drained.consumed, 2);
}

#[test]
fn draining_reads_the_whole_stream_without_an_error() {
    let replies = vec![Reply::Message, Reply::Message, Reply::Message];
    assert_eq!(drain(&replies), Drained { outcome: Ok(()), consumed: 3 });
}

#[test]
fn draining_an_empty_stream_succeeds() {
    assert_eq!(drain(&vec![]), Drained { outcome: Ok(()), consumed: 0 });
}

#[test]
fn code_zero_acknowledges() {
    let replies = vec![Reply::Error(0), Reply::Message, Reply::Error(0)];
    assert_eq!(drain(&replies), Drained { outcome: Ok(()), consumed: 3 });
    assert_eq!(Reply::Error(0).failure_code(), None);
}

#[test]
fn error_in_front_is_read_alone() {
    let replies = vec![Reply::Error(-95), Reply::Message];
    assert_eq!(drain(&replies), Drained { outcome: Err(Error::Protocol(-95)), consumed: 1 });
}

#[test]
fn failure_code_is_the_code_that_is_not_zero() {
    assert_eq!(Reply::Message.failure_code(), None);
    assert_eq!(Reply::Error(22).failure_code(), Some(22));
    assert_eq!(Reply::Error(-22).failure_code(), Some(-22));
    assert_eq!(Reply::Error(i32::MIN).failure_code(), Some(i32::MIN));
}

#[test]
fn reply_from_code() {
    assert_eq!(Reply::from_code(None), Reply::Message);
    assert_eq!(Reply::from_code(Some(0)), Reply::Error(0));
    assert_eq!(Reply::from_code(Some(-13)), Reply::Error(-13));
}

#[test]
fn reply_from_an_error_message() {
    assert_eq!(Reply::from_message(&error_message(-22)), Reply::Error(-22));
    assert_eq!(Reply::from_message(&error_message(22)), Reply::Error(22));
}

#[test]
fn reply_from_an_acknowledgment() {
    assert_eq!(Reply::from_message(&error_message(0)), Reply::Error(0));
    assert_eq!(Reply::from_message(&error_message(0)).failure_code(), None);
}

#[test]
fn reply_from_other_messages() {
    let link = LinkSetRequest::new(1).up().execute();
    assert_eq!(Reply::from_message(&link), Reply::Message);
    let done: NetlinkMessage<RtnlMessage> =
        NetlinkMessage::new(NetlinkHeader::default(), NetlinkPayload::Done(DoneMessage::default()));
    assert_eq!(Reply::from_message(&done), Reply::Message);
    let noop: NetlinkMessage<RtnlMessage> =
        NetlinkMessage::new(NetlinkHeader::default(), NetlinkPayload::Noop);
    assert_eq!(Reply::from_message(&noop), Reply::Message);
}

#[test]
fn draining_netlink_messages() {
    let stream = vec![
        LinkSetRequest::new(1).execute(),
        error_message(0),
        error_message(-22),
        LinkSetRequest::new(2).execute(),
    ];
    let replies: Vec<Reply> = stream.iter().map(Reply::from_message).collect();
    assert_eq!(drain(&replies), Drained { outcome: Err(Error::Protocol(-22)), consumed: 3 });
}

#[test]
fn fresh_transaction_is_sent_and_reads() {
    let state = TransactionState::new();
    assert_eq!(state, TransactionState::Sent);
    assert_eq!(state.action(), Action::Receive);
    assert!(!state.is_terminal());
}

#[test]
fn reply_without_failure_keeps_draining() {
    assert_eq!(
        step(TransactionState::Sent, Event::Reply(Reply::Message)),
        (TransactionState::Draining, Action::Receive)
    );
    assert_eq!(
        step(TransactionState::Draining, Event::Reply(Reply::Error(0))),
        (TransactionState::Draining, Action::Receive)
    );
}

#[test]
fn failure_ends_the_transaction() {
    assert_eq!(
        step(TransactionState::Sent, Event::Reply(Reply::Error(-1))),
        (TransactionState::Failed(Error::Protocol(-1)), Action::Fail(Error::Protocol(-1)))
    );
    assert_eq!(
        step(TransactionState::Draining, Event::Reply(Reply::Error(22))),
        (TransactionState::Failed(Error::Protocol(22)), Action::Fail(Error::Protocol(22)))
    );
}

#[test]
fn end_of_stream_completes_the_transaction() {
    assert_eq!(
        step(TransactionState::Sent, Event::EndOfStream),
        (TransactionState::Done, Action::Succeed)
    );
    assert_eq!(
        step(TransactionState::Draining, Event::EndOfStream),
        (TransactionState::Done, Action::Succeed)
    );
}

#[test]
fn transport_failure_ends_the_transaction() {
    assert_eq!(
        step(TransactionState::Sent, Event::TransportFailure),
        (TransactionState::Failed(Error::Transport), Action::Fail(Error::Transport))
    );
    assert_eq!(
        TransactionState::Draining.on_event(Event::TransportFailure),
        TransactionState::Failed(Error::Transport)
    );
}

#[test]
fn failed_transaction_keeps_its_failure() {
    let failed = TransactionState::Failed(Error::Protocol(22));
    assert!(failed.is_terminal());
    for event in [
        Event::Reply(Reply::Message),
        Event::Reply(Reply::Error(-5)),
        Event::EndOfStream,
        Event::TransportFailure,
    ] {
        assert_eq!(step(failed, event), (failed, Action::Fail(Error::Protocol(22))));
    }
}

#[test]
fn done_transaction_stays_done() {
    assert!(TransactionState::Done.is_terminal());
    for event in [
        Event::Reply(Reply::Error(-5)),
        Event::Reply(Reply::Message),
        Event::EndOfStream,
        Event::TransportFailure,
    ] {
        assert_eq!(
            step(TransactionState::Done, event),
            (TransactionState::Done, Action::Succeed)
        );
    }
}

#[test]
fn stepping_through_a_stream_agrees_with_drain() {
    let replies = vec![Reply::Message, Reply::Message, Reply::Error(22), Reply::Message];
    let mut state = TransactionState::new();
    let mut reported = vec![];
    for reply in &replies {
        if state.action() != Action::Receive {
            break;
        }
        state = state.on_event(Event::Reply(*reply));
        if let Action::Fail(error) = state.action() {
            reported.push(error);
        }
    }
    assert_eq!(reported, vec![Error::Protocol(22)]);
    assert_eq!(state, TransactionState::Failed(Error::Protocol(22)));
    assert_eq!(drain(&replies).outcome, Err(Error::Protocol(22)));
}
