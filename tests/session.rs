use logistic_server::session::{Phase, Session, SessionAction, SessionEvent};

fn drive(events: &[SessionEvent]) -> (Session, Vec<SessionAction>) {
    let mut s = Session::new();
    let mut actions = Vec::new();
    for e in events {
        actions.push(s.step(*e));
    }
    (s, actions)
}

#[test]
fn session_starts_by_reading() {
    let s = Session::new();
    assert_eq!(s.phase, Phase::Reading);
    assert_eq!(s.action(), SessionAction::ReadLine);
    assert!(!s.is_finished());
}

#[test]
fn parsed_line_is_written_then_flushed() {
    let (s, actions) = drive(&[
        SessionEvent::LineParsed,
        SessionEvent::WriteDone,
        SessionEvent::FlushDone,
    ]);
    assert_eq!(
        actions,
        vec![
            SessionAction::WriteReply,
            SessionAction::FlushReply,
            SessionAction::ReadLine
        ]
    );
    assert_eq!(s.phase, Phase::Reading);
}

#[test]
fn rejected_line_gets_no_reply_and_next_line_gets_one() {
    let (s, actions) = drive(&[
        SessionEvent::LineRejected,
        SessionEvent::LineParsed,
        SessionEvent::WriteDone,
        SessionEvent::FlushDone,
    ]);
    assert_eq!(
        actions,
        vec![
            SessionAction::ReadLine,
            SessionAction::WriteReply,
            SessionAction::FlushReply,
            SessionAction::ReadLine
        ]
    );
    let writes = actions
        .iter()
        .filter(|a| **a == SessionAction::WriteReply)
        .count();
    assert_eq!(writes, 1);
    assert_eq!(s.phase, Phase::Reading);
}

#[test]
fn end_of_input_closes_without_error() {
    let (s, actions) = drive(&[SessionEvent::EndOfInput, SessionEvent::ShutdownAttempted]);
    assert_eq!(
        actions,
        vec![SessionAction::ShutdownStream, SessionAction::Finish]
    );
    assert!(s.is_finished());
}

#[test]
fn read_failure_closes() {
    let (s, actions) = drive(&[SessionEvent::ReadFailed]);
    assert_eq!(actions, vec![SessionAction::ShutdownStream]);
    assert_eq!(s.phase, Phase::Closing);
}

#[test]
fn write_failure_closes() {
    let (s, _) = drive(&[SessionEvent::LineParsed, SessionEvent::WriteFailed]);
    assert_eq!(s.phase, Phase::Closing);
    assert_eq!(s.action(), SessionAction::ShutdownStream);
}

#[test]
fn flush_failure_closes() {
    let (s, _) = drive(&[
        SessionEvent::LineParsed,
        SessionEvent::WriteDone,
        SessionEvent::FlushFailed,
    ]);
    assert_eq!(s.phase, Phase::Closing);
}

#[test]
fn out_of_turn_event_is_ignored() {
    let (s, actions) = drive(&[SessionEvent::LineParsed, SessionEvent::EndOfInput]);
    assert_eq!(actions[1], SessionAction::WriteReply);
    assert_eq!(s.phase, Phase::Writing);
}

#[test]
fn closed_session_stays_closed() {
    let (s, actions) = drive(&[
        SessionEvent::EndOfInput,
        SessionEvent::ShutdownAttempted,
        SessionEvent::LineParsed,
        SessionEvent::ShutdownAttempted,
    ]);
    assert_eq!(actions[2], SessionAction::Finish);
    assert_eq!(actions[3], SessionAction::Finish);
    assert!(s.is_finished());
}

#[test]
fn replies_match_accepted_lines() {
    let (s, actions) = drive(&[
        SessionEvent::LineParsed,
        SessionEvent::WriteDone,
        SessionEvent::FlushDone,
        SessionEvent::LineRejected,
        SessionEvent::LineRejected,
        SessionEvent::LineParsed,
        SessionEvent::WriteDone,
        SessionEvent::FlushDone,
        SessionEvent::EndOfInput,
        SessionEvent::ShutdownAttempted,
    ]);
    let flushes = actions
        .iter()
        .filter(|a| **a == SessionAction::FlushReply)
        .count();
    assert_eq!(flushes, 2);
    assert!(s.is_finished());
}
