use kakapo::keyboard::{key_batches_for_char, KeyBatch, KeystrokeError};
use kakapo::session::{Hold, SessionAction, SessionPhase, TypingSession};

/// Drives a session, answering every batch with the count `answer` gives it.
fn drive(text: &str, answer: impl Fn(usize) -> u32) -> (Vec<KeyBatch>, Vec<usize>, SessionAction) {
    let mut session = TypingSession::new(text);
    let mut sent = Vec::new();
    let mut pauses = Vec::new();
    loop {
        match session.next_action() {
            SessionAction::Send(batch) => {
                let n = answer(sent.len());
                if n == 2 {
                    sent.push(batch);
                }
                session.record_sent(n);
            }
            SessionAction::Delay { char_index } => {
                pauses.push(char_index);
                session.delay_done();
            }
            other => return (sent, pauses, other),
        }
    }
}

#[test]
fn session_types_whole_text_in_order() {
    let text = "hi\n😀é\r";
    let (sent, pauses, end) = drive(text, |_| 2);
    let expected: Vec<KeyBatch> = text.chars().flat_map(key_batches_for_char).collect();
    assert_eq!(sent, expected);
    assert_eq!(sent.len(), 7);
    assert_eq!(pauses, vec![0, 1, 2, 3, 4, 5]);
    assert_eq!(end, SessionAction::Finished);
}

#[test]
fn empty_text_finishes_at_once() {
    let session = TypingSession::new("");
    assert_eq!(session.total_chars(), 0);
    assert_eq!(session.current_phase(), SessionPhase::Finished);
    assert_eq!(session.next_action(), SessionAction::Finished);
}

#[test]
fn short_count_stops_with_character_error() {
    let (sent, pauses, end) = drive("a😀b", |k| if k == 2 { 1 } else { 2 });
    assert_eq!(sent.len(), 2);
    assert_eq!(pauses, vec![0]);
    assert_eq!(end, SessionAction::Failed(KeystrokeError::Character { ch: '😀', sent: 1 }));
}

#[test]
fn short_count_on_line_break_stops_with_enter_error() {
    let (sent, pauses, end) = drive("x\ny", |k| if k == 1 { 0 } else { 2 });
    assert_eq!(sent.len(), 1);
    assert_eq!(pauses, vec![0]);
    assert_eq!(end, SessionAction::Failed(KeystrokeError::EnterKey { sent: 0 }));
}

#[test]
fn reports_out_of_turn_change_nothing() {
    let mut session = TypingSession::new("ab");
    assert_eq!(session.total_chars(), 2);
    session.delay_done();
    assert_eq!(
        session.current_phase(),
        SessionPhase::Sending { char_index: 0, batch_index: 0 }
    );
    session.record_sent(2);
    assert_eq!(session.current_phase(), SessionPhase::Delaying { char_index: 0 });
    session.record_sent(0);
    assert_eq!(session.current_phase(), SessionPhase::Delaying { char_index: 0 });
    assert_eq!(session.next_action(), SessionAction::Delay { char_index: 0 });
    session.delay_done();
    assert_eq!(
        session.current_phase(),
        SessionPhase::Sending { char_index: 1, batch_index: 0 }
    );
}

#[test]
fn failed_session_stays_failed() {
    let mut session = TypingSession::new("q");
    session.record_sent(1);
    let failed = SessionPhase::Failed {
        char_index: 0,
        batch_index: 0,
        error: KeystrokeError::Character { ch: 'q', sent: 1 },
    };
    assert_eq!(session.current_phase(), failed);
    session.record_sent(2);
    session.delay_done();
    assert_eq!(session.current_phase(), failed);
}

#[test]
fn paused_session_sends_nothing_and_resumes_in_place() {
    let mut session = TypingSession::new("ab");
    session.record_sent(2);
    session.delay_done();
    let before = session.current_phase();
    session.pause();
    assert_eq!(session.current_hold(), Hold::PausedByUser);
    assert_eq!(session.next_action(), SessionAction::Paused);
    session.focus_regained();
    assert_eq!(session.next_action(), SessionAction::Paused);
    session.resume();
    assert_eq!(session.current_hold(), Hold::Running);
    assert_eq!(session.current_phase(), before);
    assert!(matches!(session.next_action(), SessionAction::Send(b) if b.press.scan_code == 'b' as u16));
}

#[test]
fn focus_loss_pauses_until_focus_returns() {
    let mut session = TypingSession::new("z");
    session.focus_lost();
    assert_eq!(session.current_hold(), Hold::PausedByFocusLoss);
    assert_eq!(session.next_action(), SessionAction::Paused);
    session.focus_regained();
    assert_eq!(session.current_hold(), Hold::Running);
    assert!(matches!(session.next_action(), SessionAction::Send(_)));
    session.focus_lost();
    session.resume();
    assert_eq!(session.current_hold(), Hold::Running);
}

#[test]
fn stop_is_final() {
    let mut session = TypingSession::new("stop me");
    session.record_sent(2);
    session.stop();
    assert_eq!(session.next_action(), SessionAction::Stopped);
    session.resume();
    session.focus_regained();
    assert_eq!(session.current_hold(), Hold::Stopped);
    assert_eq!(session.next_action(), SessionAction::Stopped);
    assert_eq!(session.current_phase(), SessionPhase::Delaying { char_index: 0 });
}

#[test]
fn finished_session_reports_finished_even_when_paused() {
    let mut session = TypingSession::new("k");
    session.record_sent(2);
    session.delay_done();
    session.pause();
    assert_eq!(session.next_action(), SessionAction::Finished);
}
