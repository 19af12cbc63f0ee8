use crate::keyboard::batch_outcome;
use crate::keyboard::key_batches_for_char;
use crate::keyboard::KeyBatch;
use crate::keyboard::KeystrokeError;
use vstd::prelude::*;

verus! {

/// Where a typing session stands.
#[derive(Clone, Copy, Debug, PartialEq, Eq, Structural)]
pub enum SessionPhase {
    /// The next batch to send is batch `batch_index` of character `char_index`.
    Sending { char_index: usize, batch_index: usize },
    /// Every batch of character `char_index` went through; the keystroke delay after it is due.
    Delaying { char_index: usize },
    /// The whole text was typed.
    Finished,
    /// The system did not take batch `batch_index` of character `char_index` whole.
    Failed { char_index: usize, batch_index: usize, error: KeystrokeError },
}

/// What the driver of a session is to do next.
#[derive(Clone, Copy, Debug, PartialEq, Eq, Structural)]
pub enum SessionAction {
    /// Send this batch with one `SendInput` call, then report how many events it took.
    Send(KeyBatch),
    /// Wait the keystroke delay that follows character `char_index`, then report it.
    Delay { char_index: usize },
    /// Typing is complete.
    Finished,
    /// Typing stopped with this error.
    Failed(KeystrokeError),
    /// Typing is paused: send nothing until it resumes.
    Paused,
    /// Typing was stopped.
    Stopped,
}

/// Whether a session may go on typing.
#[derive(Clone, Copy, Debug, PartialEq, Eq, Structural)]
pub enum Hold {
    /// Typing goes on.
    Running,
    /// Paused by the user; only a resume lifts it.
    PausedByUser,
    /// Paused because the target window lost focus; lifted when focus returns, or by a resume.
    PausedByFocusLoss,
    /// Stopped by the user; final.
    Stopped,
}

/// What a session asks for: nothing while it is paused or stopped (unless its typing
/// is over anyway), otherwise what its phase calls for.
pub open spec fn session_action(text: Seq<char>, phase: SessionPhase, hold: Hold) -> SessionAction {
    match hold {
        Hold::Running => action_of(text, phase),
        Hold::Stopped => SessionAction::Stopped,
        _ => if phase is Sending || phase is Delaying {
            SessionAction::Paused
        } else {
            action_of(text, phase)
        },
    }
}

/// The phase a session over `text` starts in.
pub open spec fn initial_phase(text: Seq<char>) -> SessionPhase {
    if text.len() == 0 {
        SessionPhase::Finished
    } else {
        SessionPhase::Sending { char_index: 0, batch_index: 0 }
    }
}

/// The text fits in memory, and the indices of a phase lie inside the text and its batches.
pub open spec fn phase_wf(text: Seq<char>, phase: SessionPhase) -> bool {
    &&& text.len() <= usize::MAX
    &&& match phase {
        SessionPhase::Sending { char_index, batch_index } => {
            &&& char_index < text.len()
            &&& batch_index < crate::keyboard::char_batches(text[char_index as int]).len()
        },
        SessionPhase::Delaying { char_index } => char_index < text.len(),
        SessionPhase::Finished => true,
        SessionPhase::Failed { char_index, batch_index, error } => {
            &&& char_index < text.len()
            &&& batch_index < crate::keyboard::char_batches(text[char_index as int]).len()
        },
    }
}

/// The action a phase calls for.
pub open spec fn action_of(text: Seq<char>, phase: SessionPhase) -> SessionAction {
    match phase {
        SessionPhase::Sending { char_index, batch_index } => SessionAction::Send(
            crate::keyboard::char_batches(text[char_index as int])[batch_index as int],
        ),
        SessionPhase::Delaying { char_index } => SessionAction::Delay { char_index },
        SessionPhase::Finished => SessionAction::Finished,
        SessionPhase::Failed { char_index, batch_index, error } => SessionAction::Failed(error),
    }
}

/// The phase after the system took `sent` events of the batch being sent.
/// A short count stops the session; otherwise it moves to the next batch of the
/// character, or to the keystroke delay after it. Other phases do not react.
pub open spec fn phase_after_sent(text: Seq<char>, phase: SessionPhase, sent: u32) -> SessionPhase {
    match phase {
        SessionPhase::Sending { char_index, batch_index } => {
            let ch = text[char_index as int];
            if sent != crate::keyboard::EVENTS_PER_BATCH {
                SessionPhase::Failed {
                    char_index,
                    batch_index,
                    error: crate::keyboard::keystroke_error(ch, sent),
                }
            } else if batch_index + 1 < crate::keyboard::char_batches(ch).len() {
                SessionPhase::Sending { char_index, batch_index: (batch_index + 1) as usize }
            } else {
                SessionPhase::Delaying { char_index }
            }
        },
        _ => phase,
    }
}

/// The phase after the keystroke delay that follows a character: the next character, or the end.
/// Other phases do not react.
pub open spec fn phase_after_delay(text: Seq<char>, phase: SessionPhase) -> SessionPhase {
    match phase {
        SessionPhase::Delaying { char_index } => if char_index + 1 < text.len() {
            SessionPhase::Sending { char_index: (char_index + 1) as usize, batch_index: 0 }
        } else {
            SessionPhase::Finished
        },
        _ => phase,
    }
}

/// The batches that have gone through in full by the time a session is in `phase`.
pub open spec fn delivered(text: Seq<char>, phase: SessionPhase) -> Seq<KeyBatch> {
    match phase {
        SessionPhase::Sending { char_index, batch_index } => crate::keyboard::text_batches(
            text.take(char_index as int),
        ) + crate::keyboard::char_batches(text[char_index as int]).take(batch_index as int),
        SessionPhase::Delaying { char_index } => crate::keyboard::text_batches(
            text.take(char_index + 1),
        ),
        SessionPhase::Finished => crate::keyboard::text_batches(text),
        SessionPhase::Failed { char_index, batch_index, error } => crate::keyboard::text_batches(
            text.take(char_index as int),
        ) + crate::keyboard::char_batches(text[char_index as int]).take(batch_index as int),
    }
}

/// What the driver of a session reports back.
#[derive(Clone, Copy, Debug, PartialEq, Eq, Structural)]
pub enum SessionEvent {
    /// The system took this many events of the batch that was sent.
    Sent(u32),
    /// The keystroke delay after a character is over.
    DelayOver,
    /// The user paused typing.
    Pause,
    /// The user resumed typing.
    Resume,
    /// The target window lost focus.
    FocusLost,
    /// The target window has focus again.
    FocusRegained,
    /// The user stopped typing.
    Stop,
}

/// The hold after one report: a stop is final; a resume lifts any pause; focus coming
/// back lifts only a pause that losing focus caused; losing focus or a user pause
/// pauses a running session (a user pause also takes over a focus pause).
pub open spec fn hold_after_event(hold: Hold, event: SessionEvent) -> Hold {
    if hold == Hold::Stopped {
        Hold::Stopped
    } else {
        match event {
            SessionEvent::Stop => Hold::Stopped,
            SessionEvent::Resume => Hold::Running,
            SessionEvent::Pause => Hold::PausedByUser,
            SessionEvent::FocusLost => if hold == Hold::Running {
                Hold::PausedByFocusLoss
            } else {
                hold
            },
            SessionEvent::FocusRegained => if hold == Hold::PausedByFocusLoss {
                Hold::Running
            } else {
                hold
            },
            _ => hold,
        }
    }
}

/// The hold after a sequence of reports; a session starts running.
pub open spec fn hold_after_events(events: Seq<SessionEvent>) -> Hold
    decreases events.len(),
{
    if events.len() == 0 {
        Hold::Running
    } else {
        hold_after_event(hold_after_events(events.drop_last()), events.last())
    }
}

/// The phase after one report.
pub open spec fn phase_after_event(text: Seq<char>, phase: SessionPhase, event: SessionEvent) -> SessionPhase {
    match event {
        SessionEvent::Sent(sent) => phase_after_sent(text, phase, sent),
        SessionEvent::DelayOver => phase_after_delay(text, phase),
        _ => phase,
    }
}

/// The phase a session over `text` is in after a sequence of reports.
pub open spec fn phase_after_events(text: Seq<char>, events: Seq<SessionEvent>) -> SessionPhase
    decreases events.len(),
{
    if events.len() == 0 {
        initial_phase(text)
    } else {
        phase_after_event(text, phase_after_events(text, events.drop_last()), events.last())
    }
}

/// The batches the session asked for and the system took whole, in the order sent.
pub open spec fn accepted_batches(text: Seq<char>, events: Seq<SessionEvent>) -> Seq<KeyBatch>
    decreases events.len(),
{
    if events.len() == 0 {
        Seq::empty()
    } else {
        let before = phase_after_events(text, events.drop_last());
        let earlier = accepted_batches(text, events.drop_last());
        match (before, events.last()) {
            (SessionPhase::Sending { .. }, SessionEvent::Sent(sent)) => if sent
                == crate::keyboard::EVENTS_PER_BATCH {
                match action_of(text, before) {
                    SessionAction::Send(batch) => earlier.push(batch),
                    _ => earlier,
                }
            } else {
                earlier
            },
            _ => earlier,
        }
    }
}

/// The batches of the first `c + 1` characters are those of the first `c`, then those of character `c`.
proof fn lemma_text_batches_take_next(text: Seq<char>, c: int)
    requires
        0 <= c < text.len(),
    ensures
        crate::keyboard::text_batches(text.take(c + 1)) == crate::keyboard::text_batches(text.take(c))
            + crate::keyboard::char_batches(text[c]),
{
    assert(text.take(c + 1).drop_last() =~= text.take(c));
    assert(text.take(c + 1).last() == text[c]);
}

/// The batches of a prefix of the text come first among the batches of the text.
proof fn lemma_text_batches_take_prefix(text: Seq<char>, c: int)
    requires
        0 <= c <= text.len(),
    ensures
        crate::keyboard::text_batches(text.take(c)).is_prefix_of(crate::keyboard::text_batches(text)),
{
    crate::keyboard::lemma_text_batches_append(text.take(c), text.skip(c));
    assert(text.take(c) + text.skip(c) =~= text);
    let p = crate::keyboard::text_batches(text.take(c));
    let whole = crate::keyboard::text_batches(text);
    assert(whole.subrange(0, p.len() as int) =~= p);
}

/// Nothing has gone through when a session starts.
pub proof fn lemma_initial_delivers_nothing(text: Seq<char>)
    requires
        text.len() <= usize::MAX,
    ensures
        delivered(text, initial_phase(text)) == Seq::<KeyBatch>::empty(),
        phase_wf(text, initial_phase(text)),
{
    if text.len() > 0 {
        crate::keyboard::lemma_char_batches_nonempty(text[0]);
        assert(text.take(0) =~= Seq::<char>::empty());
        assert(crate::keyboard::char_batches(text[0]).take(0) =~= Seq::<KeyBatch>::empty());
        assert(delivered(text, initial_phase(text)) =~= Seq::<KeyBatch>::empty());
    } else {
        assert(text =~= Seq::<char>::empty());
    }
}

/// What has gone through is always the start of the text's keystroke sequence:
/// a session sends the batches of the text in order, and nothing else.
pub proof fn lemma_delivered_is_prefix(text: Seq<char>, phase: SessionPhase)
    requires
        phase_wf(text, phase),
    ensures
        delivered(text, phase).is_prefix_of(crate::keyboard::text_batches(text)),
{
    let whole = crate::keyboard::text_batches(text);
    match phase {
        SessionPhase::Sending { char_index, batch_index } => {
            lemma_prefix_within_char(text, char_index as int, batch_index as int);
        },
        SessionPhase::Failed { char_index, batch_index, error } => {
            lemma_prefix_within_char(text, char_index as int, batch_index as int);
        },
        SessionPhase::Delaying { char_index } => {
            lemma_text_batches_take_prefix(text, char_index + 1);
        },
        SessionPhase::Finished => {
            assert(whole.subrange(0, whole.len() as int) =~= whole);
        },
    }
}

proof fn lemma_prefix_within_char(text: Seq<char>, c: int, b: int)
    requires
        0 <= c < text.len(),
        0 <= b < crate::keyboard::char_batches(text[c]).len(),
    ensures
        (crate::keyboard::text_batches(text.take(c)) + crate::keyboard::char_batches(text[c]).take(
            b,
        )).is_prefix_of(crate::keyboard::text_batches(text)),
{
    let whole = crate::keyboard::text_batches(text);
    let head = crate::keyboard::text_batches(text.take(c));
    let cb = crate::keyboard::char_batches(text[c]);
    let d = head + cb.take(b);
    lemma_text_batches_take_next(text, c);
    lemma_text_batches_take_prefix(text, c + 1);
    let upto = crate::keyboard::text_batches(text.take(c + 1));
    assert(upto == head + cb);
    assert(upto.subrange(0, d.len() as int) =~= d);
    assert(whole.subrange(0, upto.len() as int) =~= upto);
    assert(whole.subrange(0, d.len() as int) =~= upto.subrange(0, d.len() as int));
}

/// A batch the system took whole is added to what has gone through; after a short
/// count the session stops with nothing more gone through.
pub proof fn lemma_sent_extends_delivered(text: Seq<char>, phase: SessionPhase, sent: u32)
    requires
        phase_wf(text, phase),
        phase is Sending,
    ensures
        phase_wf(text, phase_after_sent(text, phase, sent)),
        sent == crate::keyboard::EVENTS_PER_BATCH ==> (action_of(text, phase) matches SessionAction::Send(
            batch,
        ) && delivered(text, phase_after_sent(text, phase, sent)) == delivered(text, phase).push(
            batch,
        )),
        sent != crate::keyboard::EVENTS_PER_BATCH ==> {
            &&& phase_after_sent(text, phase, sent) is Failed
            &&& delivered(text, phase_after_sent(text, phase, sent)) == delivered(text, phase)
        },
{
    match phase {
        SessionPhase::Sending { char_index, batch_index } => {
            let c = char_index as int;
            let b = batch_index as int;
            let cb = crate::keyboard::char_batches(text[c]);
            let head = crate::keyboard::text_batches(text.take(c));
            if sent == crate::keyboard::EVENTS_PER_BATCH {
                assert(cb.take(b + 1) =~= cb.take(b).push(cb[b]));
                if b + 1 >= cb.len() {
                    lemma_text_batches_take_next(text, c);
                    assert(cb.take(b + 1) =~= cb);
                }
                assert(head + cb.take(b).push(cb[b]) =~= (head + cb.take(b)).push(cb[b]));
            }
        },
        _ => {},
    }
}

/// The keystroke delay after a character leaves what has gone through unchanged.
pub proof fn lemma_delay_keeps_delivered(text: Seq<char>, phase: SessionPhase)
    requires
        phase_wf(text, phase),
    ensures
        phase_wf(text, phase_after_delay(text, phase)),
        delivered(text, phase_after_delay(text, phase)) == delivered(text, phase),
{
    match phase {
        SessionPhase::Delaying { char_index } => {
            let c = char_index as int;
            if c + 1 < text.len() {
                crate::keyboard::lemma_char_batches_nonempty(text[c + 1]);
                assert(crate::keyboard::char_batches(text[c + 1]).take(0) =~= Seq::<KeyBatch>::empty());
                assert(crate::keyboard::text_batches(text.take(c + 1)) + Seq::<KeyBatch>::empty()
                    =~= crate::keyboard::text_batches(text.take(c + 1)));
            } else {
                assert(text.take(c + 1) =~= text);
            }
        },
        _ => {},
    }
}

/// Whatever the system reports, what has gone through is exactly the batches it took
/// whole, in the order the session sent them.
pub proof fn lemma_run_delivers_accepted(text: Seq<char>, events: Seq<SessionEvent>)
    requires
        text.len() <= usize::MAX,
    ensures
        phase_wf(text, phase_after_events(text, events)),
        delivered(text, phase_after_events(text, events)) == accepted_batches(text, events),
    decreases events.len(),
{
    if events.len() == 0 {
        lemma_initial_delivers_nothing(text);
    } else {
        lemma_run_delivers_accepted(text, events.drop_last());
        let before = phase_after_events(text, events.drop_last());
        match events.last() {
            SessionEvent::Sent(sent) => {
                if before is Sending {
                    lemma_sent_extends_delivered(text, before, sent);
                }
            },
            SessionEvent::DelayOver => {
                lemma_delay_keeps_delivered(text, before);
            },
            _ => {},
        }
    }
}

/// A session that finishes has typed the whole text: the batches the system took are
/// exactly the keystrokes of the text, in order.
pub proof fn lemma_finished_run_typed_text(text: Seq<char>, events: Seq<SessionEvent>)
    requires
        text.len() <= usize::MAX,
        phase_after_events(text, events) == SessionPhase::Finished,
    ensures
        accepted_batches(text, events) == crate::keyboard::text_batches(text),
{
    lemma_run_delivers_accepted(text, events);
}

/// How many reports a session in `phase` can still react to, at most:
/// two for every batch not yet through (its report and the delay that may follow),
/// plus one for a delay that is due.
pub open spec fn steps_left(text: Seq<char>, phase: SessionPhase) -> int {
    let remaining = crate::keyboard::text_batches(text).len() - delivered(text, phase).len();
    match phase {
        SessionPhase::Sending { .. } => 2 * remaining,
        SessionPhase::Delaying { .. } => 2 * remaining + 1,
        _ => 0,
    }
}

/// Every report that a running session reacts to brings it closer to its end, and a
/// session over a text of `n` batches ends after at most `2 * n + 1` such reports.
pub proof fn lemma_session_progress(text: Seq<char>, phase: SessionPhase, event: SessionEvent)
    requires
        phase_wf(text, phase),
    ensures
        0 <= steps_left(text, phase),
        steps_left(text, initial_phase(text)) <= 2 * crate::keyboard::text_batches(text).len() + 1,
        (phase is Sending || phase is Delaying) && phase_after_event(text, phase, event) != phase
            ==> 0 <= steps_left(text, phase_after_event(text, phase, event)) < steps_left(
            text,
            phase,
        ),
{
    lemma_delivered_is_prefix(text, phase);
    lemma_initial_delivers_nothing(text);
    let after = phase_after_event(text, phase, event);
    match event {
        SessionEvent::Sent(sent) => {
            if phase is Sending {
                lemma_sent_extends_delivered(text, phase, sent);
                lemma_sent_extends_delivered(text, phase, crate::keyboard::EVENTS_PER_BATCH);
                lemma_delivered_is_prefix(
                    text,
                    phase_after_sent(text, phase, crate::keyboard::EVENTS_PER_BATCH),
                );
                lemma_delivered_is_prefix(text, after);
            }
        },
        SessionEvent::DelayOver => {
            lemma_delay_keeps_delivered(text, phase);
            lemma_delivered_is_prefix(text, after);
        },
        _ => {},
    }
}

/// A paused or stopped session asks for no keystrokes.
pub proof fn lemma_held_session_sends_nothing(text: Seq<char>, phase: SessionPhase, hold: Hold)
    requires
        hold != Hold::Running,
    ensures
        !(session_action(text, phase, hold) is Send),
{
}

/// A stop is final: no report lifts it, and a stopped session asks for nothing more.
pub proof fn lemma_stop_is_final(text: Seq<char>, phase: SessionPhase, event: SessionEvent)
    ensures
        hold_after_event(Hold::Stopped, event) == Hold::Stopped,
        session_action(text, phase, Hold::Stopped) == SessionAction::Stopped,
{
}

/// Pausing and resuming change nothing of the typing itself: a resumed session asks for
/// exactly what it would have asked for had it never paused.
pub proof fn lemma_pause_resume_round_trip(text: Seq<char>, phase: SessionPhase, cause: SessionEvent)
    requires
        cause == SessionEvent::Pause || cause == SessionEvent::FocusLost,
    ensures
        phase_after_event(text, phase, cause) == phase,
        phase_after_event(text, phase, SessionEvent::Resume) == phase,
        hold_after_event(hold_after_event(Hold::Running, cause), SessionEvent::Resume) == Hold::Running,
        session_action(
            text,
            phase_after_event(text, phase_after_event(text, phase, cause), SessionEvent::Resume),
            hold_after_event(hold_after_event(Hold::Running, cause), SessionEvent::Resume),
        ) == session_action(text, phase, Hold::Running),
        hold_after_event(hold_after_event(Hold::Running, SessionEvent::FocusLost), SessionEvent::FocusRegained)
            == Hold::Running,
{
}

/// A report that says typing went well: a full count for a batch, the end of a delay,
/// or a pause, resume, focus or stop report.
pub open spec fn is_smooth_report(event: SessionEvent) -> bool {
    match event {
        SessionEvent::Sent(sent) => sent == 2,
        _ => true,
    }
}

/// What the session does with the count for a batch: two events go through and the
/// session moves on to the next batch of the character, or, after its last batch, to the
/// delay; any other count stops it with the error for that character: the Enter key for
/// `'\n'` and `'\r'`, the character itself otherwise.
pub proof fn lemma_count_decides(text: Seq<char>, c: usize, b: usize, sent: u32)
    requires
        phase_wf(text, (SessionPhase::Sending { char_index: c, batch_index: b })),
    ensures
        ({
            let ch = text[c as int];
            let after = phase_after_sent(text, SessionPhase::Sending { char_index: c, batch_index: b }, sent);
            &&& sent == 2 && b + 1 < crate::keyboard::char_batches(ch).len() ==> after
                == SessionPhase::Sending { char_index: c, batch_index: (b + 1) as usize }
            &&& sent == 2 && b + 1 == crate::keyboard::char_batches(ch).len() ==> after
                == SessionPhase::Delaying { char_index: c }
            &&& sent != 2 && (ch == '\n' || ch == '\r') ==> after == SessionPhase::Failed {
                char_index: c,
                batch_index: b,
                error: KeystrokeError::EnterKey { sent },
            }
            &&& sent != 2 && ch != '\n' && ch != '\r' ==> after == SessionPhase::Failed {
                char_index: c,
                batch_index: b,
                error: KeystrokeError::Character { ch, sent },
            }
        }),
{
}

/// After the delay that follows a character, typing goes on at the first batch of the
/// next character, or is finished after the last character; a delay never stops it.
pub proof fn lemma_delay_moves_on(text: Seq<char>, c: usize)
    requires
        phase_wf(text, (SessionPhase::Delaying { char_index: c })),
    ensures
        c + 1 < text.len() ==> phase_after_delay(text, (SessionPhase::Delaying { char_index: c }))
            == (SessionPhase::Sending { char_index: (c + 1) as usize, batch_index: 0 }),
        c + 1 == text.len() ==> phase_after_delay(text, (SessionPhase::Delaying { char_index: c }))
            == SessionPhase::Finished,
        phase_wf(text, phase_after_delay(text, (SessionPhase::Delaying { char_index: c }))),
{
    if c + 1 < text.len() {
        crate::keyboard::lemma_char_batches_nonempty(text[c + 1]);
    }
}

/// A session fails only on a short count: however many reports come, as long as every
/// count is a full one, the session never reaches a failed phase.
pub proof fn lemma_smooth_reports_never_fail(text: Seq<char>, events: Seq<SessionEvent>)
    requires
        text.len() <= usize::MAX,
        forall|i: int| 0 <= i < events.len() ==> is_smooth_report(#[trigger] events[i]),
    ensures
        !(phase_after_events(text, events) is Failed),
        phase_wf(text, phase_after_events(text, events)),
    decreases events.len(),
{
    if events.len() == 0 {
        lemma_initial_delivers_nothing(text);
    } else {
        let rest = events.drop_last();
        assert forall|i: int| 0 <= i < rest.len() implies is_smooth_report(#[trigger] rest[i]) by {
            assert(rest[i] == events[i]);
        }
        lemma_smooth_reports_never_fail(text, rest);
        let before = phase_after_events(text, rest);
        assert(is_smooth_report(events[events.len() - 1]));
        match events.last() {
            SessionEvent::Sent(sent) => {
                if before is Sending {
                    lemma_sent_extends_delivered(text, before, sent);
                }
            },
            SessionEvent::DelayOver => {
                lemma_delay_keeps_delivered(text, before);
            },
            _ => {},
        }
    }
}

/// `count` full counts in a row.
pub open spec fn full_counts(count: nat) -> Seq<SessionEvent> {
    Seq::new(count, |_j: int| SessionEvent::Sent(2))
}

/// The reports of a driver under which all goes well, for the first `k` characters of
/// `text`: a full count for each batch of a character, then the end of its delay.
pub open spec fn smooth_run(text: Seq<char>, k: nat) -> Seq<SessionEvent>
    decreases k,
{
    if k == 0 {
        Seq::empty()
    } else {
        smooth_run(text, (k - 1) as nat) + full_counts(
            crate::keyboard::char_batches(text[k - 1]).len(),
        ) + seq![SessionEvent::DelayOver]
    }
}

proof fn lemma_full_counts_within_char(text: Seq<char>, events: Seq<SessionEvent>, k: usize, j: nat)
    requires
        phase_wf(text, SessionPhase::Sending { char_index: k, batch_index: 0 }),
        phase_after_events(text, events) == (SessionPhase::Sending { char_index: k, batch_index: 0 }),
        j <= crate::keyboard::char_batches(text[k as int]).len(),
    ensures
        j < crate::keyboard::char_batches(text[k as int]).len() ==> phase_after_events(
            text,
            events + full_counts(j),
        ) == (SessionPhase::Sending { char_index: k, batch_index: j as usize }),
        j == crate::keyboard::char_batches(text[k as int]).len() ==> phase_after_events(
            text,
            events + full_counts(j),
        ) == (SessionPhase::Delaying { char_index: k }),
    decreases j,
{
    if j == 0 {
        assert(events + full_counts(0) =~= events);
    } else {
        lemma_full_counts_within_char(text, events, k, (j - 1) as nat);
        let longer = events + full_counts(j);
        assert(longer.drop_last() =~= events + full_counts((j - 1) as nat));
        assert(longer.last() == SessionEvent::Sent(2));
        crate::keyboard::lemma_char_batches_nonempty(text[k as int]);
    }
}

proof fn lemma_smooth_run_phase(text: Seq<char>, k: nat)
    requires
        text.len() <= usize::MAX,
        k <= text.len(),
    ensures
        k < text.len() ==> phase_after_events(text, smooth_run(text, k)) == (SessionPhase::Sending {
            char_index: k as usize,
            batch_index: 0,
        }),
        k == text.len() ==> phase_after_events(text, smooth_run(text, k)) == SessionPhase::Finished,
    decreases k,
{
    if k == 0 {
        if text.len() > 0 {
            crate::keyboard::lemma_char_batches_nonempty(text[0]);
        }
    } else {
        let c = (k - 1) as nat;
        lemma_smooth_run_phase(text, c);
        crate::keyboard::lemma_char_batches_nonempty(text[c as int]);
        let n = crate::keyboard::char_batches(text[c as int]).len();
        let head = smooth_run(text, c);
        lemma_full_counts_within_char(text, head, c as usize, n);
        let run = smooth_run(text, k);
        assert(run.drop_last() =~= head + full_counts(n));
        assert(run.last() == SessionEvent::DelayOver);
        lemma_delay_moves_on(text, c as usize);
    }
}

/// A driver that reports a full count for every batch and the end of every delay types
/// the whole text: every report is a smooth one, the session finishes, and the batches
/// that went through are exactly the keystrokes of the text, in order.
pub proof fn lemma_smooth_run_types_text(text: Seq<char>)
    requires
        text.len() <= usize::MAX,
    ensures
        forall|i: int|
            0 <= i < smooth_run(text, text.len()).len() ==> is_smooth_report(
                #[trigger] smooth_run(text, text.len())[i],
            ),
        phase_after_events(text, smooth_run(text, text.len())) == SessionPhase::Finished,
        accepted_batches(text, smooth_run(text, text.len())) == crate::keyboard::text_batches(text),
{
    lemma_smooth_run_is_smooth(text, text.len());
    lemma_smooth_run_phase(text, text.len());
    lemma_finished_run_typed_text(text, smooth_run(text, text.len()));
}

proof fn lemma_smooth_run_is_smooth(text: Seq<char>, k: nat)
    ensures
        forall|i: int|
            0 <= i < smooth_run(text, k).len() ==> is_smooth_report(#[trigger] smooth_run(text, k)[i]),
    decreases k,
{
    if k > 0 {
        lemma_smooth_run_is_smooth(text, (k - 1) as nat);
        let head = smooth_run(text, (k - 1) as nat);
        let n = crate::keyboard::char_batches(text[k - 1]).len();
        let run = smooth_run(text, k);
        assert forall|i: int| 0 <= i < run.len() implies is_smooth_report(#[trigger] run[i]) by {
            if i < head.len() {
                assert(run[i] == head[i]);
            } else if i < head.len() + n {
                assert(run[i] == full_counts(n)[i - head.len()]);
            } else {
                assert(run[i] == SessionEvent::DelayOver);
            }
        }
    }
}

/// A user pause holds until the user resumes or stops: a pause report pauses any session
/// that is not stopped, and while paused by the user, focus coming back or going away
/// changes nothing.
pub proof fn lemma_user_pause_holds(hold: Hold, event: SessionEvent)
    ensures
        hold != Hold::Stopped ==> hold_after_event(hold, SessionEvent::Pause) == Hold::PausedByUser,
        hold_after_event(Hold::PausedByUser, event) == (if event == SessionEvent::Resume {
            Hold::Running
        } else if event == SessionEvent::Stop {
            Hold::Stopped
        } else {
            Hold::PausedByUser
        }),
{
}

/// Losing focus pauses a running session, and focus coming back resumes it; a resume
/// lifts a focus pause too.
pub proof fn lemma_focus_pause(event: SessionEvent)
    ensures
        hold_after_event(Hold::Running, SessionEvent::FocusLost) == Hold::PausedByFocusLoss,
        hold_after_event(Hold::PausedByFocusLoss, event) == (if event == SessionEvent::Resume
            || event == SessionEvent::FocusRegained {
            Hold::Running
        } else if event == SessionEvent::Stop {
            Hold::Stopped
        } else if event == SessionEvent::Pause {
            Hold::PausedByUser
        } else {
            Hold::PausedByFocusLoss
        }),
{
}

/// A session whose typing is still under way sends nothing while paused, and asks for
/// exactly what its phase calls for while running.
pub proof fn lemma_paused_session_waits(text: Seq<char>, phase: SessionPhase, hold: Hold)
    requires
        phase is Sending || phase is Delaying,
    ensures
        (hold == Hold::PausedByUser || hold == Hold::PausedByFocusLoss) ==> session_action(
            text,
            phase,
            hold,
        ) == SessionAction::Paused,
        hold == Hold::Running ==> session_action(text, phase, hold) == action_of(text, phase),
{
}

/// Typing a text into a window, one batch at a time: the session decides what to send
/// and when to wait; its driver performs each action and reports back.
pub struct TypingSession {
    chars: Vec<char>,
    phase: SessionPhase,
    hold: Hold,
}

impl TypingSession {
    #[verifier::type_invariant]
    spec fn well_formed(self) -> bool {
        phase_wf(self.chars@, self.phase)
    }

    /// The characters the session types.
    pub closed spec fn text(&self) -> Seq<char> {
        self.chars@
    }

    /// The phase the session is in.
    pub closed spec fn phase(&self) -> SessionPhase {
        self.phase
    }

    /// Whether the session may go on typing.
    pub closed spec fn hold(&self) -> Hold {
        self.hold
    }

    /// A session that types `text`, at its first batch.
    pub fn new(text: &str) -> (session: Self)
        ensures
            session.text() == text@,
            session.phase() == initial_phase(text@),
            session.hold() == Hold::Running,
            phase_wf(session.text(), session.phase()),
    {
        let mut chars: Vec<char> = Vec::new();
        for ch in it: text.chars()
            invariant
                chars@ == it.seq().take(it.index() as int),
        {
            chars.push(ch);
        }
        assert(chars@ == text@);
        let phase = if chars.len() == 0 {
            SessionPhase::Finished
        } else {
            proof {
                crate::keyboard::lemma_char_batches_nonempty(chars@[0]);
            }
            SessionPhase::Sending { char_index: 0, batch_index: 0 }
        };
        TypingSession { chars, phase, hold: Hold::Running }
    }

    /// How many characters the session types.
    pub fn total_chars(&self) -> (n: usize)
        ensures
            n == self.text().len(),
    {
        self.chars.len()
    }

    /// The phase the session is in.
    pub fn current_phase(&self) -> (phase: SessionPhase)
        ensures
            phase == self.phase(),
            phase_wf(self.text(), self.phase()),
    {
        proof {
            use_type_invariant(self);
        }
        self.phase
    }

    /// Whether the session may go on typing.
    pub fn current_hold(&self) -> (hold: Hold)
        ensures
            hold == self.hold(),
    {
        self.hold
    }

    /// What the driver is to do next.
    pub fn next_action(&self) -> (action: SessionAction)
        ensures
            action == session_action(self.text(), self.phase(), self.hold()),
    {
        proof {
            use_type_invariant(self);
        }
        let typing_over = match self.phase {
            SessionPhase::Sending { .. } => false,
            SessionPhase::Delaying { .. } => false,
            _ => true,
        };
        match self.hold {
            Hold::Stopped => {
                return SessionAction::Stopped;
            },
            Hold::PausedByUser => if !typing_over {
                return SessionAction::Paused;
            },
            Hold::PausedByFocusLoss => if !typing_over {
                return SessionAction::Paused;
            },
            Hold::Running => {},
        }
        match self.phase {
            SessionPhase::Sending { char_index, batch_index } => {
                let batches = key_batches_for_char(self.chars[char_index]);
                SessionAction::Send(batches[batch_index])
            },
            SessionPhase::Delaying { char_index } => SessionAction::Delay { char_index },
            SessionPhase::Finished => SessionAction::Finished,
            SessionPhase::Failed { char_index, batch_index, error } => SessionAction::Failed(error),
        }
    }

    /// Reports that the system took `sent` events of the batch being sent.
    pub fn record_sent(&mut self, sent: u32)
        ensures
            final(self).text() == old(self).text(),
            final(self).phase() == phase_after_sent(old(self).text(), old(self).phase(), sent),
            final(self).hold() == old(self).hold(),
            phase_wf(final(self).text(), final(self).phase()),
    {
        proof {
            use_type_invariant(&*self);
        }
        let phase = self.phase;
        match phase {
            SessionPhase::Sending { char_index, batch_index } => {
                let ch = self.chars[char_index];
                match batch_outcome(ch, sent) {
                    Err(error) => {
                        self.phase = SessionPhase::Failed { char_index, batch_index, error };
                    },
                    Ok(()) => {
                        let count = key_batches_for_char(ch).len();
                        if batch_index + 1 < count {
                            self.phase = SessionPhase::Sending {
                                char_index,
                                batch_index: batch_index + 1,
                            };
                        } else {
                            self.phase = SessionPhase::Delaying { char_index };
                        }
                    },
                }
            },
            _ => {},
        }
        proof {
            use_type_invariant(&*self);
        }
    }

    /// Reports that the keystroke delay after the current character is over.
    pub fn delay_done(&mut self)
        ensures
            final(self).text() == old(self).text(),
            final(self).phase() == phase_after_delay(old(self).text(), old(self).phase()),
            final(self).hold() == old(self).hold(),
            phase_wf(final(self).text(), final(self).phase()),
    {
        proof {
            use_type_invariant(&*self);
        }
        let phase = self.phase;
        match phase {
            SessionPhase::Delaying { char_index } => {
                if char_index < self.chars.len() - 1 {
                    proof {
                        crate::keyboard::lemma_char_batches_nonempty(self.chars@[char_index + 1]);
                    }
                    self.phase = SessionPhase::Sending { char_index: char_index + 1, batch_index: 0 };
                } else {
                    self.phase = SessionPhase::Finished;
                }
            },
            _ => {},
        }
        proof {
            use_type_invariant(&*self);
        }
    }

    /// Applies a pause, resume, focus or stop report to the hold; the typing itself
    /// (text and phase) is untouched. Other reports leave the hold as it is.
    fn apply_hold_event(&mut self, event: SessionEvent)
        ensures
            final(self).text() == old(self).text(),
            final(self).phase() == old(self).phase(),
            final(self).hold() == hold_after_event(old(self).hold(), event),
    {
        proof {
            use_type_invariant(&*self);
        }
        let hold = self.hold;
        let next = match hold {
            Hold::Stopped => Hold::Stopped,
            _ => match event {
                SessionEvent::Stop => Hold::Stopped,
                SessionEvent::Resume => Hold::Running,
                SessionEvent::Pause => Hold::PausedByUser,
                SessionEvent::FocusLost => match hold {
                    Hold::Running => Hold::PausedByFocusLoss,
                    _ => hold,
                },
                SessionEvent::FocusRegained => match hold {
                    Hold::PausedByFocusLoss => Hold::Running,
                    _ => hold,
                },
                _ => hold,
            },
        };
        self.hold = next;
    }

    /// The user pauses typing.
    pub fn pause(&mut self)
        ensures
            final(self).text() == old(self).text(),
            final(self).phase() == old(self).phase(),
            final(self).hold() == hold_after_event(old(self).hold(), SessionEvent::Pause),
    {
        self.apply_hold_event(SessionEvent::Pause);
    }

    /// The user resumes typing.
    pub fn resume(&mut self)
        ensures
            final(self).text() == old(self).text(),
            final(self).phase() == old(self).phase(),
            final(self).hold() == hold_after_event(old(self).hold(), SessionEvent::Resume),
    {
        self.apply_hold_event(SessionEvent::Resume);
    }

    /// The target window lost focus.
    pub fn focus_lost(&mut self)
        ensures
            final(self).text() == old(self).text(),
            final(self).phase() == old(self).phase(),
            final(self).hold() == hold_after_event(old(self).hold(), SessionEvent::FocusLost),
    {
        self.apply_hold_event(SessionEvent::FocusLost);
    }

    /// The target window has focus again.
    pub fn focus_regained(&mut self)
        ensures
            final(self).text() == old(self).text(),
            final(self).phase() == old(self).phase(),
            final(self).hold() == hold_after_event(old(self).hold(), SessionEvent::FocusRegained),
    {
        self.apply_hold_event(SessionEvent::FocusRegained);
    }

    /// The user stops typing.
    pub fn stop(&mut self)
        ensures
            final(self).text() == old(self).text(),
            final(self).phase() == old(self).phase(),
            final(self).hold() == Hold::Stopped,
    {
        self.apply_hold_event(SessionEvent::Stop);
    }
}

} // verus!
