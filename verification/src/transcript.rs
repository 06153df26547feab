//! What holds of every transcript the relay hands out.
//!
//! The laws here speak of sessions as contracts see them, and of every run
//! of events a caller may report, in whatever order: they do not rely on the
//! caller to report only what the relay asked about.

use vstd::prelude::*;
use crate::relay::{
    begin_model,
    begin_with_model,
    step_model,
    Direction,
    FrameModel,
    MessageModel,
    RelayActionModel,
    RelayEventModel,
    RelayModel,
    RelayPhase,
    RelayRequestModel,
};
use crate::settings::Settings;

verus! {

/// In a transcript no received message stands before a sent one.
pub open spec fn sent_first(transcript: Seq<MessageModel>) -> bool {
    forall|i: int, j: int|
        0 <= i < j < transcript.len() && (#[trigger] transcript[j]).direction == Direction::Sent
            ==> (#[trigger] transcript[i]).direction == Direction::Sent
}

/// A transcript begins with the first `sent` messages of a script, in the
/// script's order, and holds only received messages after them.
pub open spec fn script_then_answers(
    transcript: Seq<MessageModel>,
    script: Seq<Seq<char>>,
    sent: nat,
) -> bool {
    &&& sent <= script.len()
    &&& sent <= transcript.len()
    &&& forall|i: int|
        0 <= i < sent ==> (#[trigger] transcript[i]).direction == Direction::Sent
            && transcript[i].content == script[i]
    &&& forall|i: int|
        sent <= i < transcript.len() ==> (#[trigger] transcript[i]).direction
            == Direction::Received
}

/// What holds of a session in every state it can reach.
pub open spec fn well_formed(session: RelayModel) -> bool {
    &&& script_then_answers(session.transcript, session.messages, session.sent)
    &&& session.phase is Sending ==> session.sent < session.messages.len()
    &&& !(session.phase is Listening) ==> session.transcript.len() == session.sent
}

/// The session that a run of events leaves behind.
pub open spec fn after_events(start: RelayModel, events: Seq<RelayEventModel>) -> RelayModel
    decreases events.len(),
{
    if events.len() == 0 {
        start
    } else {
        step_model(after_events(start, events.drop_last()), events.last()).next
    }
}

/// A run of events in which no send fails.
pub open spec fn no_send_failed(events: Seq<RelayEventModel>) -> bool {
    forall|i: int| 0 <= i < events.len() ==> !(#[trigger] events[i] is SendFailed)
}

/// The entries that a run of events adds to the transcript of a listening
/// session: one for each text frame, in order.
pub open spec fn heard(events: Seq<RelayEventModel>) -> Seq<MessageModel>
    decreases events.len(),
{
    if events.len() == 0 {
        Seq::empty()
    } else {
        match events.last() {
            RelayEventModel::FrameArrived { frame: FrameModel::Text { content }, timestamp } => {
                heard(events.drop_last()).push(
                    MessageModel { direction: Direction::Received, content, timestamp },
                )
            },
            _ => heard(events.drop_last()),
        }
    }
}

/// A run of events that only reports frames.
pub open spec fn only_frames(events: Seq<RelayEventModel>) -> bool {
    forall|i: int| 0 <= i < events.len() ==> #[trigger] events[i] is FrameArrived
}

/// A transcript that begins with script messages and goes on with answers
/// has its sent messages first.
pub proof fn lemma_script_then_answers_is_ordered(
    transcript: Seq<MessageModel>,
    script: Seq<Seq<char>>,
    sent: nat,
)
    requires
        script_then_answers(transcript, script, sent),
    ensures
        sent_first(transcript),
{
    assert forall|i: int, j: int|
        0 <= i < j < transcript.len() && (#[trigger] transcript[j]).direction
            == Direction::Sent implies (#[trigger] transcript[i]).direction == Direction::Sent by {
        if j >= sent {
            assert(transcript[j].direction == Direction::Received);
        }
    }
}

/// A session starts well formed, with the script of its request.
pub proof fn lemma_begin_well_formed(
    request: RelayRequestModel,
    parsed: Result<Seq<char>, Seq<char>>,
    settings: Settings,
)
    ensures
        well_formed(begin_with_model(request, parsed, settings).next),
        begin_with_model(request, parsed, settings).next.messages == request.messages,
        !(begin_with_model(request, parsed, settings).next.phase is Listening),
{
}

/// Every step keeps a session well formed and its script what it was.
pub proof fn lemma_step_keeps_well_formed(session: RelayModel, event: RelayEventModel)
    requires
        well_formed(session),
    ensures
        well_formed(step_model(session, event).next),
        step_model(session, event).next.messages == session.messages,
{
    let next = step_model(session, event).next;
    match (session.phase, event) {
        (RelayPhase::Sending, RelayEventModel::Sent { timestamp }) => {
            assert forall|i: int| 0 <= i < next.sent implies (#[trigger] next.transcript[i]).direction
                == Direction::Sent && next.transcript[i].content == next.messages[i] by {
                if i < session.sent {
                    assert(next.transcript[i] == session.transcript[i]);
                }
            }
        },
        (RelayPhase::Listening, RelayEventModel::FrameArrived { frame, timestamp }) => {
            assert forall|i: int| 0 <= i < next.sent implies (#[trigger] next.transcript[i]).direction
                == Direction::Sent && next.transcript[i].content == next.messages[i] by {
                assert(next.transcript[i] == session.transcript[i]);
            }
            assert forall|i: int| next.sent <= i < next.transcript.len() implies (
            #[trigger] next.transcript[i]).direction == Direction::Received by {
                if i < session.transcript.len() {
                    assert(next.transcript[i] == session.transcript[i]);
                }
            }
        },
        _ => {},
    }
}

/// Whatever a caller reports, and in whatever order, the session stays
/// well formed and keeps the script of its request. Where no send failed,
/// a session that listens has sent its whole script.
pub proof fn lemma_reachable_is_well_formed(
    request: RelayRequestModel,
    settings: Settings,
    events: Seq<RelayEventModel>,
)
    ensures
        well_formed(after_events(begin_model(request, settings).next, events)),
        after_events(begin_model(request, settings).next, events).messages == request.messages,
        no_send_failed(events) && after_events(begin_model(request, settings).next, events).phase
            is Listening ==> after_events(begin_model(request, settings).next, events).sent
            == request.messages.len(),
    decreases events.len(),
{
    let start = begin_model(request, settings).next;
    lemma_begin_well_formed(request, crate::relay::url_parse(request.url), settings);
    if events.len() > 0 {
        let earlier = events.drop_last();
        lemma_reachable_is_well_formed(request, settings, earlier);
        let before = after_events(start, earlier);
        lemma_step_keeps_well_formed(before, events.last());
        if no_send_failed(events) {
            assert forall|i: int| 0 <= i < earlier.len() implies !(#[trigger] earlier[i]
                is SendFailed) by {
                assert(earlier[i] == events[i]);
            }
            assert(!(events[events.len() - 1] is SendFailed));
        }
    }
}

/// Transcript ordering: whenever a session completes, its result is marked
/// as completed and its transcript holds the messages that went out, in the
/// order of the script, before every message that came in. Where no send
/// failed, the messages that went out are the whole script.
pub proof fn lemma_transcript_ordering(
    request: RelayRequestModel,
    settings: Settings,
    events: Seq<RelayEventModel>,
    last: RelayEventModel,
)
    ensures
        ({
            let session = after_events(begin_model(request, settings).next, events);
            step_model(session, last).action matches RelayActionModel::Complete { result } ==> {
                &&& result.status == "completed"@
                &&& script_then_answers(result.messages, request.messages, session.sent)
                &&& sent_first(result.messages)
                &&& no_send_failed(events) ==> session.sent == request.messages.len()
            }
        }),
{
    let session = after_events(begin_model(request, settings).next, events);
    lemma_reachable_is_well_formed(request, settings, events);
    lemma_script_then_answers_is_ordered(session.transcript, session.messages, session.sent);
}

/// While a session listens, a run of frames adds one entry for each text
/// frame to its transcript and changes nothing else.
pub proof fn lemma_listening_collects(session: RelayModel, frames: Seq<RelayEventModel>)
    requires
        session.phase is Listening,
        only_frames(frames),
    ensures
        after_events(session, frames).phase is Listening,
        after_events(session, frames).sent == session.sent,
        after_events(session, frames).messages == session.messages,
        after_events(session, frames).transcript == session.transcript + heard(frames),
    decreases frames.len(),
{
    if frames.len() == 0 {
        assert(session.transcript + heard(frames) =~= session.transcript);
    } else {
        let earlier = frames.drop_last();
        assert forall|i: int| 0 <= i < earlier.len() implies #[trigger] earlier[i]
            is FrameArrived by {
            assert(earlier[i] == frames[i]);
        }
        lemma_listening_collects(session, earlier);
        let before = after_events(session, earlier);
        assert(frames[frames.len() - 1] is FrameArrived);
        assert(after_events(session, frames).transcript =~= session.transcript + heard(frames));
    }
}

/// Partial send survives: when a message cannot be sent, the session
/// listens all the same, and its result, marked as completed, holds the
/// messages that went out before, followed by what was heard while
/// listening. No error is reported.
pub proof fn lemma_partial_send_survives(
    request: RelayRequestModel,
    settings: Settings,
    events: Seq<RelayEventModel>,
    frames: Seq<RelayEventModel>,
    end: RelayEventModel,
)
    requires
        after_events(begin_model(request, settings).next, events).phase is Sending,
        only_frames(frames),
        end is ListenEnded,
    ensures
        ({
            let sending = after_events(begin_model(request, settings).next, events);
            let failed = step_model(sending, RelayEventModel::SendFailed);
            let listened = after_events(failed.next, frames);
            let done = step_model(listened, end);
            &&& failed.action == RelayActionModel::Listen { window_secs: sending.window_secs }
            &&& done.action matches RelayActionModel::Complete { result }
            &&& result.status == "completed"@
            &&& result.messages == sending.transcript + heard(frames)
            &&& sending.transcript.len() == sending.sent
            &&& sending.sent < request.messages.len()
            &&& script_then_answers(result.messages, request.messages, sending.sent)
        }),
{
    let sending = after_events(begin_model(request, settings).next, events);
    lemma_reachable_is_well_formed(request, settings, events);
    let failed = step_model(sending, RelayEventModel::SendFailed);
    lemma_step_keeps_well_formed(sending, RelayEventModel::SendFailed);
    lemma_listening_collects(failed.next, frames);
    let listened = after_events(failed.next, frames);
    lemma_keeps_well_formed(failed.next, frames);
}

/// A run of events keeps a well-formed session well formed.
pub proof fn lemma_keeps_well_formed(session: RelayModel, events: Seq<RelayEventModel>)
    requires
        well_formed(session),
    ensures
        well_formed(after_events(session, events)),
        after_events(session, events).messages == session.messages,
    decreases events.len(),
{
    if events.len() > 0 {
        lemma_keeps_well_formed(session, events.drop_last());
        lemma_step_keeps_well_formed(after_events(session, events.drop_last()), events.last());
    }
}

/// Only connecting can fail: a step reports an error only from the
/// connecting phase, and a URL that does not parse is reported before any.
pub proof fn lemma_only_connecting_fails(session: RelayModel, event: RelayEventModel)
    ensures
        step_model(session, event).action is Fail ==> session.phase is Connecting && step_model(
            session,
            event,
        ).next.phase is Failed,
        step_model(session, event).next.phase is Sending ==> session.phase is Connecting
            || session.phase is Pausing || session.phase is Sending,
        session.phase is Failed || session.phase is Completed ==> step_model(session, event).action
            is Ignore && step_model(session, event).next == session,
{
}

} // verus!
