//! What holds of a composer over whole sequences of events.

use vstd::prelude::*;
use crate::environment::{mode_of, EnvironmentMode, PrimaryInterface};
use crate::decoder::DecodedAsset;
use crate::fetch::fetch_status;
use crate::loader::{
    attachment_for, corrected_root, desktop_controller, event_in_range, in_session,
    placed_before_rig, step, Attachment, CommandView, Event, LoaderView, Phase, Reply,
    SessionError, SessionOutcome,
};

verus! {

/// The events after the first.
pub open spec fn rest(events: Seq<Event>) -> Seq<Event> {
    events.subrange(1, events.len() as int)
}

/// The composer after a sequence of events.
pub open spec fn run(s: LoaderView, events: Seq<Event>) -> LoaderView
    decreases events.len(),
{
    if events.len() == 0 {
        s
    } else {
        run(step(s, events[0]).0, rest(events))
    }
}

/// The answer asks the host to attach an asset.
pub open spec fn is_attach(reply: Reply) -> bool {
    reply matches Ok(CommandView::Attach(_))
}

/// How many attachments the composer asks for along a sequence of events.
pub open spec fn attachments(s: LoaderView, events: Seq<Event>) -> nat
    decreases events.len(),
{
    if events.len() == 0 {
        0
    } else {
        let first: nat = if is_attach(step(s, events[0]).1) {
            1
        } else {
            0
        };
        first + attachments(step(s, events[0]).0, rest(events))
    }
}

/// No event of the sequence asks for a new session.
pub open spec fn no_start(events: Seq<Event>) -> bool {
    forall|i: int| 0 <= i < events.len() ==> !(#[trigger] events[i] is Start)
}

/// Outside a session, and as long as none is started, events change
/// nothing and nothing is attached.
pub proof fn lemma_nothing_happens_outside_a_session(s: LoaderView, events: Seq<Event>)
    requires
        !in_session(s.phase),
        no_start(events),
    ensures
        run(s, events) == s,
        attachments(s, events) == 0,
    decreases events.len(),
{
    if events.len() > 0 {
        assert(!(events[0] is Start));
        assert(step(s, events[0]).0 == s);
        assert forall|i: int| 0 <= i < rest(events).len() implies !(#[trigger] rest(events)[i]
            is Start) by {
            assert(rest(events)[i] == events[i + 1]);
        }
        lemma_nothing_happens_outside_a_session(s, rest(events));
    }
}

/// Once a fetch has failed, by the transport or by the response code, no
/// attachment is ever asked for, whatever events follow, until the host
/// starts another session.
pub proof fn lemma_failed_fetch_never_attaches(
    s: LoaderView,
    result: i64,
    response_code: i64,
    body: Seq<u8>,
    later: Seq<Event>,
)
    requires
        s.phase is Fetching,
        !(fetch_status(result, response_code) is Success),
        no_start(later),
    ensures
        attachments(s, seq![Event::FetchCompleted { result, response_code, body }] + later) == 0,
        run(s, seq![Event::FetchCompleted { result, response_code, body }] + later).phase
            is Done,
{
    let first = Event::FetchCompleted { result, response_code, body };
    let events = seq![first] + later;
    assert(events[0] == first);
    assert(rest(events) =~= later);
    let after = step(s, first).0;
    assert(after.phase is Done);
    lemma_nothing_happens_outside_a_session(after, later);
}

/// Whatever stage fails, the session ends there: the composer is done
/// with that failure as its outcome, and no attachment is asked for until
/// the host starts another session. An event that is merely refused, as
/// out of turn or because a session is under way, is no failure of a stage.
pub proof fn lemma_failure_ends_the_session(
    s: LoaderView,
    event: Event,
    error: SessionError,
    later: Seq<Event>,
)
    requires
        step(s, event).1 == Err::<CommandView, SessionError>(error),
        error != SessionError::OutOfTurn,
        error != SessionError::SessionInProgress,
        no_start(later),
    ensures
        step(s, event).0.phase == (Phase::Done { outcome: SessionOutcome::Failed(error) }),
        attachments(step(s, event).0, later) == 0,
{
    lemma_nothing_happens_outside_a_session(step(s, event).0, later);
}

/// A fetch has one result. Once its completion was taken, a second
/// completion is refused as out of turn and changes nothing.
pub proof fn lemma_one_result_per_fetch(
    s: LoaderView,
    result: i64,
    response_code: i64,
    body: Seq<u8>,
    again: Event,
)
    requires
        s.phase is Fetching,
        again is FetchCompleted,
    ensures
        ({
            let after = step(s, Event::FetchCompleted { result, response_code, body }).0;
            step(after, again) == (after, Err::<CommandView, SessionError>(
                SessionError::OutOfTurn,
            ))
        }),
{
}

/// From one request for a session to the next, at most one attachment is
/// asked for, and none once the session is over.
pub proof fn lemma_at_most_one_attachment(s: LoaderView, events: Seq<Event>)
    requires
        no_start(events),
    ensures
        attachments(s, events) <= 1,
        !in_session(s.phase) ==> attachments(s, events) == 0,
    decreases events.len(),
{
    if !in_session(s.phase) {
        lemma_nothing_happens_outside_a_session(s, events);
    } else if events.len() > 0 {
        assert(!(events[0] is Start));
        assert forall|i: int| 0 <= i < rest(events).len() implies !(#[trigger] rest(events)[i]
            is Start) by {
            assert(rest(events)[i] == events[i + 1]);
        }
        let after = step(s, events[0]).0;
        lemma_at_most_one_attachment(after, rest(events));
        if is_attach(step(s, events[0]).1) {
            assert(after.phase is Done);
        }
    }
}

/// A session whose fetch succeeds and whose payload decodes to a root asks
/// for exactly one attachment, as its last command. The asset goes under
/// the immersive rig or under a new desktop controller, never both, as the
/// one look at the host's display decides; the session records that mode.
pub proof fn lemma_successful_session_attaches_once(
    s: LoaderView,
    body: Seq<u8>,
    asset: DecodedAsset,
    primary: PrimaryInterface,
)
    requires
        s.phase is Fetching,
        event_in_range(Event::Decoded(Ok(Some(asset)))),
    ensures
        ({
            let events = seq![
                Event::FetchCompleted { result: 0, response_code: 200, body },
                Event::Decoded(Ok(Some(asset))),
                Event::Environment(primary),
            ];
            let before_last = run(s, events.subrange(0, 2));
            let mode = mode_of(primary);
            &&& attachments(s, events) == 1
            &&& step(before_last, Event::Environment(primary)).1 == Ok::<
                CommandView,
                SessionError,
            >(CommandView::Attach(attachment_for(mode, corrected_root(asset.root))))
            &&& run(s, events).phase == (Phase::Done { outcome: SessionOutcome::Attached(mode) })
            &&& mode == EnvironmentMode::Immersive ==> attachment_for(
                mode,
                corrected_root(asset.root),
            ) == (Attachment::UnderImmersiveRig {
                root: placed_before_rig(corrected_root(asset.root)),
            })
            &&& mode == EnvironmentMode::Desktop ==> attachment_for(
                mode,
                corrected_root(asset.root),
            ) == (Attachment::UnderDesktopController {
                controller: desktop_controller(),
                root: corrected_root(asset.root),
            })
        }),
{
    let e0 = Event::FetchCompleted { result: 0, response_code: 200, body };
    let e1 = Event::Decoded(Ok(Some(asset)));
    let e2 = Event::Environment(primary);
    let events = seq![e0, e1, e2];
    let s1 = step(s, e0).0;
    let s2 = step(s1, e1).0;
    let s3 = step(s2, e2).0;
    assert(rest(events) =~= seq![e1, e2]);
    assert(rest(seq![e1, e2]) =~= seq![e2]);
    assert(rest(seq![e2]) =~= Seq::<Event>::empty());
    assert(run(s3, Seq::<Event>::empty()) == s3);
    assert(run(s2, seq![e2]) == s3);
    assert(run(s1, seq![e1, e2]) == s3);
    assert(attachments(s3, Seq::<Event>::empty()) == 0);
    assert(attachments(s2, seq![e2]) == 1);
    assert(attachments(s1, seq![e1, e2]) == 1);
    let prefix = events.subrange(0, 2);
    assert(prefix =~= seq![e0, e1]);
    assert(rest(seq![e0, e1]) =~= seq![e1]);
    assert(rest(seq![e1]) =~= Seq::<Event>::empty());
    assert(run(s2, Seq::<Event>::empty()) == s2);
    assert(run(s1, seq![e1]) == s2);
    assert(run(s, seq![e0, e1]) == s2);
}

/// A request for a session that arrives while one is under way is rejected
/// with its own error, and the session goes on as if the request had never
/// been made: same states, same attachments.
pub proof fn lemma_second_start_is_rejected(s: LoaderView, later: Seq<Event>)
    requires
        in_session(s.phase),
    ensures
        step(s, Event::Start) == (s, Err::<CommandView, SessionError>(
            SessionError::SessionInProgress,
        )),
        run(s, seq![Event::Start] + later) == run(s, later),
        attachments(s, seq![Event::Start] + later) == attachments(s, later),
{
    let events = seq![Event::Start] + later;
    assert(events[0] == Event::Start);
    assert(rest(events) =~= later);
}

} // verus!
