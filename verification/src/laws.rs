//! What holds of every session, proved of the state machine that
//! [`Session`](crate::session::Session) carries out.

use crate::message::{triggers, ChatMessageView};
use crate::model::{Phase, SessionView};
use crate::protocol::{play_in, ActionView, EventView, ReplyView};
use vstd::prelude::*;

verus! {

/// A step keeps a session well formed.
pub proof fn lemma_step_keeps_wf(s: SessionView, event: EventView, now: nat)
    requires
        s.wf(),
    ensures
        s.step(event, now).0.wf(),
{
}

/// A step never touches the configuration, and once the session runs it
/// keeps its name.
pub proof fn lemma_step_keeps_config(s: SessionView, event: EventView, now: nat)
    ensures
        s.step(event, now).0.config == s.config,
        s.phase != Phase::Connecting ==> s.step(event, now).0.username == s.username,
{
}

/// The channels are joined in the order of the list, one at a time. With
/// the transport open, the session asks for the first channel; each
/// completed join is followed by the request for the next channel, and the
/// last one by the start of the run, with replies allowed from that instant
/// on. A session with no channel to join runs as soon as the transport is
/// open.
pub proof fn lemma_joins_in_list_order(s: SessionView, name: Seq<char>, now: nat)
    requires
        s.wf(),
    ensures
        s.phase == Phase::Connecting && s.config.channels.len() > 0 ==> {
            &&& s.step(EventView::Connected(name), now).1 == ActionView::Join(s.config.channels[0])
            &&& s.step(EventView::Connected(name), now).0.phase == Phase::Joining
            &&& s.step(EventView::Connected(name), now).0.joined == 0
        },
        s.phase == Phase::Connecting && s.config.channels.len() == 0 ==> {
            &&& s.step(EventView::Connected(name), now).1 == ActionView::Receive
            &&& s.step(EventView::Connected(name), now).0.phase == Phase::Running
            &&& s.step(EventView::Connected(name), now).0.next_allowed == now
        },
        s.phase == Phase::Connecting ==> s.step(EventView::Connected(name), now).0.username
            == name,
        s.phase == Phase::Joining && s.joined + 1 < s.config.channels.len() ==> {
            &&& s.step(EventView::Joined, now).1 == ActionView::Join(
                s.config.channels[s.joined as int + 1],
            )
            &&& s.step(EventView::Joined, now).0.phase == Phase::Joining
            &&& s.step(EventView::Joined, now).0.joined == s.joined + 1
        },
        s.phase == Phase::Joining && s.joined + 1 == s.config.channels.len() ==> {
            &&& s.step(EventView::Joined, now).1 == ActionView::Receive
            &&& s.step(EventView::Joined, now).0.phase == Phase::Running
            &&& s.step(EventView::Joined, now).0.joined == s.config.channels.len()
            &&& s.step(EventView::Joined, now).0.next_allowed == now
        },
{
}

/// The first trigger after the start is answered. A session starts to run
/// when its last join is complete or, with no channel to join, when the
/// transport is open. A trigger that comes in at that instant or later is
/// not held back.
pub proof fn lemma_first_trigger_is_answered(
    s: SessionView,
    event: EventView,
    start: nat,
    message: ChatMessageView,
    now: nat,
)
    requires
        s.phase != Phase::Running,
        s.step(event, start).0.phase == Phase::Running,
        triggers(message, s.step(event, start).0.username),
        start <= now,
    ensures
        s.step(event, start).0.next_allowed == start,
        s.step(event, start).0.step(EventView::Message(message), now).1 == ActionView::Send(
            play_in(message.channel),
        ),
{
}

/// A reply is sent for a line of chat that is a trigger and is not held
/// back by the cooldown, and for nothing else: only while the session runs,
/// exactly one for such a line, to the channel the line came from.
pub proof fn lemma_reply_iff_trigger_passes(s: SessionView, event: EventView, now: nat)
    ensures
        s.step(event, now).1 is Send <==> {
            &&& s.phase == Phase::Running
            &&& event matches EventView::Message(message)
            &&& triggers(message, s.username)
            &&& !s.gate().blocks(now)
        },
        s.step(event, now).1 matches ActionView::Send(reply) ==> {
            &&& event matches EventView::Message(message)
            &&& reply == play_in(message.channel)
            &&& s.step(event, now).0 == (SessionView { next_allowed: now + s.gate().wait, ..s })
        },
{
}

/// One reply per cooldown window. When a running session has answered a
/// trigger at `t0`, the same line less than the waiting time later is
/// passed over and changes nothing; exactly the waiting time later it is
/// answered again.
pub proof fn lemma_reply_once_per_window(
    s: SessionView,
    message: ChatMessageView,
    t0: nat,
    delta: nat,
)
    requires
        s.phase == Phase::Running,
        triggers(message, s.username),
        !s.gate().blocks(t0),
    ensures
        s.step(EventView::Message(message), t0).1 == ActionView::Send(play_in(message.channel)),
        delta < s.gate().wait ==> ({
            let answered = s.step(EventView::Message(message), t0).0;
            answered.step(EventView::Message(message), t0 + delta) == (
                answered,
                ActionView::Receive,
            )
        }),
        ({
            let answered = s.step(EventView::Message(message), t0).0;
            answered.step(EventView::Message(message), t0 + s.gate().wait).1 == ActionView::Send(
                play_in(message.channel),
            )
        }),
{
}

/// A session that has ended or failed takes nothing in any more: whatever
/// is reported afterwards leaves it as it is, and no reply is sent.
pub proof fn lemma_nothing_after_the_end(s: SessionView, events: Seq<(EventView, nat)>)
    requires
        s.phase == Phase::Ended || s.phase == Phase::Failed,
    ensures
        s.run(events) == s,
        s.sent(events) == Seq::<ReplyView>::empty(),
    decreases events.len(),
{
    if events.len() > 0 {
        lemma_nothing_after_the_end(s, events.drop_first());
    }
}

/// A failure of the transport is fatal. Reported to a session that has not
/// ended, it makes the session give up, and nothing that is reported later
/// is taken in: the session stays failed and sends no reply.
pub proof fn lemma_transport_failure_is_fatal(
    s: SessionView,
    now: nat,
    later: Seq<(EventView, nat)>,
)
    requires
        s.phase != Phase::Ended,
    ensures
        s.step(EventView::Failed, now).1 == ActionView::Abort,
        s.step(EventView::Failed, now).0 == (SessionView { phase: Phase::Failed, ..s }),
        s.step(EventView::Failed, now).0.run(later) == s.step(EventView::Failed, now).0,
        s.step(EventView::Failed, now).0.sent(later) == Seq::<ReplyView>::empty(),
{
    lemma_nothing_after_the_end(s.step(EventView::Failed, now).0, later);
}

} // verus!
