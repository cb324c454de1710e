//! The typing indicator: how often it is sent, and when it stops.

use vstd::prelude::*;

verus! {

/// How many seconds pass between two sends.
pub const TYPING_INTERVAL: u64 = 4;

/// What the indicator does next.
#[derive(Debug, Clone, Copy, PartialEq, Eq, Structural)]
pub enum TypingAction {
    /// Tell the chat that the bot is typing.
    Send,
    /// Wait for that many seconds, or for the end of the turn.
    Wait { seconds: u64 },
    Stop,
}

/// What came of the last action.
#[derive(Debug, Clone, Copy, PartialEq, Eq, Structural)]
pub enum TypingEvent {
    /// The chat was told.
    Sent,
    /// The chat could not be told.
    Failed,
    /// The time to wait is over.
    Elapsed,
    /// The turn ended while the indicator waited.
    Done,
}

/// The first action: the chat is told at once, where there is a way to tell it.
pub open spec fn first_typing(outbound: bool) -> Option<TypingAction> {
    if outbound {
        Some(TypingAction::Send)
    } else {
        None
    }
}

/// Sends and waits take turns until the turn ends; a send that fails changes nothing.
pub open spec fn typing_after(event: TypingEvent) -> TypingAction {
    match event {
        TypingEvent::Sent | TypingEvent::Failed => TypingAction::Wait { seconds: TYPING_INTERVAL },
        TypingEvent::Elapsed => TypingAction::Send,
        TypingEvent::Done => TypingAction::Stop,
    }
}

/// How the indicator starts; `None` where nothing can be sent, and there is no indicator.
pub fn start_channel_typing_loop(outbound: bool) -> (r: Option<TypingAction>)
    ensures
        r == first_typing(outbound),
{
    if outbound {
        Some(TypingAction::Send)
    } else {
        None
    }
}

/// What the indicator does next.
pub fn next_typing(event: TypingEvent) -> (r: TypingAction)
    ensures
        r == typing_after(event),
{
    match event {
        TypingEvent::Sent | TypingEvent::Failed => TypingAction::Wait { seconds: TYPING_INTERVAL },
        TypingEvent::Elapsed => TypingAction::Send,
        TypingEvent::Done => TypingAction::Stop,
    }
}

/// Whether an event can come of an action.
pub open spec fn comes_of(event: TypingEvent, action: TypingAction) -> bool {
    match action {
        TypingAction::Send => event == TypingEvent::Sent || event == TypingEvent::Failed,
        TypingAction::Wait { .. } => event == TypingEvent::Elapsed || event == TypingEvent::Done,
        TypingAction::Stop => false,
    }
}

/// The action after those events.
pub open spec fn typing_run(events: Seq<TypingEvent>) -> TypingAction {
    if events.len() == 0 {
        TypingAction::Send
    } else {
        typing_after(events.last())
    }
}

/// Every event comes of the action before it.
pub open spec fn typing_course(events: Seq<TypingEvent>) -> bool
    decreases events.len(),
{
    events.len() == 0 || typing_course(events.drop_last()) && comes_of(
        events.last(),
        typing_run(events.drop_last()),
    )
}

/// The indicator runs exactly as long as the turn: whatever sends fail, it stops where the
/// turn ended, and nowhere else. Until then it sends at every second step and waits at the
/// others.
pub proof fn typing_lasts_as_long_as_the_turn(events: Seq<TypingEvent>)
    requires
        typing_course(events),
    ensures
        typing_run(events) is Stop <==> events.contains(TypingEvent::Done),
        typing_run(events) is Send ==> events.len() % 2 == 0,
        typing_run(events) is Wait ==> events.len() % 2 == 1,
    decreases events.len(),
{
    if events.len() > 0 {
        let before = events.drop_last();
        let last = events.last();
        typing_lasts_as_long_as_the_turn(before);
        assert(events =~= before.push(last));
        assert(events[events.len() - 1] == last);
        if events.contains(TypingEvent::Done) && last != TypingEvent::Done {
            let i = choose|i: int| 0 <= i < events.len() && events[i] == TypingEvent::Done;
            assert(before[i] == TypingEvent::Done);
        }
    }
}

} // verus!
