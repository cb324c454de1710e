use channel_events::typing::{
    next_typing, start_channel_typing_loop, TypingAction, TypingEvent,
};

#[test]
fn nothing_is_typed_without_a_way_to_send() {
    assert_eq!(start_channel_typing_loop(false), None);
    assert_eq!(start_channel_typing_loop(true), Some(TypingAction::Send));
}

#[test]
fn typing_repeats_every_four_seconds_until_done() {
    let wait = TypingAction::Wait { seconds: 4 };
    assert_eq!(next_typing(TypingEvent::Sent), wait);
    assert_eq!(next_typing(TypingEvent::Failed), wait);
    assert_eq!(next_typing(TypingEvent::Elapsed), TypingAction::Send);
    assert_eq!(next_typing(TypingEvent::Done), TypingAction::Stop);
}
