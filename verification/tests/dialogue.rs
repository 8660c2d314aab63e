use room_cables::dialogue::{receive_choosed_mode, receive_message, Action, Next, State, Step};

#[test]
fn conversation_begins_at_the_start() {
    assert_eq!(State::default(), State::Start);
}

#[test]
fn start_command_offers_the_modes() {
    assert_eq!(
        receive_message(State::Start, true),
        Step { action: Action::OfferModes, next: Next::Go(State::InlineRecieveMode) }
    );
}

#[test]
fn awaited_message_is_looked_up() {
    for is_start_command in [false, true] {
        assert_eq!(
            receive_message(State::CablesRecieveNumber, is_start_command),
            Step { action: Action::Lookup, next: Next::Go(State::InlineRecieveMode) }
        );
    }
}

#[test]
fn other_messages_cannot_be_handled() {
    let stay = Step { action: Action::Invalid, next: Next::Stay };
    assert_eq!(receive_message(State::Start, false), stay);
    assert_eq!(receive_message(State::InlineChooseMode, false), stay);
    assert_eq!(receive_message(State::InlineChooseMode, true), stay);
    assert_eq!(receive_message(State::InlineRecieveMode, false), stay);
    assert_eq!(receive_message(State::InlineRecieveMode, true), stay);
}

#[test]
fn choice_of_cables_asks_for_the_room() {
    assert_eq!(
        receive_choosed_mode(State::InlineRecieveMode, &Some("Cables".to_string())),
        Step { action: Action::AskRoom, next: Next::Go(State::CablesRecieveNumber) }
    );
}

#[test]
fn unknown_choice_ends_the_conversation() {
    for mode in ["cables", "Cable", "", "Rooms"] {
        assert_eq!(
            receive_choosed_mode(State::InlineRecieveMode, &Some(mode.to_string())),
            Step { action: Action::UnknownChoice, next: Next::Exit }
        );
    }
}

#[test]
fn choice_that_is_not_awaited_is_passed_over() {
    let stay = Step { action: Action::Ignore, next: Next::Stay };
    assert_eq!(receive_choosed_mode(State::InlineRecieveMode, &None), stay);
    for state in [State::Start, State::InlineChooseMode, State::CablesRecieveNumber] {
        assert_eq!(receive_choosed_mode(state, &Some("Cables".to_string())), stay);
        assert_eq!(receive_choosed_mode(state, &None), stay);
    }
}
