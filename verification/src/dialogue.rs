//! The steps of the conversation that leads to a lookup: what is done on each
//! message or choice, and where the conversation stands afterwards.

use vstd::prelude::*;
use vstd::string::StringExecFns;

verus! {

/// Where a conversation stands.
#[derive(Debug, Clone, Copy, PartialEq, Eq, Structural)]
pub enum State {
    /// Nothing was said yet.
    Start,
    /// The modes are about to be offered.
    InlineChooseMode,
    /// The modes were offered and the choice is awaited.
    InlineRecieveMode,
    /// The lookup of cables was chosen and the room number is awaited.
    CablesRecieveNumber,
}

impl Default for State {
    /// A conversation begins at the start.
    fn default() -> (state: State)
        ensures
            state == State::Start,
    {
        State::Start
    }
}

/// What is done in answer to a message or a choice.
#[derive(Debug, Clone, Copy, PartialEq, Eq, Structural)]
pub enum Action {
    /// Offer the modes to choose from.
    OfferModes,
    /// Ask for the room number.
    AskRoom,
    /// Take the message as a room number, send the cables of that room, and offer
    /// the modes again.
    Lookup,
    /// Say that the choice is not known.
    UnknownChoice,
    /// Say that the message cannot be handled.
    Invalid,
    /// Do nothing.
    Ignore,
}

/// Where the conversation goes after an action.
#[derive(Debug, Clone, Copy, PartialEq, Eq, Structural)]
pub enum Next {
    /// It stays where it stands.
    Stay,
    /// It moves to the given state.
    Go(State),
    /// It ends; the next one begins at the start.
    Exit,
}

/// One step of the conversation.
#[derive(Debug, Clone, Copy, PartialEq, Eq, Structural)]
pub struct Step {
    pub action: Action,
    pub next: Next,
}

/// The name of the one mode on offer, the lookup of cables.
pub open spec fn cables_mode() -> Seq<char> {
    seq!['C', 'a', 'b', 'l', 'e', 's']
}

/// The step that a message makes: the start command opens a conversation that has
/// not begun, a message that comes while the room number is awaited is looked up,
/// and any other message cannot be handled.
pub open spec fn message_step(state: State, is_start_command: bool) -> Step {
    if state == State::Start && is_start_command {
        Step { action: Action::OfferModes, next: Next::Go(State::InlineRecieveMode) }
    } else if state == State::CablesRecieveNumber {
        Step { action: Action::Lookup, next: Next::Go(State::InlineRecieveMode) }
    } else {
        Step { action: Action::Invalid, next: Next::Stay }
    }
}

/// The step that a choice makes: while a choice is awaited, the lookup of cables
/// leads on to the room number and any other mode ends the conversation. A choice
/// without a mode, or one that is not awaited, is passed over.
pub open spec fn choice_step(state: State, mode: Option<Seq<char>>) -> Step {
    if state == State::InlineRecieveMode {
        match mode {
            Some(name) => if name == cables_mode() {
                Step { action: Action::AskRoom, next: Next::Go(State::CablesRecieveNumber) }
            } else {
                Step { action: Action::UnknownChoice, next: Next::Exit }
            },
            None => Step { action: Action::Ignore, next: Next::Stay },
        }
    } else {
        Step { action: Action::Ignore, next: Next::Stay }
    }
}

/// Decides what a message leads to in the given state.
pub fn receive_message(state: State, is_start_command: bool) -> (step: Step)
    ensures
        step == message_step(state, is_start_command),
{
    match state {
        State::Start => if is_start_command {
            Step { action: Action::OfferModes, next: Next::Go(State::InlineRecieveMode) }
        } else {
            Step { action: Action::Invalid, next: Next::Stay }
        },
        State::CablesRecieveNumber => Step {
            action: Action::Lookup,
            next: Next::Go(State::InlineRecieveMode),
        },
        _ => Step { action: Action::Invalid, next: Next::Stay },
    }
}

/// Decides what the choice of a mode leads to in the given state.
pub fn receive_choosed_mode(state: State, mode: &Option<String>) -> (step: Step)
    ensures
        step == choice_step(state, mode.deep_view()),
{
    proof {
        reveal_strlit("Cables");
    }
    assert("Cables"@ =~= cables_mode());
    match state {
        State::InlineRecieveMode => match mode {
            Some(name) => {
                let cables = String::from_str("Cables");
                if *name == cables {
                    Step { action: Action::AskRoom, next: Next::Go(State::CablesRecieveNumber) }
                } else {
                    Step { action: Action::UnknownChoice, next: Next::Exit }
                }
            },
            None => Step { action: Action::Ignore, next: Next::Stay },
        },
        _ => Step { action: Action::Ignore, next: Next::Stay },
    }
}

} // verus!
