//! The calculator's dialogue as a state machine. The caller owns the console
//! and the numbers: it carries out each [`Action`] and reports what happened
//! as an [`Event`]; [`step`] decides where the dialogue goes next.

use crate::calculator::line::{affirmative, read_operator, trimmed, wants_another_round};
use crate::calculator::operator::{dispatched, operator_of, resolve, resolved, CalcError, Operator};
use vstd::prelude::*;

verus! {

/// What a line gave when it was read as a number.
#[derive(Clone, Copy, Debug, PartialEq, Eq, Structural)]
pub enum Reading {
    /// The line is not a number.
    Rejected,
    /// The line is a number equal to zero.
    Zero,
    /// The line is a number other than zero.
    NonZero,
}

/// Where the dialogue stands.
#[derive(Clone, Copy, Debug, PartialEq, Eq)]
pub enum State {
    /// Waiting for the first operand.
    AwaitingFirstOperand,
    /// Waiting for the operator token.
    AwaitingOperator,
    /// Waiting for the second operand; `operator` is what the operator line
    /// named, if anything.
    AwaitingSecondOperand { operator: Option<Operator> },
    /// The round is decided and its outcome is being shown.
    Computed { outcome: Result<Operator, CalcError> },
    /// Waiting for the answer to "continue?".
    AwaitingContinue,
    /// The dialogue is over.
    Exit,
}

/// What the caller reports back.
#[derive(Debug, PartialEq, Eq)]
pub enum Event {
    /// A line was read as a number.
    Number(Reading),
    /// A line was read as text.
    Line(String),
    /// The outcome of the round has been shown.
    Shown,
}

/// What the caller is to do next.
#[derive(Clone, Copy, Debug, PartialEq, Eq)]
pub enum Action {
    /// Ask for the first operand and read it as a number.
    AskFirstOperand,
    /// Say that the line was not a number, then ask for the first operand
    /// again and read it as a number.
    RejectNumber,
    /// Ask for the operator and read it as text.
    AskOperator,
    /// Ask for the second operand and read it as a number.
    AskSecondOperand,
    /// Apply the operator to the two operands and show the value.
    ShowResult(Operator),
    /// Show the error.
    ShowError(CalcError),
    /// Ask whether to go on and read the answer as text.
    AskContinue,
    /// Say goodbye and stop.
    Farewell,
}

impl State {
    /// How far into a round the state is, counted from the first prompt.
    pub open spec fn stage(self) -> nat {
        match self {
            State::AwaitingFirstOperand => 0,
            State::AwaitingOperator => 1,
            State::AwaitingSecondOperand { .. } => 2,
            State::Computed { .. } => 3,
            State::AwaitingContinue => 4,
            State::Exit => 5,
        }
    }

    /// The action that leads to the event this state waits for.
    pub open spec fn pending(self) -> Action {
        match self {
            State::AwaitingFirstOperand => Action::AskFirstOperand,
            State::AwaitingOperator => Action::AskOperator,
            State::AwaitingSecondOperand { .. } => Action::AskSecondOperand,
            State::Computed { outcome: Ok(operator) } => Action::ShowResult(operator),
            State::Computed { outcome: Err(error) } => Action::ShowError(error),
            State::AwaitingContinue => Action::AskContinue,
            State::Exit => Action::Farewell,
        }
    }

    /// Whether the state waits for this event.
    pub open spec fn awaits(self, event: Event) -> bool {
        match self {
            State::AwaitingFirstOperand | State::AwaitingSecondOperand { .. } => event is Number,
            State::AwaitingOperator | State::AwaitingContinue => event is Line,
            State::Computed { .. } => event is Shown,
            State::Exit => false,
        }
    }

    /// Whether the event is an answer to this state's "continue?" that does
    /// not say yes.
    pub open spec fn is_declined_by(self, event: Event) -> bool {
        self is AwaitingContinue && match event {
            Event::Line(line) => !affirmative(trimmed(line@)),
            _ => false,
        }
    }

    /// The state that follows when the event arrives. An event that the state
    /// does not wait for leaves it where it is.
    pub open spec fn after(self, event: Event) -> State {
        match (self, event) {
            (State::AwaitingFirstOperand, Event::Number(Reading::Rejected)) => {
                State::AwaitingFirstOperand
            },
            (State::AwaitingFirstOperand, Event::Number(_)) => State::AwaitingOperator,
            (State::AwaitingOperator, Event::Line(line)) => State::AwaitingSecondOperand {
                operator: operator_of(trimmed(line@)),
            },
            (State::AwaitingSecondOperand { .. }, Event::Number(Reading::Rejected)) => {
                State::AwaitingFirstOperand
            },
            (State::AwaitingSecondOperand { operator }, Event::Number(reading)) => State::Computed {
                outcome: resolved(operator, reading is Zero),
            },
            (State::Computed { .. }, Event::Shown) => State::AwaitingContinue,
            (State::AwaitingContinue, Event::Line(line)) => if affirmative(trimmed(line@)) {
                State::AwaitingFirstOperand
            } else {
                State::Exit
            },
            _ => self,
        }
    }

    /// The action that goes with [`State::after`]: what the new state waits
    /// for, with the notice about a rejected number where one was rejected.
    pub open spec fn reply(self, event: Event) -> Action {
        if self.awaits(event) && event == Event::Number(Reading::Rejected) {
            Action::RejectNumber
        } else {
            self.after(event).pending()
        }
    }

    /// The state in which every dialogue begins.
    pub fn start() -> (state: State)
        ensures
            state == State::AwaitingFirstOperand,
    {
        State::AwaitingFirstOperand
    }

    /// The action that leads to the event this state waits for.
    pub fn request(&self) -> (action: Action)
        ensures
            action == self.pending(),
    {
        match self {
            State::AwaitingFirstOperand => Action::AskFirstOperand,
            State::AwaitingOperator => Action::AskOperator,
            State::AwaitingSecondOperand { .. } => Action::AskSecondOperand,
            State::Computed { outcome: Ok(operator) } => Action::ShowResult(*operator),
            State::Computed { outcome: Err(error) } => Action::ShowError(*error),
            State::AwaitingContinue => Action::AskContinue,
            State::Exit => Action::Farewell,
        }
    }
}

/// Moves the dialogue on by one event: returns the state that follows and
/// the action the caller is to carry out before it reports the next event.
pub fn step(state: State, event: Event) -> (next: (State, Action))
    ensures
        next.0 == state.after(event),
        next.1 == state.reply(event),
{
    match (state, event) {
        (State::AwaitingFirstOperand, Event::Number(reading)) => {
            match reading {
                Reading::Rejected => (State::AwaitingFirstOperand, Action::RejectNumber),
                _ => (State::AwaitingOperator, Action::AskOperator),
            }
        },
        (State::AwaitingOperator, Event::Line(line)) => {
            let operator = read_operator(line.as_str());
            (State::AwaitingSecondOperand { operator }, Action::AskSecondOperand)
        },
        (State::AwaitingSecondOperand { operator }, Event::Number(reading)) => {
            match reading {
                Reading::Rejected => (State::AwaitingFirstOperand, Action::RejectNumber),
                Reading::Zero => {
                    let next = State::Computed { outcome: resolve(operator, true) };
                    (next, next.request())
                },
                Reading::NonZero => {
                    let next = State::Computed { outcome: resolve(operator, false) };
                    (next, next.request())
                },
            }
        },
        (State::Computed { .. }, Event::Shown) => (State::AwaitingContinue, Action::AskContinue),
        (State::AwaitingContinue, Event::Line(line)) => {
            if wants_another_round(line.as_str()) {
                (State::AwaitingFirstOperand, Action::AskFirstOperand)
            } else {
                (State::Exit, Action::Farewell)
            }
        },
        (state, _) => (state, state.request()),
    }
}

/// A line that is not a number never ends the dialogue and never moves it
/// forward: where a number was awaited, the round starts over at the first
/// prompt with a notice; elsewhere nothing changes.
pub proof fn rejected_number_never_advances(state: State)
    ensures
        state.after(Event::Number(Reading::Rejected)).stage() <= state.stage(),
        state.after(Event::Number(Reading::Rejected)) is Exit <==> state is Exit,
        state.awaits(Event::Number(Reading::Rejected)) ==> {
            &&& state.after(Event::Number(Reading::Rejected)) == State::AwaitingFirstOperand
            &&& state.reply(Event::Number(Reading::Rejected)) == Action::RejectNumber
        },
{
}

/// The dialogue ends in one way only: by an answer to "continue?" that does
/// not say yes. No error ends it, and once over it stays over.
pub proof fn dialogue_ends_only_when_declined(state: State, event: Event)
    ensures
        state.after(event) is Exit <==> state is Exit || state.is_declined_by(event),
        state.reply(event) == Action::Farewell <==> state.after(event) is Exit,
{
}

/// A full round: from the first prompt, two lines that are numbers with an
/// operator line between them bring the dialogue to the outcome that
/// [`dispatched`] gives for the operator token and the second operand, and
/// the action is to show that outcome; after that comes the "continue?"
/// prompt.
pub proof fn round_comes_to_dispatched_outcome(first: Reading, line: String, second: Reading)
    requires
        first != Reading::Rejected,
        second != Reading::Rejected,
    ensures
        ({
            let asked = State::AwaitingFirstOperand.after(Event::Number(first)).after(
                Event::Line(line),
            );
            let outcome = dispatched(trimmed(line@), second is Zero);
            &&& asked.after(Event::Number(second)) == (State::Computed { outcome })
            &&& asked.reply(Event::Number(second)) == match outcome {
                Ok(operator) => Action::ShowResult(operator),
                Err(error) => Action::ShowError(error),
            }
            &&& asked.after(Event::Number(second)).after(Event::Shown) == State::AwaitingContinue
        }),
{
}

} // verus!
