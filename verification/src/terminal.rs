use vstd::prelude::*;
use crate::session::{Event, EventView};

verus! {

/// What one blocking read of the line editor returned.
#[derive(Debug, PartialEq, Eq)]
pub enum Input {
    /// The user entered this line.
    Line(String),
    /// The user pressed the interrupt key.
    Interrupt,
    /// Another signal reached the terminal.
    OtherSignal,
    /// The input is at its end.
    End,
}

/// Mathematical value of an [`Input`].
pub enum InputView {
    Line(Seq<char>),
    Interrupt,
    OtherSignal,
    End,
}

impl View for Input {
    type V = InputView;

    open spec fn view(&self) -> InputView {
        match *self {
            Input::Line(l) => InputView::Line(l@),
            Input::Interrupt => InputView::Interrupt,
            Input::OtherSignal => InputView::OtherSignal,
            Input::End => InputView::End,
        }
    }
}

/// What the input loop does after one read.
#[derive(Debug, PartialEq, Eq)]
pub enum InputStep {
    /// Append `history` to the history log, then give `event` to the
    /// session, and read again.
    Submit { history: String, event: Event },
    /// Cancel the read that is in progress, give `event` to the session and
    /// leave at once.
    Abort { event: Event },
    /// Read again.
    Again,
    /// Give `event` to the session and stop reading.
    Stop { event: Event },
}

/// Mathematical value of an [`InputStep`].
pub enum InputStepView {
    Submit { history: Seq<char>, event: EventView },
    Abort { event: EventView },
    Again,
    Stop { event: EventView },
}

impl View for InputStep {
    type V = InputStepView;

    open spec fn view(&self) -> InputStepView {
        match *self {
            InputStep::Submit { history, event } => InputStepView::Submit {
                history: history@,
                event: event@,
            },
            InputStep::Abort { event } => InputStepView::Abort { event: event@ },
            InputStep::Again => InputStepView::Again,
            InputStep::Stop { event } => InputStepView::Stop { event: event@ },
        }
    }
}

/// The rule of the input loop: a line is remembered and typed into the
/// session, an interrupt leaves at once, any other signal is passed over,
/// and the end of the input stops the loop.
pub open spec fn input_rule(input: InputView) -> InputStepView {
    match input {
        InputView::Line(line) => InputStepView::Submit {
            history: line,
            event: EventView::Typed(line),
        },
        InputView::Interrupt => InputStepView::Abort { event: EventView::Interrupted },
        InputView::OtherSignal => InputStepView::Again,
        InputView::End => InputStepView::Stop { event: EventView::InputEnded },
    }
}

/// Decides what the input loop does with what it read.
pub fn on_input(input: Input) -> (res: InputStep)
    ensures
        res@ == input_rule(input@),
{
    match input {
        Input::Line(line) => {
            let history = line.clone();
            InputStep::Submit { history, event: Event::Typed(line) }
        },
        Input::Interrupt => InputStep::Abort { event: Event::Interrupted },
        Input::OtherSignal => InputStep::Again,
        Input::End => InputStep::Stop { event: Event::InputEnded },
    }
}

} // verus!
