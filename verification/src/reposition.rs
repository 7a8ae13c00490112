//! Pinning the window as a strip along a screen edge.
//!
//! The command sizes the window first and moves it second. It is given here as
//! a small machine: [`begin`] reads the position and hands out the first call,
//! and [`Reposition::advance`] takes the outcome of the call just made and
//! hands out the next call or the command's result. The host makes each call
//! on its window and reports back how it went.

use crate::edge::{edge_of, keyword, lemma_keyword_names_edge, Edge};
use crate::error::CommandError;
use crate::geometry::{lemma_strip_frame, strip, Placement, Position};
use crate::window::{CallOutcome, WindowCall, WindowModel};
use vstd::prelude::*;

verus! {

/// How far a reposition command has come: which call is under way.
#[derive(Clone, Copy, Debug, PartialEq, Eq, Structural)]
pub enum Reposition {
    /// The window is being sized; once that is done it moves to `then`.
    Sizing { then: Position },
    /// The window is being moved; nothing follows.
    Positioning,
}

/// What the host does next.
#[derive(Debug, PartialEq, Eq)]
pub enum Step {
    /// Make this call on the window, then report its outcome to the state
    /// given with it.
    Perform(Reposition, WindowCall),
    /// The command is over, with this result; no call is to be made.
    Finish(Result<(), CommandError>),
}

/// How a reposition command starts. A position that names an edge starts with
/// the call that gives the window the strip's size, and remembers the strip's
/// corner for later. Any other position is refused before any call is made.
pub open spec fn start(position: Seq<char>, screen_width: i32, screen_height: i32) -> Result<
    (Reposition, WindowCall),
    CommandError,
> {
    match edge_of(position) {
        Some(edge) => {
            let frame = strip(edge, screen_width, screen_height);
            Ok((Reposition::Sizing { then: frame.position }, WindowCall::SetSize(frame.size)))
        },
        None => Err(CommandError::InvalidArgument),
    }
}

impl Reposition {
    /// How the command goes on once the call under way has ended. A failed
    /// call ends the command at once, with the host's report as the error.
    /// A completed sizing is followed by the move; a completed move ends
    /// the command well.
    pub open spec fn after(self, outcome: CallOutcome) -> Step {
        match outcome {
            CallOutcome::Failed(report) => Step::Finish(Err(CommandError::OperationFailed(report))),
            CallOutcome::Completed => match self {
                Reposition::Sizing { then } => Step::Perform(
                    Reposition::Positioning,
                    WindowCall::SetPosition(then),
                ),
                Reposition::Positioning => Step::Finish(Ok(())),
            },
        }
    }

    /// Takes the outcome of the call under way and says what to do next.
    pub fn advance(self, outcome: CallOutcome) -> (step: Step)
        ensures
            step == self.after(outcome),
    {
        match outcome {
            CallOutcome::Failed(report) => Step::Finish(Err(CommandError::OperationFailed(report))),
            CallOutcome::Completed => match self {
                Reposition::Sizing { then } => Step::Perform(
                    Reposition::Positioning,
                    WindowCall::SetPosition(then),
                ),
                Reposition::Positioning => Step::Finish(Ok(())),
            },
        }
    }
}

/// Starts a reposition command for the position that the front end sent, on a
/// screen of the given dimensions.
///
/// Gives the state of the command and the first call to make, or
/// `InvalidArgument` when the position names no edge; then there is no call to
/// make, and the window stays as it is. The screen's dimensions are positive;
/// where the position names no edge they are not looked at and may be
/// anything.
pub fn begin(position: &str, screen_width: i32, screen_height: i32) -> (started: Result<
    (Reposition, WindowCall),
    CommandError,
>)
    requires
        edge_of(position@) is Some ==> screen_width > 0 && screen_height > 0,
    ensures
        started == start(position@, screen_width, screen_height),
{
    match Edge::parse(position) {
        Some(edge) => {
            let frame = Placement::along(edge, screen_width, screen_height);
            Ok((Reposition::Sizing { then: frame.position }, WindowCall::SetSize(frame.size)))
        },
        None => Err(CommandError::InvalidArgument),
    }
}

/// A command is over after two calls at most: what follows the sizing is the
/// move or the end, and what follows the move is the end.
pub proof fn lemma_reposition_ends(state: Reposition, outcome: CallOutcome)
    ensures
        (match state.after(outcome) {
            Step::Perform(next, _) => state is Sizing && next is Positioning,
            Step::Finish(_) => true,
        }),
{
}

/// One run of a reposition command, as far as the outcomes of two calls carry
/// it.
pub struct Run {
    /// The window as the run leaves it.
    pub window: WindowModel,
    /// The calls that were made on the window, in order.
    pub calls: Seq<WindowCall>,
    /// How the command ended, or `None` if it is not over yet.
    pub result: Option<Result<(), CommandError>>,
}

/// The run of a reposition command on the window `before`, where the window
/// answers the first call made on it with `first` and the second with
/// `second`. An outcome for a call that is never made goes unused.
pub open spec fn run(
    before: WindowModel,
    position: Seq<char>,
    screen_width: i32,
    screen_height: i32,
    first: CallOutcome,
    second: CallOutcome,
) -> Run {
    match start(position, screen_width, screen_height) {
        Err(error) => Run { window: before, calls: Seq::empty(), result: Some(Err(error)) },
        Ok((sizing, size_call)) => {
            let sized = size_call.answered(before, first);
            match sizing.after(first) {
                Step::Finish(result) => Run {
                    window: sized,
                    calls: seq![size_call],
                    result: Some(result),
                },
                Step::Perform(positioning, move_call) => Run {
                    window: move_call.answered(sized, second),
                    calls: seq![size_call, move_call],
                    result: match positioning.after(second) {
                        Step::Finish(result) => Some(result),
                        Step::Perform(_, _) => None,
                    },
                },
            }
        },
    }
}

/// Every run is over after two calls at most, whatever the position, the
/// screen and the outcomes of the calls are.
pub proof fn lemma_run_is_over(
    before: WindowModel,
    position: Seq<char>,
    screen_width: i32,
    screen_height: i32,
    first: CallOutcome,
    second: CallOutcome,
)
    ensures
        run(before, position, screen_width, screen_height, first, second).result is Some,
        run(before, position, screen_width, screen_height, first, second).calls.len() <= 2,
{
}

/// A command for the keyword of an edge, on a screen of positive dimensions,
/// makes two calls when both complete, the sizing and then the move, and ends
/// well; the window then has exactly the frame of the strip along that edge,
/// and is open or closed as it was before.
pub proof fn lemma_reposition_reaches_strip(
    before: WindowModel,
    edge: Edge,
    screen_width: i32,
    screen_height: i32,
)
    requires
        screen_width > 0,
        screen_height > 0,
    ensures
        ({
            let frame = strip(edge, screen_width, screen_height);
            let done = run(
                before,
                keyword(edge),
                screen_width,
                screen_height,
                CallOutcome::Completed,
                CallOutcome::Completed,
            );
            &&& done.result == Some(Ok::<(), CommandError>(()))
            &&& done.calls == seq![
                WindowCall::SetSize(frame.size),
                WindowCall::SetPosition(frame.position),
            ]
            &&& done.window.open == before.open
            &&& done.window.size == frame.size
            &&& done.window.position == frame.position
            &&& match edge {
                Edge::Left => {
                    &&& done.window.size.width == 50
                    &&& done.window.size.height == screen_height
                    &&& done.window.position.x == 0
                    &&& done.window.position.y == 0
                },
                Edge::Right => {
                    &&& done.window.size.width == 50
                    &&& done.window.size.height == screen_height
                    &&& done.window.position.x == screen_width - 50
                    &&& done.window.position.y == 0
                },
                Edge::Top => {
                    &&& done.window.size.width == screen_width
                    &&& done.window.size.height == 50
                    &&& done.window.position.x == 0
                    &&& done.window.position.y == 0
                },
                Edge::Bottom => {
                    &&& done.window.size.width == screen_width
                    &&& done.window.size.height == 50
                    &&& done.window.position.x == 0
                    &&& done.window.position.y == screen_height - 50
                },
            }
        }),
{
    lemma_keyword_names_edge(edge, keyword(edge));
    lemma_strip_frame(edge, screen_width, screen_height);
}

/// A position that names no edge is refused with `InvalidArgument` before any
/// call is made, so the window stays exactly as it was. This holds on every
/// screen, of whatever dimensions.
pub proof fn lemma_unknown_position_refused(
    before: WindowModel,
    position: Seq<char>,
    screen_width: i32,
    screen_height: i32,
    first: CallOutcome,
    second: CallOutcome,
)
    requires
        edge_of(position) is None,
    ensures
        start(position, screen_width, screen_height) == Err::<(Reposition, WindowCall), _>(
            CommandError::InvalidArgument,
        ),
        start(position, screen_width, screen_height)->Err_0.text() == "Invalid position"@,
        run(before, position, screen_width, screen_height, first, second) == (Run {
            window: before,
            calls: Seq::empty(),
            result: Some(Err(CommandError::InvalidArgument)),
        }),
{
}

/// A call that fails ends the run with the host's report as the error, and
/// no call follows it. When the sizing fails the window is as it was; when the
/// move fails the window has its new size at its old place.
pub proof fn lemma_failed_call_ends_run(
    before: WindowModel,
    edge: Edge,
    screen_width: i32,
    screen_height: i32,
    report: String,
    other: CallOutcome,
)
    ensures
        ({
            let frame = strip(edge, screen_width, screen_height);
            let failed = CallOutcome::Failed(report);
            let at_sizing = run(before, keyword(edge), screen_width, screen_height, failed, other);
            let at_move = run(
                before,
                keyword(edge),
                screen_width,
                screen_height,
                CallOutcome::Completed,
                failed,
            );
            &&& at_sizing.result == Some(Err::<(), _>(CommandError::OperationFailed(report)))
            &&& at_sizing.calls == seq![WindowCall::SetSize(frame.size)]
            &&& at_sizing.window == before
            &&& at_move.result == Some(Err::<(), _>(CommandError::OperationFailed(report)))
            &&& at_move.calls == seq![
                WindowCall::SetSize(frame.size),
                WindowCall::SetPosition(frame.position),
            ]
            &&& at_move.window == (WindowModel { size: frame.size, ..before })
        }),
{
    lemma_keyword_names_edge(edge, keyword(edge));
}

/// Repositioning is idempotent: a second run of the same command, on a window
/// that answers as it did in the first, makes the same calls, ends the same
/// way and leaves the window as the first run left it.
pub proof fn lemma_reposition_idempotent(
    before: WindowModel,
    position: Seq<char>,
    screen_width: i32,
    screen_height: i32,
    first: CallOutcome,
    second: CallOutcome,
)
    ensures
        ({
            let once = run(before, position, screen_width, screen_height, first, second);
            let twice = run(once.window, position, screen_width, screen_height, first, second);
            &&& twice.calls == once.calls
            &&& twice.result == once.result
            &&& twice.window == once.window
        }),
{
}

} // verus!
