//! Scripts: what an operation on an I/O handle does, as a sequence of I/O
//! actions for the caller to perform, together with the state that the handle
//! is left in when an action fails and when all succeed.
//!
//! The caller performs the steps in order. When a step fails it sets the
//! state to that step's `on_failure` and reports the failure; when all
//! succeed it sets the state to `on_success`.

use vstd::prelude::*;

use crate::pager::PagerSettings;
use crate::state::{IOState, IOStateView};

verus! {

/// One of the two output streams.
#[derive(Debug, Clone, Copy, PartialEq, Eq, Structural)]
pub enum Stream {
    Output,
    Error,
}

/// Where a progress area is drawn.
#[derive(Debug, Clone, Copy, PartialEq, Eq, Structural)]
pub enum ProgressTarget {
    /// The progress stream of a running pager.
    Pager,
    /// The terminal, below the output.
    Term,
}

/// An I/O action of a script.
#[derive(Debug, Clone, Copy, PartialEq, Eq, Structural)]
pub enum Action {
    /// Draw the progress area of `target`: empty when `clear` holds, else
    /// with the changes that the request carries. Fails when the drawing
    /// fails.
    DrawProgress { target: ProgressTarget, clear: bool },
    /// Flush a stream.
    Flush(Stream),
    /// Hand the request's data to a stream.
    Write(Stream),
    /// Call the function that waits for the pager to exit, which is taken
    /// and so called once.
    WaitPager,
    /// Set input, output and error back to the standard streams, and drop
    /// the pager's progress stream. Does not fail.
    RestoreStdio,
    /// Drop the function that quits the pager. Does not fail.
    ForgetPagerQuit,
    /// Replace the output by an empty buffer, and drop the error stream and
    /// the pager's progress stream (which ends the pager's input). Does not
    /// fail.
    ReleaseStreams,
    /// Create a pager on the system terminal, or on the standard streams if
    /// that fails. Fails when both fail.
    CreatePager,
    /// Give the pager its settings. Does not fail.
    ConfigurePager(PagerSettings),
    /// Create the pipes for output, errors and progress. Does not fail.
    CreatePipes,
    /// Make the output pipe the output stream, telling whether it stands
    /// for a terminal and for the standard output. Does not fail.
    PipeOutput { is_tty: bool, pretend_stdout: bool },
    /// Add the output pipe to the pager as its main stream.
    AddOutputStream,
    /// Make the error pipe the error stream, standing for a terminal. Does
    /// not fail.
    PipeError,
    /// Add the error pipe to the pager as its error stream.
    AddErrorStream,
    /// Make a progress terminal on the progress pipe the pager's progress
    /// stream, and give the pipe to the pager.
    AttachPagerProgress,
    /// Run the pager on a thread of its own, keeping the functions that wait
    /// for it and that quit it. Does not fail.
    RunPager,
    /// Attach a terminal for the progress area: a dumb one of fixed size
    /// when `dumb` holds, else the real terminal.
    AttachTerm { dumb: bool },
    /// Make a progress terminal on the given pipe the pager's progress
    /// stream (`present`), or drop that stream.
    SetProgressPipe { present: bool },
}

/// A step of a script: an action, and the state to keep when it fails.
pub struct Step {
    pub action: Action,
    pub on_failure: IOState,
}

/// A script: steps to perform in order, and the state when all succeed.
pub struct Script {
    pub steps: Vec<Step>,
    pub on_success: IOState,
}

/// The model of a step.
pub struct StepView {
    pub action: Action,
    pub on_failure: IOStateView,
}

/// The model of a script.
#[verifier::ext_equal]
pub struct ScriptView {
    pub steps: Seq<StepView>,
    pub on_success: IOStateView,
}

impl View for Step {
    type V = StepView;

    open spec fn view(&self) -> StepView {
        StepView { action: self.action, on_failure: self.on_failure@ }
    }
}

impl View for Script {
    type V = ScriptView;

    open spec fn view(&self) -> ScriptView {
        ScriptView {
            steps: self.steps@.map_values(|s: Step| s@),
            on_success: self.on_success@,
        }
    }
}

impl ScriptView {
    /// No I/O; the state becomes `state`.
    pub open spec fn done(state: IOStateView) -> ScriptView {
        ScriptView { steps: seq![], on_success: state }
    }

    /// The script, then `action`; when `action` fails, the state is the one
    /// the script reached.
    pub open spec fn perform(self, action: Action) -> ScriptView {
        ScriptView {
            steps: self.steps.push(StepView { action, on_failure: self.on_success }),
            ..self
        }
    }

    /// The script, after which the state becomes `state`.
    pub open spec fn becoming(self, state: IOStateView) -> ScriptView {
        ScriptView { on_success: state, ..self }
    }

    /// The script, then `next`.
    pub open spec fn and_then(self, next: ScriptView) -> ScriptView {
        ScriptView { steps: self.steps + next.steps, on_success: next.on_success }
    }

    /// Whether some step performs `action`.
    pub open spec fn performs(self, action: Action) -> bool {
        exists|i: int| 0 <= i < self.steps.len() && self.steps[i].action == action
    }

    /// Whether some step draws a non-empty progress area.
    pub open spec fn draws_content(self) -> bool {
        exists|i: int|
            0 <= i < self.steps.len() && (#[trigger] self.steps[i]).action matches Action::DrawProgress {
                clear: false,
                ..
            }
    }
}

impl Script {
    pub(crate) fn done(state: IOState) -> (r: Script)
        ensures
            r@ =~= ScriptView::done(state@),
    {
        Script { steps: Vec::new(), on_success: state }
    }

    pub(crate) fn perform(&mut self, action: Action)
        ensures
            final(self)@ =~= old(self)@.perform(action),
    {
        let step = Step { action, on_failure: self.on_success };
        self.steps.push(step);
        assert(self.steps@.map_values(|s: Step| s@) =~= old(self).steps@.map_values(
            |s: Step| s@,
        ).push(step@));
    }

    pub(crate) fn becoming(&mut self, state: IOState)
        ensures
            final(self)@ =~= old(self)@.becoming(state@),
    {
        self.on_success = state;
    }

    pub(crate) fn and_then(&mut self, next: Script)
        ensures
            final(self)@ =~= old(self)@.and_then(next@),
    {
        let mut next = next;
        let ghost next_steps = next.steps@;
        self.steps.append(&mut next.steps);
        self.on_success = next.on_success;
        assert(self.steps@.map_values(|s: Step| s@) =~= old(self).steps@.map_values(
            |s: Step| s@,
        ) + next_steps.map_values(|s: Step| s@));
    }
}

} // verus!
