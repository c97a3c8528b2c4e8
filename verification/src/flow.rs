//! The decisions between the dialogs and the system calls: which action comes
//! first, and which one follows each event.

use vstd::prelude::*;
use vstd::slice::slice_subrange;
use crate::messages::{
    confirmation, confirmation_text, process_handle_failure, process_handle_text,
    thread_handle_failure, thread_handle_text, usage, usage_text,
};
use crate::quoting::{collect_arg_string, command_line};

verus! {

/// What the launcher is waiting for.
#[derive(Clone, Copy, Debug, PartialEq, Eq, Structural)]
pub enum Stage {
    /// The yes/no dialog is open.
    Confirming,
    /// The creation of the process was requested.
    Creating,
    /// The release of the process handle was requested.
    ClosingProcess,
    /// The dialog on the process handle that was not released is open.
    ReportingProcess,
    /// The release of the thread handle was requested.
    ClosingThread,
    /// The last error dialog is open.
    Reporting,
    /// Nothing is left to do.
    Finished,
}

/// What came of the action that was taken last.
#[derive(Debug, PartialEq, Eq)]
pub enum Event {
    /// The yes/no dialog was answered with yes.
    Yes,
    /// A dialog was closed in any other way.
    Dismissed,
    /// The operating system did what it was asked to do.
    Succeeded,
    /// The operating system did not; `message` is its description of the failure.
    Failed { message: String },
}

/// What is to be done next.
#[derive(Debug, PartialEq, Eq)]
pub enum Action {
    /// Show `text` in an error dialog and wait until it is closed.
    ShowError { text: String },
    /// Ask `text` in a yes/no dialog.
    Confirm { text: String },
    /// Create a process from the executable `application` with `command_line`.
    CreateProcess { application: String, command_line: String },
    /// Release the handle of the process that was created.
    CloseProcessHandle,
    /// Release the handle of the thread that was created.
    CloseThreadHandle,
    /// Leave.
    Exit,
}

/// An action with its texts as sequences of characters.
pub enum ActionView {
    ShowError { text: Seq<char> },
    Confirm { text: Seq<char> },
    CreateProcess { application: Seq<char>, command_line: Seq<char> },
    CloseProcessHandle,
    CloseThreadHandle,
    Exit,
}

impl View for Action {
    type V = ActionView;

    open spec fn view(&self) -> ActionView {
        match *self {
            Action::ShowError { text } => ActionView::ShowError { text: text@ },
            Action::Confirm { text } => ActionView::Confirm { text: text@ },
            Action::CreateProcess { application, command_line } => ActionView::CreateProcess {
                application: application@,
                command_line: command_line@,
            },
            Action::CloseProcessHandle => ActionView::CloseProcessHandle,
            Action::CloseThreadHandle => ActionView::CloseThreadHandle,
            Action::Exit => ActionView::Exit,
        }
    }
}

/// The stage and the action with which a launch begins. `arguments` are the
/// title, the program's path and the program's own arguments.
pub open spec fn opening(program: Seq<char>, arguments: Seq<Seq<char>>) -> (Stage, ActionView) {
    if arguments.len() < 2 {
        (Stage::Reporting, ActionView::ShowError { text: usage_text(program) })
    } else {
        (Stage::Confirming, ActionView::Confirm { text: confirmation_text(arguments[0]) })
    }
}

/// The stage and the action that follow `event` at `stage`.
pub open spec fn transition(stage: Stage, arguments: Seq<Seq<char>>, event: Event) -> (
    Stage,
    ActionView,
) {
    match stage {
        Stage::Confirming => match event {
            Event::Yes => (
                Stage::Creating,
                ActionView::CreateProcess {
                    application: arguments[1],
                    command_line: command_line(arguments.subrange(1, arguments.len() as int)),
                },
            ),
            _ => (Stage::Finished, ActionView::Exit),
        },
        Stage::Creating => match event {
            Event::Failed { message } => (
                Stage::Reporting,
                ActionView::ShowError { text: message@ },
            ),
            _ => (Stage::ClosingProcess, ActionView::CloseProcessHandle),
        },
        Stage::ClosingProcess => match event {
            Event::Failed { message } => (
                Stage::ReportingProcess,
                ActionView::ShowError { text: process_handle_text(message@) },
            ),
            _ => (Stage::ClosingThread, ActionView::CloseThreadHandle),
        },
        Stage::ReportingProcess => (Stage::ClosingThread, ActionView::CloseThreadHandle),
        Stage::ClosingThread => match event {
            Event::Failed { message } => (
                Stage::Reporting,
                ActionView::ShowError { text: thread_handle_text(message@) },
            ),
            _ => (Stage::Finished, ActionView::Exit),
        },
        Stage::Reporting => (Stage::Finished, ActionView::Exit),
        Stage::Finished => (Stage::Finished, ActionView::Exit),
    }
}

/// The stage that is reached from `stage` when `events` come in one after
/// another.
pub open spec fn stage_after(stage: Stage, arguments: Seq<Seq<char>>, events: Seq<Event>) -> Stage
    decreases events.len(),
{
    if events.len() == 0 {
        stage
    } else {
        transition(stage_after(stage, arguments, events.drop_last()), arguments, events.last()).0
    }
}

/// The action that answers the last of `events`, when they come in one after
/// another from `stage` on.
pub open spec fn action_after(
    stage: Stage,
    arguments: Seq<Seq<char>>,
    events: Seq<Event>,
) -> ActionView
    recommends
        events.len() > 0,
{
    transition(stage_after(stage, arguments, events.drop_last()), arguments, events.last()).1
}

/// With fewer than two arguments a launch begins with the usage line in an
/// error dialog, and whatever events follow, each of them is answered by
/// leaving: the question is never asked and no process is created.
pub proof fn lemma_too_few_arguments(
    program: Seq<char>,
    arguments: Seq<Seq<char>>,
    events: Seq<Event>,
)
    requires
        arguments.len() < 2,
    ensures
        opening(program, arguments) == (
            Stage::Reporting,
            ActionView::ShowError { text: usage_text(program) },
        ),
        events.len() == 0 ==> stage_after(Stage::Reporting, arguments, events) == Stage::Reporting,
        events.len() > 0 ==> stage_after(Stage::Reporting, arguments, events) == Stage::Finished,
        events.len() > 0 ==> action_after(Stage::Reporting, arguments, events) == ActionView::Exit,
    decreases events.len(),
{
    if events.len() > 0 {
        lemma_too_few_arguments(program, arguments, events.drop_last());
    }
}

/// A process is created in answer to a yes at the question, and to nothing
/// else.
pub proof fn lemma_creation_needs_yes(stage: Stage, arguments: Seq<Seq<char>>, event: Event)
    ensures
        transition(stage, arguments, event).1 is CreateProcess <==> stage == Stage::Confirming
            && event is Yes,
{
}

/// A launch under way: the stage it has reached, and the arguments it was
/// begun with.
pub struct Launcher {
    stage: Stage,
    arguments: Vec<String>,
}

impl Launcher {
    #[verifier::type_invariant]
    spec fn well_formed(&self) -> bool {
        self.stage == Stage::Confirming ==> self.arguments.len() >= 2
    }

    /// The stage that was reached.
    pub closed spec fn stage(&self) -> Stage {
        self.stage
    }

    /// The title, the program's path and the program's arguments.
    pub closed spec fn arguments(&self) -> Seq<Seq<char>> {
        self.arguments.deep_view()
    }

    /// Begins a launch for a program that was itself started as `program` with
    /// `arguments`: with fewer than two of them the usage line is shown, else
    /// the question is asked.
    pub fn start(program: &str, arguments: Vec<String>) -> (begun: (Launcher, Action))
        ensures
            begun.0.arguments() == arguments.deep_view(),
            (begun.0.stage(), begun.1@) == opening(program@, arguments.deep_view()),
    {
        if arguments.len() < 2 {
            let action = Action::ShowError { text: usage(program) };
            (Launcher { stage: Stage::Reporting, arguments }, action)
        } else {
            let action = Action::Confirm { text: confirmation(arguments[0].as_str()) };
            (Launcher { stage: Stage::Confirming, arguments }, action)
        }
    }

    /// Takes in what came of the last action, and says what is to be done next.
    /// At each stage one event diverts the launch: at the question anything but
    /// a yes ends it, and after a system call a failure is reported. Every
    /// other event lets it go on.
    pub fn step(self, event: Event) -> (next: (Launcher, Action))
        ensures
            next.0.arguments() == self.arguments(),
            (next.0.stage(), next.1@) == transition(self.stage(), self.arguments(), event),
    {
        proof {
            use_type_invariant(&self);
        }
        let Launcher { stage, arguments } = self;
        match stage {
            Stage::Confirming => match event {
                Event::Yes => {
                    let command = slice_subrange(arguments.as_slice(), 1, arguments.len());
                    assert(command.deep_view() == arguments.deep_view().subrange(
                        1,
                        arguments.len() as int,
                    ));
                    let action = Action::CreateProcess {
                        application: arguments[1].clone(),
                        command_line: collect_arg_string(command),
                    };
                    (Launcher { stage: Stage::Creating, arguments }, action)
                },
                _ => (Launcher { stage: Stage::Finished, arguments }, Action::Exit),
            },
            Stage::Creating => match event {
                Event::Failed { message } => (
                    Launcher { stage: Stage::Reporting, arguments },
                    Action::ShowError { text: message },
                ),
                _ => (
                    Launcher { stage: Stage::ClosingProcess, arguments },
                    Action::CloseProcessHandle,
                ),
            },
            Stage::ClosingProcess => match event {
                Event::Failed { message } => (
                    Launcher { stage: Stage::ReportingProcess, arguments },
                    Action::ShowError { text: process_handle_failure(message.as_str()) },
                ),
                _ => (
                    Launcher { stage: Stage::ClosingThread, arguments },
                    Action::CloseThreadHandle,
                ),
            },
            Stage::ReportingProcess => (
                Launcher { stage: Stage::ClosingThread, arguments },
                Action::CloseThreadHandle,
            ),
            Stage::ClosingThread => match event {
                Event::Failed { message } => (
                    Launcher { stage: Stage::Reporting, arguments },
                    Action::ShowError { text: thread_handle_failure(message.as_str()) },
                ),
                _ => (Launcher { stage: Stage::Finished, arguments }, Action::Exit),
            },
            Stage::Reporting => (Launcher { stage: Stage::Finished, arguments }, Action::Exit),
            Stage::Finished => (Launcher { stage: Stage::Finished, arguments }, Action::Exit),
        }
    }

    /// The stage that was reached.
    pub fn current_stage(&self) -> (stage: Stage)
        ensures
            stage == self.stage(),
    {
        self.stage
    }

    /// Whether nothing is left to do.
    pub fn is_finished(&self) -> (done: bool)
        ensures
            done == (self.stage() == Stage::Finished),
    {
        match self.stage {
            Stage::Finished => true,
            _ => false,
        }
    }
}

} // verus!
