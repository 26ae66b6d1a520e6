//! The scheduling task as a state machine: the caller performs what an
//! action asks for and reports the outcome as the next event.

use vstd::prelude::*;
use crate::config::Region;
use crate::errors::TranscendiaError;
use crate::runtime::{
    recognized_text, texts, tick_outcome, LoopStep, RuntimeState, Scheduler, TaskLaunch,
    TickDecision, TickOutcome, TranscendiaRuntime, Wake,
};
use crate::translate::{request_target, request_url, translation_of_body, HttpOutcome};

verus! {

/// Where the task stands.
#[derive(Clone, Copy, Debug, PartialEq, Eq, Structural)]
pub enum TaskPhase {
    /// Asking whether screen recording is permitted.
    Preflight,
    /// Asking the user for the permission.
    Requesting,
    /// Waiting for the interval to run out or for the cancellation.
    Waiting,
    /// Capturing the region and recognizing its text.
    Capturing,
    /// Waiting for the answer of the translation service.
    Translating,
    /// The loop is left; the task has ended.
    Exited,
}

/// What the caller reports to the task.
#[derive(Debug)]
pub enum TaskEvent {
    /// Whether screen recording is permitted.
    PermissionChecked(bool),
    /// Whether screen recording is permitted after the user was asked.
    PermissionRequested(bool),
    /// What ended the wait.
    Woke(Wake),
    /// The lines that were recognized in the capture.
    Recognized(Vec<String>),
    /// Capture or recognition failed.
    TickFailed(TranscendiaError),
    /// How the translation request ended.
    Answered(HttpOutcome),
}

/// What the task asks the caller to do next.
#[derive(Debug)]
pub enum TaskAction {
    /// Ask the user for the permission to record the screen.
    RequestPermission,
    /// Wait for the interval or the cancellation, whichever comes first.
    /// `lost` is the failure that ended the tick before, if one did.
    Wait { seconds: u8, lost: Option<TranscendiaError> },
    /// Look the display up, capture the region and recognize its text.
    Capture { monitor: u32, region: Region },
    /// Send the translation request to this address.
    Fetch { url: String },
    /// Publish one event with this text, then wait.
    PublishAndWait { text: String, seconds: u8 },
    /// Leave the loop. `reason` is the failure that ended the task, if one
    /// did.
    Exit { reason: Option<TranscendiaError> },
    /// The event does not belong to the phase; nothing changes.
    Nothing,
}

/// An action as a plain value.
pub enum ActionView {
    RequestPermission,
    Wait { seconds: u8, lost: Option<TranscendiaError> },
    Capture { monitor: u32, region: Region },
    Fetch { url: Seq<char> },
    PublishAndWait { text: Seq<char>, seconds: u8 },
    Exit { reason: Option<TranscendiaError> },
    Nothing,
}

impl View for TaskAction {
    type V = ActionView;

    open spec fn view(&self) -> ActionView {
        match *self {
            TaskAction::RequestPermission => ActionView::RequestPermission,
            TaskAction::Wait { seconds, lost } => ActionView::Wait { seconds, lost },
            TaskAction::Capture { monitor, region } => ActionView::Capture { monitor, region },
            TaskAction::Fetch { url } => ActionView::Fetch { url: url@ },
            TaskAction::PublishAndWait { text, seconds } => ActionView::PublishAndWait {
                text: text@,
                seconds,
            },
            TaskAction::Exit { reason } => ActionView::Exit { reason },
            TaskAction::Nothing => ActionView::Nothing,
        }
    }
}

/// A task as a plain value.
pub struct TaskView {
    pub phase: TaskPhase,
    /// The text of the tick before; empty before the first tick.
    pub previous: Seq<char>,
    pub monitor: u32,
    pub region: Region,
}

/// What the translation of a text that was just recognized leads to:
/// the address to ask, where the text is new and an address can be built.
pub open spec fn fetch_target(previous: Seq<char>, text: Seq<char>, language: Seq<char>)
    -> Option<Seq<char>> {
    if text == previous {
        None
    } else {
        request_target(text, language)
    }
}

/// The text that an answer of the service brings, or the failure.
pub open spec fn answer_text(outcome: HttpOutcome) -> Result<Seq<char>, TranscendiaError> {
    match outcome {
        HttpOutcome::Failed => Err(TranscendiaError::TranslationUnavailable),
        HttpOutcome::Body(body) => match translation_of_body(body@) {
            Some(text) => Ok(text),
            None => Err(TranscendiaError::TranslationParseError),
        },
    }
}

impl TaskView {
    /// The task after an event.
    pub open spec fn after(self, runtime: RuntimeState, event: TaskEvent) -> TaskView {
        match (self.phase, event) {
            (TaskPhase::Preflight, TaskEvent::PermissionChecked(granted)) => TaskView {
                phase: if granted {
                    TaskPhase::Waiting
                } else {
                    TaskPhase::Requesting
                },
                ..self
            },
            (TaskPhase::Requesting, TaskEvent::PermissionRequested(granted)) => TaskView {
                phase: if granted {
                    TaskPhase::Waiting
                } else {
                    TaskPhase::Exited
                },
                ..self
            },
            (TaskPhase::Waiting, TaskEvent::Woke(Wake::Cancelled)) => TaskView {
                phase: TaskPhase::Exited,
                ..self
            },
            (TaskPhase::Waiting, TaskEvent::Woke(Wake::IntervalElapsed)) => TaskView {
                phase: TaskPhase::Capturing,
                ..self
            },
            (TaskPhase::Capturing, TaskEvent::Recognized(lines)) => {
                let text = recognized_text(texts(lines@));
                TaskView {
                    phase: if fetch_target(self.previous, text, runtime.language) is Some {
                        TaskPhase::Translating
                    } else {
                        TaskPhase::Waiting
                    },
                    previous: text,
                    ..self
                }
            },
            (TaskPhase::Capturing, TaskEvent::TickFailed(_)) => TaskView {
                phase: TaskPhase::Waiting,
                ..self
            },
            (TaskPhase::Translating, TaskEvent::Answered(_)) => TaskView {
                phase: TaskPhase::Waiting,
                ..self
            },
            _ => self,
        }
    }

    /// The action that answers an event.
    pub open spec fn answer(self, runtime: RuntimeState, event: TaskEvent) -> ActionView {
        let wait = ActionView::Wait { seconds: runtime.interval, lost: None };
        match (self.phase, event) {
            (TaskPhase::Preflight, TaskEvent::PermissionChecked(granted)) => if granted {
                wait
            } else {
                ActionView::RequestPermission
            },
            (TaskPhase::Requesting, TaskEvent::PermissionRequested(granted)) => if granted {
                wait
            } else {
                ActionView::Exit { reason: Some(TranscendiaError::PermissionDenied) }
            },
            (TaskPhase::Waiting, TaskEvent::Woke(Wake::Cancelled)) => ActionView::Exit {
                reason: None,
            },
            (TaskPhase::Waiting, TaskEvent::Woke(Wake::IntervalElapsed)) => ActionView::Capture {
                monitor: self.monitor,
                region: self.region,
            },
            (TaskPhase::Capturing, TaskEvent::Recognized(lines)) => {
                let text = recognized_text(texts(lines@));
                if text == self.previous {
                    wait
                } else {
                    match request_target(text, runtime.language) {
                        Some(url) => ActionView::Fetch { url },
                        None => ActionView::Wait {
                            seconds: runtime.interval,
                            lost: Some(TranscendiaError::TranslationUnavailable),
                        },
                    }
                }
            },
            (TaskPhase::Capturing, TaskEvent::TickFailed(error)) => ActionView::Wait {
                seconds: runtime.interval,
                lost: Some(error),
            },
            (TaskPhase::Translating, TaskEvent::Answered(outcome)) => match answer_text(outcome) {
                Ok(text) => ActionView::PublishAndWait { text, seconds: runtime.interval },
                Err(error) => ActionView::Wait { seconds: runtime.interval, lost: Some(error) },
            },
            (TaskPhase::Exited, _) => ActionView::Exit { reason: None },
            _ => ActionView::Nothing,
        }
    }
}

/// The runtime after the task has taken an event: an observed cancellation
/// is used up, and nothing else changes.
pub open spec fn runtime_after(task: TaskView, runtime: RuntimeState, event: TaskEvent)
    -> RuntimeState {
    match (task.phase, event) {
        (TaskPhase::Waiting, TaskEvent::Woke(Wake::Cancelled)) => runtime.observed(),
        _ => runtime,
    }
}

/// One scheduling task.
#[derive(Debug)]
pub struct SchedulerTask {
    phase: TaskPhase,
    memory: Scheduler,
    monitor: u32,
    region: Region,
}

impl View for SchedulerTask {
    type V = TaskView;

    closed spec fn view(&self) -> TaskView {
        TaskView {
            phase: self.phase,
            previous: self.memory.previous(),
            monitor: self.monitor,
            region: self.region,
        }
    }
}

impl SchedulerTask {
    /// The task that a start of the runtime launched. It begins by asking
    /// whether screen recording is permitted.
    pub fn new(launch: &TaskLaunch) -> (task: Self)
        ensures
            task@ == (TaskView {
                phase: TaskPhase::Preflight,
                previous: Seq::empty(),
                monitor: launch.monitor,
                region: launch.region,
            }),
    {
        SchedulerTask {
            phase: TaskPhase::Preflight,
            memory: Scheduler::new(),
            monitor: launch.monitor,
            region: launch.region,
        }
    }

    pub fn phase(&self) -> (phase: TaskPhase)
        ensures
            phase == self@.phase,
    {
        self.phase
    }

    /// Takes the outcome of the action before and says what to do next.
    /// The interval and the language are read from the runtime at every
    /// step, so that new settings take effect without a restart.
    pub fn step(&mut self, runtime: &mut TranscendiaRuntime, event: TaskEvent) -> (action:
        TaskAction)
        ensures
            final(self)@ == old(self)@.after(old(runtime)@, event),
            action@ == old(self)@.answer(old(runtime)@, event),
            final(runtime)@ == runtime_after(old(self)@, old(runtime)@, event),
    {
        let seconds: u8 = runtime.interval();
        match self.phase {
            TaskPhase::Preflight => match event {
                TaskEvent::PermissionChecked(granted) => {
                    if granted {
                        self.phase = TaskPhase::Waiting;
                        TaskAction::Wait { seconds, lost: None }
                    } else {
                        self.phase = TaskPhase::Requesting;
                        TaskAction::RequestPermission
                    }
                },
                _ => TaskAction::Nothing,
            },
            TaskPhase::Requesting => match event {
                TaskEvent::PermissionRequested(granted) => {
                    if granted {
                        self.phase = TaskPhase::Waiting;
                        TaskAction::Wait { seconds, lost: None }
                    } else {
                        self.phase = TaskPhase::Exited;
                        TaskAction::Exit { reason: Some(TranscendiaError::PermissionDenied) }
                    }
                },
                _ => TaskAction::Nothing,
            },
            TaskPhase::Waiting => match event {
                TaskEvent::Woke(wake) => match runtime.on_wake(wake) {
                    LoopStep::Exit => {
                        self.phase = TaskPhase::Exited;
                        TaskAction::Exit { reason: None }
                    },
                    LoopStep::RunTick => {
                        self.phase = TaskPhase::Capturing;
                        TaskAction::Capture { monitor: self.monitor, region: self.region }
                    },
                },
                _ => TaskAction::Nothing,
            },
            TaskPhase::Capturing => match event {
                TaskEvent::Recognized(lines) => {
                    self.phase = TaskPhase::Waiting;
                    match self.memory.on_recognized(&lines) {
                        TickDecision::Unchanged => TaskAction::Wait { seconds, lost: None },
                        TickDecision::Translate(text) => {
                            let language = runtime.language();
                            match request_url(text.as_str(), language.as_str()) {
                                Some(url) => {
                                    self.phase = TaskPhase::Translating;
                                    TaskAction::Fetch { url }
                                },
                                None => TaskAction::Wait {
                                    seconds,
                                    lost: Some(TranscendiaError::TranslationUnavailable),
                                },
                            }
                        },
                    }
                },
                TaskEvent::TickFailed(error) => {
                    self.phase = TaskPhase::Waiting;
                    TaskAction::Wait { seconds, lost: Some(error) }
                },
                _ => TaskAction::Nothing,
            },
            TaskPhase::Translating => match event {
                TaskEvent::Answered(outcome) => {
                    self.phase = TaskPhase::Waiting;
                    match tick_outcome(&outcome) {
                        TickOutcome::Publish(text) => TaskAction::PublishAndWait { text, seconds },
                        TickOutcome::Keep(error) => TaskAction::Wait { seconds, lost: Some(error) },
                    }
                },
                _ => TaskAction::Nothing,
            },
            TaskPhase::Exited => TaskAction::Exit { reason: None },
        }
    }
}

/// The task at the end of a run of events.
pub open spec fn task_after_run(task: TaskView, runtime: RuntimeState, events: Seq<TaskEvent>)
    -> TaskView
    decreases events.len(),
{
    if events.len() == 0 {
        task
    } else {
        task_after_run(
            task.after(runtime, events[0]),
            runtime_after(task, runtime, events[0]),
            events.drop_first(),
        )
    }
}

/// The actions that answer a run of events, one for each event. The
/// settings stay as they are during the run.
pub open spec fn actions_of_run(task: TaskView, runtime: RuntimeState, events: Seq<TaskEvent>)
    -> Seq<ActionView>
    decreases events.len(),
{
    if events.len() == 0 {
        Seq::empty()
    } else {
        seq![task.answer(runtime, events[0])] + actions_of_run(
            task.after(runtime, events[0]),
            runtime_after(task, runtime, events[0]),
            events.drop_first(),
        )
    }
}

/// How many of the actions publish an event.
pub open spec fn publish_count(actions: Seq<ActionView>) -> nat
    decreases actions.len(),
{
    if actions.len() == 0 {
        0
    } else if actions[0] is PublishAndWait {
        publish_count(actions.drop_first()) + 1
    } else {
        publish_count(actions.drop_first())
    }
}

/// How many of the actions send a translation request.
pub open spec fn fetch_count(actions: Seq<ActionView>) -> nat
    decreases actions.len(),
{
    if actions.len() == 0 {
        0
    } else if actions[0] is Fetch {
        fetch_count(actions.drop_first()) + 1
    } else {
        fetch_count(actions.drop_first())
    }
}

/// How many of the events report a capture.
pub open spec fn capture_count(events: Seq<TaskEvent>) -> nat
    decreases events.len(),
{
    if events.len() == 0 {
        0
    } else if events[0] is Recognized {
        capture_count(events.drop_first()) + 1
    } else {
        capture_count(events.drop_first())
    }
}

proof fn run_counts(task: TaskView, runtime: RuntimeState, events: Seq<TaskEvent>)
    ensures
        publish_count(actions_of_run(task, runtime, events)) + (if task_after_run(
            task,
            runtime,
            events,
        ).phase == TaskPhase::Translating {
            1nat
        } else {
            0nat
        }) <= fetch_count(actions_of_run(task, runtime, events)) + (if task.phase
            == TaskPhase::Translating {
            1nat
        } else {
            0nat
        }),
        fetch_count(actions_of_run(task, runtime, events)) <= capture_count(events),
    decreases events.len(),
{
    if events.len() > 0 {
        let next = task.after(runtime, events[0]);
        let settings = runtime_after(task, runtime, events[0]);
        let rest = actions_of_run(next, settings, events.drop_first());
        let all = actions_of_run(task, runtime, events);
        run_counts(next, settings, events.drop_first());
        assert(all[0] == task.answer(runtime, events[0]));
        assert(all.drop_first() =~= rest);
    }
}

/// In every run of a task from its start, no more events are published
/// than translation requests were sent, and no more requests are sent than
/// captures were reported.
pub proof fn publishes_are_bounded(task: TaskView, runtime: RuntimeState, events: Seq<TaskEvent>)
    requires
        task.phase == TaskPhase::Preflight,
    ensures
        publish_count(actions_of_run(task, runtime, events)) <= fetch_count(
            actions_of_run(task, runtime, events),
        ) <= capture_count(events),
{
    run_counts(task, runtime, events);
}

/// A task that has left the loop stays out of it: every further event is
/// answered by `Exit` and changes neither the task nor the runtime.
pub proof fn exited_is_final(task: TaskView, runtime: RuntimeState, event: TaskEvent)
    requires
        task.phase == TaskPhase::Exited,
    ensures
        task.after(runtime, event) == task,
        task.answer(runtime, event) == (ActionView::Exit { reason: None }),
        runtime_after(task, runtime, event) == runtime,
{
}

/// An event is published only as the answer to a translation that
/// succeeded, and then it carries the translated text.
pub proof fn publishes_only_translations(task: TaskView, runtime: RuntimeState, event: TaskEvent)
    requires
        task.answer(runtime, event) is PublishAndWait,
    ensures
        task.phase == TaskPhase::Translating,
        event matches TaskEvent::Answered(outcome) && answer_text(outcome) == Ok::<
            Seq<char>,
            TranscendiaError,
        >(task.answer(runtime, event)->PublishAndWait_text),
{
}

/// A capture whose text is the text of the tick before asks for no
/// translation: the task goes back to waiting, and nothing is published
/// for that tick.
pub proof fn unchanged_text_is_skipped(task: TaskView, runtime: RuntimeState, lines: Vec<String>)
    requires
        task.phase == TaskPhase::Capturing,
        recognized_text(texts(lines@)) == task.previous,
    ensures
        task.after(runtime, TaskEvent::Recognized(lines)) == (TaskView {
            phase: TaskPhase::Waiting,
            ..task
        }),
        task.answer(runtime, TaskEvent::Recognized(lines)) == (ActionView::Wait {
            seconds: runtime.interval,
            lost: None,
        }),
{
}

/// Two ticks in a row that recognize the same lines: whatever the first
/// one led to, the second one asks for no translation.
pub proof fn second_identical_tick_is_skipped(
    task: TaskView,
    runtime: RuntimeState,
    later: RuntimeState,
    lines: Vec<String>,
)
    requires
        task.phase == TaskPhase::Capturing,
    ensures
        ({
            let first = task.after(runtime, TaskEvent::Recognized(lines));
            let second = TaskView { phase: TaskPhase::Capturing, ..first };
            second.answer(later, TaskEvent::Recognized(lines)) == (ActionView::Wait {
                seconds: later.interval,
                lost: None,
            })
        }),
{
}

} // verus!
