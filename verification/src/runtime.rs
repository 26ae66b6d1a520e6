//! The translation runtime: the guard that keeps one scheduling task alive
//! at a time, and the decisions that the task takes on every tick.

use vstd::prelude::*;
use crate::config::Region;
use crate::errors::TranscendiaError;
use crate::translate::{translate_text, translation_of_body, HttpOutcome};

verus! {

/// What the runtime handle holds, as a plain value.
pub struct RuntimeState {
    /// Whether a scheduling task has been launched and not stopped since.
    pub is_running: bool,
    /// Whether a cancellation was raised that no task has observed yet.
    pub stop_pending: bool,
    /// Seconds between two ticks.
    pub interval: u8,
    /// The language that texts are translated into.
    pub language: Seq<char>,
}

impl RuntimeState {
    /// Whether a call of `start` in this state launches a task.
    pub open spec fn launches(self) -> bool {
        !self.is_running
    }

    /// The state after a call of `start`.
    pub open spec fn started(self, language: Seq<char>) -> RuntimeState {
        if self.is_running {
            self
        } else {
            RuntimeState { is_running: true, language, ..self }
        }
    }

    /// The state after a call of `stop`.
    pub open spec fn stopped(self) -> RuntimeState {
        RuntimeState {
            is_running: false,
            stop_pending: self.stop_pending || self.is_running,
            ..self
        }
    }

    /// The state after a task has observed the cancellation.
    pub open spec fn observed(self) -> RuntimeState {
        RuntimeState { stop_pending: false, ..self }
    }
}

/// The handle of the runtime. One value of it lives as long as the process;
/// callers share it behind a lock.
#[derive(Debug)]
pub struct TranscendiaRuntime {
    is_running: bool,
    stop_pending: bool,
    interval: u8,
    language: String,
}

/// What a newly launched scheduling task works with.
#[derive(Debug)]
pub struct TaskLaunch {
    pub monitor: u32,
    pub region: Region,
    pub language: String,
    pub interval: u8,
}

/// What ended the wait between two ticks.
#[derive(Clone, Copy, Debug, PartialEq, Eq, Structural)]
pub enum Wake {
    /// The cancellation was notified.
    Cancelled,
    /// The interval ran out.
    IntervalElapsed,
}

/// What the task does after a wait.
#[derive(Clone, Copy, Debug, PartialEq, Eq, Structural)]
pub enum LoopStep {
    /// Leave the loop; the task ends.
    Exit,
    /// Capture, recognize and, if the text changed, translate and publish.
    RunTick,
}

impl View for TranscendiaRuntime {
    type V = RuntimeState;

    closed spec fn view(&self) -> RuntimeState {
        RuntimeState {
            is_running: self.is_running,
            stop_pending: self.stop_pending,
            interval: self.interval,
            language: self.language@,
        }
    }
}

impl TranscendiaRuntime {
    /// An idle runtime with the given interval.
    pub fn new(interval: u8) -> (rt: Self)
        ensures
            rt@ == (RuntimeState {
                is_running: false,
                stop_pending: false,
                interval,
                language: Seq::empty(),
            }),
    {
        TranscendiaRuntime {
            is_running: false,
            stop_pending: false,
            interval,
            language: String::new(),
        }
    }

    /// Sets the interval. A running task reads it before its next wait.
    pub fn update(&mut self, interval: u8)
        ensures
            final(self)@ == (RuntimeState { interval, ..old(self)@ }),
    {
        self.interval = interval;
    }

    /// Sets the target language. A running task reads it on its next tick.
    pub fn update_language(&mut self, language: String)
        ensures
            final(self)@ == (RuntimeState { language: language@, ..old(self)@ }),
    {
        self.language = language;
    }

    /// Starts the runtime. While it is running this does nothing and returns
    /// `None`; otherwise it marks the runtime as running, stores the
    /// language and returns what the one new task is launched with.
    pub fn start(&mut self, monitor: u32, region: Region, lang: String) -> (launch: Option<
        TaskLaunch,
    >)
        ensures
            final(self)@ == old(self)@.started(lang@),
            launch is Some == old(self)@.launches(),
            launch matches Some(task) ==> task.monitor == monitor && task.region == region
                && task.language@ == lang@ && task.interval == old(self)@.interval,
    {
        if self.is_running {
            return None;
        }
        self.is_running = true;
        self.language = lang.clone();
        Some(TaskLaunch { monitor, region, language: lang, interval: self.interval })
    }

    /// Stops the runtime. The cancellation is raised when the runtime was
    /// running; raised twice before a task observes it, it still counts once.
    pub fn stop(&mut self)
        ensures
            final(self)@ == old(self)@.stopped(),
    {
        if self.is_running {
            self.stop_pending = true;
        }
        self.is_running = false;
    }

    /// The task reports what ended its wait. An observed cancellation is
    /// used up and ends the loop; an elapsed interval starts a tick.
    pub fn on_wake(&mut self, wake: Wake) -> (step: LoopStep)
        ensures
            wake == Wake::Cancelled ==> step == LoopStep::Exit && final(self)@ == old(
                self,
            )@.observed(),
            wake == Wake::IntervalElapsed ==> step == LoopStep::RunTick && final(self)@ == old(
                self,
            )@,
    {
        match wake {
            Wake::Cancelled => {
                self.stop_pending = false;
                LoopStep::Exit
            },
            Wake::IntervalElapsed => LoopStep::RunTick,
        }
    }

    pub fn is_running(&self) -> (r: bool)
        ensures
            r == self@.is_running,
    {
        self.is_running
    }

    pub fn stop_pending(&self) -> (r: bool)
        ensures
            r == self@.stop_pending,
    {
        self.stop_pending
    }

    pub fn interval(&self) -> (r: u8)
        ensures
            r == self@.interval,
    {
        self.interval
    }

    pub fn language(&self) -> (r: String)
        ensures
            r@ == self@.language,
    {
        self.language.clone()
    }
}

/// The runtime handle with its fields in the open, for callers that keep
/// the three cells themselves.
#[derive(Clone, Copy, Debug, PartialEq, Eq, Structural)]
pub struct TranslateRuntime {
    /// Whether a cancellation was raised that no task has observed yet.
    pub need_stop: bool,
    pub is_running: bool,
    /// Seconds between two ticks.
    pub interval: u8,
}

/// Starts the runtime held in `data`. While it is running this does nothing
/// and returns `None`; otherwise it marks the runtime as running and
/// returns what the one new task is launched with.
pub fn start_translate_runtime(
    data: &mut TranslateRuntime,
    monitor: u32,
    region: Region,
    lang: String,
) -> (launch: Option<TaskLaunch>)
    ensures
        *final(data) == (TranslateRuntime { is_running: true, ..*old(data) }),
        launch is Some == !old(data).is_running,
        launch matches Some(task) ==> task.monitor == monitor && task.region == region
            && task.language@ == lang@ && task.interval == old(data).interval,
{
    if data.is_running {
        return None;
    }
    data.is_running = true;
    Some(TaskLaunch { monitor, region, language: lang, interval: data.interval })
}

/// Stops the runtime held in `data`: the cancellation is raised when the
/// runtime was running, and the runtime is idle afterwards.
pub fn stop_translate_runtime(data: &mut TranslateRuntime)
    ensures
        *final(data) == (TranslateRuntime {
            is_running: false,
            need_stop: old(data).need_stop || old(data).is_running,
            ..*old(data)
        }),
{
    if data.is_running {
        data.need_stop = true;
    }
    data.is_running = false;
}

/// A second `start` without a `stop` in between launches nothing and leaves
/// the state as the first one left it: of two such calls at most one
/// launches a task, and exactly one when the runtime was idle before.
pub proof fn start_twice_launches_once(s: RuntimeState, first: Seq<char>, second: Seq<char>)
    ensures
        !s.started(first).launches(),
        s.started(first).started(second) == s.started(first),
        !s.is_running ==> s.launches(),
        s.started(first).is_running,
{
}

/// Any number of `stop` calls before a task observes the cancellation leave
/// the state that one call leaves, and once a task has observed it no
/// cancellation is left for a second exit.
pub proof fn stop_is_coalesced(s: RuntimeState)
    ensures
        s.stopped().stopped() == s.stopped(),
        !s.stopped().is_running,
        s.is_running ==> s.stopped().stop_pending,
        !s.stopped().observed().stop_pending,
        s.stopped().stopped().observed() == s.stopped().observed(),
{
}

/// A `stop` on an idle runtime changes nothing.
pub proof fn stop_when_idle_is_harmless(s: RuntimeState)
    requires
        !s.is_running,
    ensures
        s.stopped() == s,
{
}

/// The characters of each line.
pub open spec fn texts(lines: Seq<String>) -> Seq<Seq<char>> {
    lines.map_values(|s: String| s@)
}

/// A recognized fragment counts from two characters on; shorter ones are
/// taken for noise.
pub open spec fn is_kept(line: Seq<char>) -> bool {
    line.len() >= 2
}

/// The fragments that count, in their order.
pub open spec fn kept_lines(lines: Seq<Seq<char>>) -> Seq<Seq<char>> {
    lines.filter(|line: Seq<char>| is_kept(line))
}

/// The lines with one `\n` between each two of them.
pub open spec fn joined(lines: Seq<Seq<char>>) -> Seq<char>
    decreases lines.len(),
{
    if lines.len() == 0 {
        Seq::empty()
    } else if lines.len() == 1 {
        lines[0]
    } else {
        joined(lines.drop_last()) + seq!['\n'] + lines.last()
    }
}

/// The text of one capture: the fragments that count, joined by `\n`.
pub open spec fn recognized_text(lines: Seq<Seq<char>>) -> Seq<char> {
    joined(kept_lines(lines))
}

proof fn kept_lines_step(lines: Seq<Seq<char>>, i: int)
    requires
        0 <= i < lines.len(),
    ensures
        kept_lines(lines.take(i + 1)) == if is_kept(lines[i]) {
            kept_lines(lines.take(i)).push(lines[i])
        } else {
            kept_lines(lines.take(i))
        },
{
    reveal(Seq::filter);
    assert(lines.take(i + 1).drop_last() == lines.take(i));
    assert(lines.take(i + 1).last() == lines[i]);
}

proof fn joined_step(lines: Seq<Seq<char>>, line: Seq<char>)
    ensures
        joined(lines.push(line)) == if lines.len() == 0 {
            line
        } else {
            joined(lines) + seq!['\n'] + line
        },
{
    assert(lines.push(line).drop_last() == lines);
}

/// Joins the fragments that count with `\n` between them.
pub fn join_lines(lines: &Vec<String>) -> (text: String)
    ensures
        text@ == recognized_text(texts(lines@)),
{
    let ghost all = texts(lines@);
    let mut text = String::new();
    let mut first = true;
    let mut i: usize = 0;
    proof {
        reveal(Seq::filter);
        assert(all.take(0).len() == 0);
    }
    while i < lines.len()
        invariant
            i <= lines.len(),
            all == texts(lines@),
            all.len() == lines@.len(),
            text@ == joined(kept_lines(all.take(i as int))),
            first == (kept_lines(all.take(i as int)).len() == 0),
        decreases lines.len() - i,
    {
        proof {
            kept_lines_step(all, i as int);
            joined_step(kept_lines(all.take(i as int)), all[i as int]);
            assert(all[i as int] == lines@[i as int]@);
        }
        let line = lines[i].as_str();
        if line.unicode_len() >= 2 {
            if !first {
                text.append("\n");
                proof {
                    reveal_strlit("\n");
                    assert("\n"@ =~= seq!['\n']);
                }
            }
            text.append(line);
            first = false;
        }
        i += 1;
    }
    proof {
        assert(all.take(lines@.len() as int) == all);
    }
    text
}

/// What a tick does with the text it recognized.
#[derive(Debug)]
pub enum TickDecision {
    /// The text is the one of the tick before: nothing is translated and
    /// nothing is published.
    Unchanged,
    /// The text is new and is to be translated.
    Translate(String),
}

/// How a tick ended.
#[derive(Debug)]
pub enum TickOutcome {
    /// One event carries this text to the subscribers.
    Publish(String),
    /// Nothing is published and what was shown before stays; the loop goes
    /// on with the next tick.
    Keep(TranscendiaError),
}

/// The memory of a scheduling task: the text of the tick before.
#[derive(Debug)]
pub struct Scheduler {
    previous_text: String,
}

/// The decision on a recognized text, given the text of the tick before:
/// whether it is translated.
pub open spec fn is_change(previous: Seq<char>, lines: Seq<Seq<char>>) -> bool {
    recognized_text(lines) != previous
}

impl Scheduler {
    /// The text of the tick before; empty before the first tick.
    pub closed spec fn previous(self) -> Seq<char> {
        self.previous_text@
    }

    /// The memory of a task that has not run a tick yet.
    pub fn new() -> (s: Self)
        ensures
            s.previous() == Seq::<char>::empty(),
    {
        Scheduler { previous_text: String::new() }
    }

    pub fn previous_text(&self) -> (t: String)
        ensures
            t@ == self.previous(),
    {
        self.previous_text.clone()
    }

    /// Takes the lines of one capture. The text of this tick replaces the
    /// remembered one; it is handed out for translation exactly when it
    /// differs from the text of the tick before.
    pub fn on_recognized(&mut self, lines: &Vec<String>) -> (decision: TickDecision)
        ensures
            final(self).previous() == recognized_text(texts(lines@)),
            match decision {
                TickDecision::Unchanged => !is_change(old(self).previous(), texts(lines@)),
                TickDecision::Translate(text) => is_change(old(self).previous(), texts(lines@))
                    && text@ == recognized_text(texts(lines@)),
            },
    {
        let text = join_lines(lines);
        if text == self.previous_text {
            TickDecision::Unchanged
        } else {
            self.previous_text = text.clone();
            TickDecision::Translate(text)
        }
    }
}

/// What is published after the translation request of a tick: the
/// translated text where the request succeeded and its answer could be
/// read, and nothing otherwise.
pub fn tick_outcome(outcome: &HttpOutcome) -> (result: TickOutcome)
    ensures
        match *outcome {
            HttpOutcome::Failed => result == TickOutcome::Keep(
                TranscendiaError::TranslationUnavailable,
            ),
            HttpOutcome::Body(body) => match translation_of_body(body@) {
                Some(translated) => result matches TickOutcome::Publish(t) && t@ == translated,
                None => result == TickOutcome::Keep(TranscendiaError::TranslationParseError),
            },
        },
{
    let mut text = String::new();
    match translate_text(&mut text, outcome) {
        Ok(()) => TickOutcome::Publish(text),
        Err(e) => TickOutcome::Keep(e),
    }
}

/// How many of a run of captures are handed out for translation, given the
/// text remembered before the first of them. No more events are published
/// than this, and exactly as many where every translation succeeds.
pub open spec fn changes(previous: Seq<char>, captures: Seq<Seq<Seq<char>>>) -> nat
    decreases captures.len(),
{
    if captures.len() == 0 {
        0
    } else {
        let rest = changes(recognized_text(captures[0]), captures.drop_first());
        if is_change(previous, captures[0]) {
            rest + 1
        } else {
            rest
        }
    }
}

/// Two ticks in a row that recognize the same lines count as one change at
/// most: the second is never a change, whatever was remembered before the
/// first, and the first is one exactly when its text differs from the
/// remembered one.
pub proof fn repeated_text_is_debounced(previous: Seq<char>, lines: Seq<Seq<char>>)
    ensures
        !is_change(recognized_text(lines), lines),
        changes(previous, seq![lines, lines]) == if recognized_text(lines) != previous {
            1nat
        } else {
            0nat
        },
{
    let both = seq![lines, lines];
    let second = both.drop_first();
    assert(second[0] == lines);
    assert(second.drop_first().len() == 0);
    assert(changes(recognized_text(lines), second.drop_first()) == 0);
    assert(changes(recognized_text(lines), second) == 0);
}

/// A tick that recognizes what the tick before recognized adds nothing to
/// the count, wherever in a run it stands.
pub proof fn unchanged_tick_adds_nothing(
    previous: Seq<char>,
    lines: Seq<Seq<char>>,
    later: Seq<Seq<Seq<char>>>,
)
    requires
        recognized_text(lines) == previous,
    ensures
        changes(previous, seq![lines] + later) == changes(previous, later),
{
    let run = seq![lines] + later;
    assert(run[0] == lines);
    assert(run.drop_first() =~= later);
}

} // verus!
