//! One attempt at measuring the runtime of the served artifact.
//!
//! The caller starts the file server, runs the browser driver, reads what it
//! printed and stops the server. This module decides the order of those
//! steps and what the attempt comes to. Whatever happens once the server is
//! up, the attempt ends only after the server was told to stop.

use vstd::prelude::*;
use vstd::string::*;
use vstd::utf8::{decode_utf8, valid_utf8};

verus! {

/// Why an attempt failed.
#[derive(Clone, Copy, Debug, PartialEq, Eq, Structural)]
pub enum MeasureError {
    /// The file server could not be started.
    ServerStart,
    /// The driver could not be launched.
    DriverLaunch,
    /// The driver's output is not UTF-8.
    NotUtf8,
    /// The driver printed nothing but whitespace.
    Empty,
    /// The driver's output is not a number.
    NotNumeric,
    /// The file server could not be stopped.
    ServerStop,
}

/// Whether `c` is whitespace: a character with the Unicode property
/// `White_Space`.
pub open spec fn is_white_space(c: char) -> bool {
    ||| '\u{9}' <= c <= '\u{d}'
    ||| c == ' '
    ||| c == '\u{85}'
    ||| c == '\u{a0}'
    ||| c == '\u{1680}'
    ||| '\u{2000}' <= c <= '\u{200a}'
    ||| c == '\u{2028}'
    ||| c == '\u{2029}'
    ||| c == '\u{202f}'
    ||| c == '\u{205f}'
    ||| c == '\u{3000}'
}

/// `text` without its leading whitespace.
pub open spec fn trim_start(text: Seq<char>) -> Seq<char>
    decreases text.len(),
{
    if text.len() > 0 && is_white_space(text.first()) {
        trim_start(text.drop_first())
    } else {
        text
    }
}

/// `text` without its trailing whitespace.
pub open spec fn trim_end(text: Seq<char>) -> Seq<char>
    decreases text.len(),
{
    if text.len() > 0 && is_white_space(text.last()) {
        trim_end(text.drop_last())
    } else {
        text
    }
}

/// `text` without its leading and trailing whitespace.
pub open spec fn trim(text: Seq<char>) -> Seq<char> {
    trim_end(trim_start(text))
}

/// What is left after trimming has whitespace at neither end.
pub proof fn lemma_trim_leaves_no_margin(text: Seq<char>)
    ensures
        trim(text).len() <= text.len(),
        trim(text).len() > 0 ==> !is_white_space(trim(text).first()) && !is_white_space(
            trim(text).last(),
        ),
{
    lemma_trim_start(text);
    lemma_trim_end(trim_start(text));
}

/// Trimming at the start leaves a text that is empty or begins with a
/// character that is no whitespace; what is cut off is a prefix.
proof fn lemma_trim_start(text: Seq<char>)
    ensures
        trim_start(text).len() <= text.len(),
        trim_start(text) == text.subrange(text.len() - trim_start(text).len(), text.len() as int),
        trim_start(text).len() > 0 ==> !is_white_space(trim_start(text).first()),
    decreases text.len(),
{
    if text.len() > 0 && is_white_space(text.first()) {
        let rest = text.drop_first();
        lemma_trim_start(rest);
        let kept = trim_start(rest);
        assert(rest.subrange(rest.len() - kept.len(), rest.len() as int) =~= text.subrange(
            text.len() - kept.len(),
            text.len() as int,
        ));
    } else {
        assert(text.subrange(0, text.len() as int) =~= text);
    }
}

/// Trimming at the end leaves a text that is empty or ends with a character
/// that is no whitespace, and keeps the first character of what is left.
proof fn lemma_trim_end(text: Seq<char>)
    ensures
        trim_end(text).len() <= text.len(),
        trim_end(text).len() > 0 ==> !is_white_space(trim_end(text).last()) && trim_end(
            text,
        ).first() == text.first(),
    decreases text.len(),
{
    if text.len() > 0 && is_white_space(text.last()) {
        lemma_trim_end(text.drop_last());
    }
}

/// Calls `String::from_utf8`. The contract is not proved. It claims what the
/// standard library documents: the call succeeds exactly on valid UTF-8, and
/// the string then holds the characters that the bytes encode.
#[verifier::external_body]
fn utf8_text(bytes: Vec<u8>) -> (text: Option<String>)
    ensures
        match text {
            Some(s) => valid_utf8(bytes@) && s@ == decode_utf8(bytes@),
            None => !valid_utf8(bytes@),
        },
{
    match String::from_utf8(bytes) {
        Ok(text) => Some(text),
        Err(_) => None,
    }
}

/// Calls `str::trim`. The contract is not proved. It claims what the
/// standard library documents: the result is the text without its leading
/// and trailing whitespace, whitespace being the characters with the Unicode
/// property `White_Space`.
#[verifier::external_body]
fn trimmed(text: &str) -> (inner: &str)
    ensures
        inner@ == trim(text@),
{
    text.trim()
}

/// Reads the driver's output as text: decodes it as UTF-8 and strips the
/// surrounding whitespace. What is left is what the driver reported, and is
/// yet to be read as a number.
pub fn decode_output(stdout: Vec<u8>) -> (text: Result<String, MeasureError>)
    ensures
        match text {
            Ok(line) => valid_utf8(stdout@) && line@ == trim(decode_utf8(stdout@)) && line@.len()
                > 0,
            Err(error) => if valid_utf8(stdout@) {
                error == MeasureError::Empty && trim(decode_utf8(stdout@)).len() == 0
            } else {
                error == MeasureError::NotUtf8
            },
        },
{
    match utf8_text(stdout) {
        None => Err(MeasureError::NotUtf8),
        Some(raw) => {
            let inner = trimmed(raw.as_str());
            if inner.is_empty() {
                Err(MeasureError::Empty)
            } else {
                Ok(String::from_str(inner))
            }
        },
    }
}

/// Where an attempt stands. `T` is the measured value.
#[derive(Debug, PartialEq)]
pub enum AttemptState<T> {
    /// Nothing has happened yet.
    Idle,
    /// The file server was asked to start.
    ServerStarting,
    /// The server is up and the driver runs.
    DriverRunning,
    /// The driver has exited and its output is being read.
    ParsingOutput,
    /// The server was told to stop; `outcome` is what the attempt came to.
    ServerStopping { outcome: Result<T, MeasureError> },
    /// The attempt is over.
    Finished,
}

/// What the caller reports back after carrying out an action.
#[derive(Debug, PartialEq)]
pub enum AttemptEvent<T> {
    /// The attempt is to begin.
    Start,
    ServerStarted,
    ServerStartFailed,
    DriverExited,
    DriverLaunchFailed,
    /// The driver's output was read, with this outcome.
    OutputParsed { outcome: Result<T, MeasureError> },
    ServerStopped,
    ServerStopFailed,
}

/// What the caller is to do next.
#[derive(Debug, PartialEq)]
pub enum AttemptAction<T> {
    StartServer,
    RunDriver,
    /// Read the driver's output and report `OutputParsed`.
    ParseOutput,
    StopServer,
    /// The attempt is over and this is its result.
    Finish { outcome: Result<T, MeasureError> },
    /// The event came out of turn and was ignored.
    Nothing,
}

impl<T> AttemptState<T> {
    /// Whether a file server started by this attempt may be running.
    pub open spec fn server_up(self) -> bool {
        self is DriverRunning || self is ParsingOutput || self is ServerStopping
    }

    /// The state and the action that follow `event` in this state. An event
    /// that the state does not wait for changes nothing.
    pub open spec fn after(self, event: AttemptEvent<T>) -> (AttemptState<T>, AttemptAction<T>) {
        match (self, event) {
            (AttemptState::Idle, AttemptEvent::Start) => (
                AttemptState::ServerStarting,
                AttemptAction::StartServer,
            ),
            (AttemptState::ServerStarting, AttemptEvent::ServerStarted) => (
                AttemptState::DriverRunning,
                AttemptAction::RunDriver,
            ),
            (AttemptState::ServerStarting, AttemptEvent::ServerStartFailed) => (
                AttemptState::Finished,
                AttemptAction::Finish { outcome: Err(MeasureError::ServerStart) },
            ),
            (AttemptState::DriverRunning, AttemptEvent::DriverExited) => (
                AttemptState::ParsingOutput,
                AttemptAction::ParseOutput,
            ),
            (AttemptState::DriverRunning, AttemptEvent::DriverLaunchFailed) => (
                AttemptState::ServerStopping { outcome: Err(MeasureError::DriverLaunch) },
                AttemptAction::StopServer,
            ),
            (AttemptState::ParsingOutput, AttemptEvent::OutputParsed { outcome }) => (
                AttemptState::ServerStopping { outcome },
                AttemptAction::StopServer,
            ),
            (AttemptState::ServerStopping { outcome }, AttemptEvent::ServerStopped) => (
                AttemptState::Finished,
                AttemptAction::Finish { outcome },
            ),
            (AttemptState::ServerStopping { outcome }, AttemptEvent::ServerStopFailed) => (
                AttemptState::Finished,
                AttemptAction::Finish { outcome: Err(MeasureError::ServerStop) },
            ),
            (state, _) => (state, AttemptAction::Nothing),
        }
    }

    /// The state that the attempt is in after the events of `events`, in
    /// order.
    pub open spec fn run(self, events: Seq<AttemptEvent<T>>) -> AttemptState<T>
        decreases events.len(),
    {
        if events.len() == 0 {
            self
        } else {
            self.run(events.drop_last()).after(events.last()).0
        }
    }

    /// Whether, after `events`, a file server started by the attempt is
    /// still running: it runs from the report that it started until the
    /// report that it stopped.
    pub open spec fn server_alive(self, events: Seq<AttemptEvent<T>>) -> bool
        decreases events.len(),
    {
        if events.len() == 0 {
            false
        } else {
            let before = self.run(events.drop_last());
            if before is ServerStarting && events.last() is ServerStarted {
                true
            } else if before is ServerStopping && events.last() is ServerStopped {
                false
            } else {
                self.server_alive(events.drop_last())
            }
        }
    }

    /// Whether, in the course of `events`, stopping the server has failed.
    pub open spec fn stop_failed(self, events: Seq<AttemptEvent<T>>) -> bool
        decreases events.len(),
    {
        if events.len() == 0 {
            false
        } else {
            let before = self.run(events.drop_last());
            (before is ServerStopping && events.last() is ServerStopFailed) || self.stop_failed(
                events.drop_last(),
            )
        }
    }

    /// A fresh attempt.
    pub fn new() -> (state: AttemptState<T>)
        ensures
            state == AttemptState::<T>::Idle,
    {
        AttemptState::Idle
    }

    /// Takes `event` in and says what to do next.
    pub fn step(self, event: AttemptEvent<T>) -> (next: (AttemptState<T>, AttemptAction<T>))
        ensures
            next == self.after(event),
    {
        match (self, event) {
            (AttemptState::Idle, AttemptEvent::Start) => (
                AttemptState::ServerStarting,
                AttemptAction::StartServer,
            ),
            (AttemptState::ServerStarting, AttemptEvent::ServerStarted) => (
                AttemptState::DriverRunning,
                AttemptAction::RunDriver,
            ),
            (AttemptState::ServerStarting, AttemptEvent::ServerStartFailed) => (
                AttemptState::Finished,
                AttemptAction::Finish { outcome: Err(MeasureError::ServerStart) },
            ),
            (AttemptState::DriverRunning, AttemptEvent::DriverExited) => (
                AttemptState::ParsingOutput,
                AttemptAction::ParseOutput,
            ),
            (AttemptState::DriverRunning, AttemptEvent::DriverLaunchFailed) => (
                AttemptState::ServerStopping { outcome: Err(MeasureError::DriverLaunch) },
                AttemptAction::StopServer,
            ),
            (AttemptState::ParsingOutput, AttemptEvent::OutputParsed { outcome }) => (
                AttemptState::ServerStopping { outcome },
                AttemptAction::StopServer,
            ),
            (AttemptState::ServerStopping { outcome }, AttemptEvent::ServerStopped) => (
                AttemptState::Finished,
                AttemptAction::Finish { outcome },
            ),
            (AttemptState::ServerStopping { outcome: _ }, AttemptEvent::ServerStopFailed) => (
                AttemptState::Finished,
                AttemptAction::Finish { outcome: Err(MeasureError::ServerStop) },
            ),
            (state, _) => (state, AttemptAction::Nothing),
        }
    }
}

/// No server is left behind: once the server is up, every step leads to a
/// state in which it is still looked after, or ends the attempt out of
/// `ServerStopping`, on the word that the server has stopped or that
/// stopping it failed.
pub proof fn lemma_server_is_stopped<T>(state: AttemptState<T>, event: AttemptEvent<T>)
    requires
        state.server_up(),
    ensures
        state.after(event).0.server_up() || (state.after(event).0 is Finished
            && state is ServerStopping && (event is ServerStopped || event is ServerStopFailed)),
        !(state.after(event).0 is Idle),
        !(state.after(event).0 is ServerStarting),
{
}

/// An attempt reports a measured value only when the server is confirmed to
/// have stopped, and the value is the one that reading the output gave.
pub proof fn lemma_success_follows_stop<T>(state: AttemptState<T>, event: AttemptEvent<T>)
    requires
        state.after(event).1 matches AttemptAction::Finish { outcome: Ok(_) },
    ensures
        event is ServerStopped,
        state matches AttemptState::ServerStopping { outcome } && state.after(event).1
            == (AttemptAction::Finish { outcome }),
{
}

/// An attempt ends only in two ways: the server never came up, or it was
/// told to stop and the answer is in.
pub proof fn lemma_finish_paths<T>(state: AttemptState<T>, event: AttemptEvent<T>)
    requires
        !(state is Finished),
        state.after(event).0 is Finished,
    ensures
        (state is ServerStarting && event is ServerStartFailed) || (state is ServerStopping && (
        event is ServerStopped || event is ServerStopFailed)),
        state.after(event).1 is Finish,
{
}

/// The result of an attempt is given out exactly when the attempt ends.
pub proof fn lemma_finish_ends_attempt<T>(state: AttemptState<T>, event: AttemptEvent<T>)
    ensures
        state.after(event).1 is Finish <==> (!(state is Finished) && state.after(event).0
            is Finished),
{
}

/// No attempt leaves its server running: whatever the caller reports, an
/// attempt that has ended has seen its server stop, unless stopping it
/// failed; and while a server runs the attempt has not ended, but is on its
/// way to stopping it.
pub proof fn lemma_no_server_left_running<T>(events: Seq<AttemptEvent<T>>)
    ensures
        ({
            let first = AttemptState::<T>::Idle;
            let last = first.run(events);
            &&& last is Finished && !first.stop_failed(events) ==> !first.server_alive(events)
            &&& first.server_alive(events) ==> last.server_up() || (last is Finished
                && first.stop_failed(events))
            &&& last.server_up() ==> first.server_alive(events)
        }),
    decreases events.len(),
{
    if events.len() > 0 {
        lemma_no_server_left_running(events.drop_last());
    }
}

} // verus!
