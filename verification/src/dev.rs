//! The development server's decisions.
//!
//! The development loop runs the site builder as a child process, watches
//! the file system, serves the output and optionally opens a browser. All
//! the waiting and spawning happens outside this module; what stays here is
//! the state machine that decides, for each event, what to do next, and
//! that guarantees that only one builder process is alive at a time.

use vstd::prelude::*;
use vstd::multiset::*;
use colored::Colorize;

use crate::text::{decimal, push_decimal};
use crate::url::{parse_url, url_serialization};

verus! {

/// Where the builder process is in its life cycle.
///
/// `C` is the handle of a running child process.
pub enum BuilderState<C> {
    /// A kill was issued; no builder may start before its result arrives.
    AwaitingKillResult,
    /// A builder run was requested and its process is awaited.
    AwaitingChild,
    /// A builder run was requested, but the sources changed since, so the
    /// process will be killed as soon as it arrives.
    AwaitingObsoleteChild,
    /// A builder process is running.
    Started(C),
}

impl<C> Default for BuilderState<C> {
    fn default() -> (s: Self)
        ensures
            s is AwaitingChild,
    {
        BuilderState::AwaitingChild
    }
}

/// The kind of a file-system change notification.
pub enum FsEventKind {
    Any,
    Access,
    Create,
    Modify,
    Remove,
    Other,
}

/// Errors that end the development loop.
///
/// `E` is an I/O error, `N` a file-watcher error.
pub enum DevError<E, N> {
    Notify(N),
    Io(E),
    NoFreePort,
}

/// Errors of a single build.
///
/// `E` is an I/O error, `P` an error reported by the post-build hook.
pub enum BuildError<E, P> {
    Io(E),
    ExitCode(i32),
    NoExitCode,
    PostBuild(P),
}

/// An event that reaches the development loop.
pub enum InputEvent<C, E, N> {
    BuilderKilled(Result<(), E>),
    FsChange(Result<FsEventKind, N>),
    BuilderStarted(Result<C, E>),
    BrowserOpened(Result<(), E>),
    ServerError(E),
}

/// An action that the development loop asks to be performed.
pub enum OutputEvent<C, E, N> {
    Stderr(String),
    RunBuilder,
    KillChildProcess(C),
    Error(DevError<E, N>),
    OpenBrowser,
}

/// Whether a file-system change of this kind makes the current build stale.
pub open spec fn is_source_change(kind: FsEventKind) -> bool {
    kind is Create || kind is Modify || kind is Remove
}

/// The inputs that the loop can handle in a state: a successful kill is only
/// ever reported after a kill was issued, and no builder is reported started
/// while a kill is pending.
pub open spec fn input_allowed<C, E, N>(state: BuilderState<C>, input: InputEvent<C, E, N>) -> bool {
    match input {
        InputEvent::BuilderKilled(Ok(())) => state is AwaitingKillResult,
        InputEvent::BuilderStarted(Ok(_)) => !(state is AwaitingKillResult),
        _ => true,
    }
}

/// The reaction of the loop to one input: its next state and the action it
/// asks for, if any.
pub open spec fn step<C, E, N>(state: BuilderState<C>, input: InputEvent<C, E, N>) -> (
    BuilderState<C>,
    Option<OutputEvent<C, E, N>>,
) {
    match input {
        InputEvent::BuilderKilled(Ok(())) => (
            BuilderState::AwaitingChild,
            Some(OutputEvent::RunBuilder),
        ),
        InputEvent::BuilderKilled(Err(e)) => (state, Some(OutputEvent::Error(DevError::Io(e)))),
        InputEvent::FsChange(Ok(kind)) => if is_source_change(kind) {
            match state {
                BuilderState::AwaitingChild => (BuilderState::AwaitingObsoleteChild, None),
                BuilderState::Started(child) => (
                    BuilderState::AwaitingKillResult,
                    Some(OutputEvent::KillChildProcess(child)),
                ),
                _ => (state, None),
            }
        } else {
            (state, None)
        },
        InputEvent::FsChange(Err(n)) => (state, Some(OutputEvent::Error(DevError::Notify(n)))),
        InputEvent::BuilderStarted(Ok(child)) => match state {
            BuilderState::Started(current) => (
                BuilderState::Started(child),
                Some(OutputEvent::KillChildProcess(current)),
            ),
            BuilderState::AwaitingObsoleteChild => (
                BuilderState::AwaitingKillResult,
                Some(OutputEvent::KillChildProcess(child)),
            ),
            _ => (BuilderState::Started(child), None),
        },
        InputEvent::BuilderStarted(Err(e)) => (state, Some(OutputEvent::Error(DevError::Io(e)))),
        InputEvent::BrowserOpened(Ok(())) => (state, None),
        InputEvent::BrowserOpened(Err(e)) => (state, Some(OutputEvent::Error(DevError::Io(e)))),
        InputEvent::ServerError(e) => (state, Some(OutputEvent::Error(DevError::Io(e)))),
    }
}

impl<C> BuilderState<C> {
    /// Takes the running child out of the state, leaving the state waiting
    /// for the result of killing it, and asks for the kill.
    pub fn killing_unchecked<E, N>(&mut self) -> (out: OutputEvent<C, E, N>)
        requires
            *old(self) is Started,
        ensures
            *final(self) is AwaitingKillResult,
            out == OutputEvent::<C, E, N>::KillChildProcess((*old(self))->Started_0),
    {
        let mut taken = BuilderState::AwaitingKillResult;
        std::mem::swap(self, &mut taken);
        match taken {
            BuilderState::Started(child) => OutputEvent::KillChildProcess(child),
            _ => {
                assert(false);
                OutputEvent::RunBuilder
            },
        }
    }
}

/// The parent of the site builder: it knows how to run the builder and
/// tracks the builder process during development.
///
/// `C` is the handle of a running child process, `P` the post-build hook.
pub struct Parent<C, P> {
    builder_command: String,
    builder_args: Vec<String>,
    output_dir: String,
    builder: BuilderState<C>,
    post_build: Option<P>,
}

impl<C, P> Parent<C, P> {
    /// The program that runs the builder.
    pub closed spec fn spec_builder_command(&self) -> Seq<char> {
        self.builder_command@
    }

    /// The arguments handed to the builder.
    pub closed spec fn spec_builder_args(&self) -> Seq<Seq<char>> {
        self.builder_args@.map_values(|a: String| a@)
    }

    /// The directory the builder writes the site to.
    pub closed spec fn spec_output_dir(&self) -> Seq<char> {
        self.output_dir@
    }

    /// The state of the builder process.
    pub closed spec fn spec_builder(&self) -> BuilderState<C> {
        self.builder
    }

    /// The post-build hook, if one was set.
    pub closed spec fn spec_post_build(&self) -> Option<P> {
        self.post_build
    }

    /// A parent that runs `builder_command` with `builder_args` and serves
    /// `output_dir`; no builder is running yet and no hook is set.
    pub fn new(output_dir: String, builder_command: String, builder_args: Vec<String>) -> (p: Self)
        ensures
            p.spec_output_dir() == output_dir@,
            p.spec_builder_command() == builder_command@,
            p.spec_builder_args() == builder_args@.map_values(|a: String| a@),
            p.spec_builder() is AwaitingChild,
            p.spec_post_build() is None,
    {
        Parent {
            output_dir,
            builder_command,
            builder_args,
            builder: BuilderState::AwaitingChild,
            post_build: None,
        }
    }

    /// Sets the hook that runs after each successful build.
    pub fn post_build(self, f: P) -> (p: Self)
        ensures
            p.spec_post_build() == Some(f),
            p.spec_output_dir() == self.spec_output_dir(),
            p.spec_builder_command() == self.spec_builder_command(),
            p.spec_builder_args() == self.spec_builder_args(),
            p.spec_builder() == self.spec_builder(),
    {
        let mut p = self;
        p.post_build = Some(f);
        p
    }

    /// The program that runs the builder.
    pub fn builder_command_name(&self) -> (s: &String)
        ensures
            s@ == self.spec_builder_command(),
    {
        &self.builder_command
    }

    /// The arguments handed to the builder.
    pub fn builder_args(&self) -> (args: &Vec<String>)
        ensures
            args@.map_values(|a: String| a@) == self.spec_builder_args(),
    {
        &self.builder_args
    }

    /// The directory the builder writes the site to.
    pub fn output_dir(&self) -> (s: &String)
        ensures
            s@ == self.spec_output_dir(),
    {
        &self.output_dir
    }

    /// The state of the builder process.
    pub fn builder(&self) -> (state: &BuilderState<C>)
        ensures
            *state == self.spec_builder(),
    {
        &self.builder
    }

    /// The post-build hook, if one was set.
    pub fn post_build_hook(&self) -> (hook: &Option<P>)
        ensures
            *hook == self.spec_post_build(),
    {
        &self.post_build
    }

    /// Reacts to one event of the development loop.
    pub fn input_event<E, N>(&mut self, input: InputEvent<C, E, N>) -> (out: Option<OutputEvent<C, E, N>>)
        requires
            input_allowed(old(self).spec_builder(), input),
        ensures
            (final(self).spec_builder(), out) == step(old(self).spec_builder(), input),
            final(self).spec_output_dir() == old(self).spec_output_dir(),
            final(self).spec_builder_command() == old(self).spec_builder_command(),
            final(self).spec_builder_args() == old(self).spec_builder_args(),
            final(self).spec_post_build() == old(self).spec_post_build(),
    {
        match input {
            InputEvent::BuilderKilled(result) => self.builder_killed(result),
            InputEvent::FsChange(result) => self.fs_change(result),
            InputEvent::BuilderStarted(child) => self.builder_started(child),
            InputEvent::BrowserOpened(result) => Self::browser_opened(result),
            InputEvent::ServerError(error) => Some(OutputEvent::Error(DevError::Io(error))),
        }
    }

    /// Reacts to the result of killing a builder process.
    pub fn builder_killed<E, N>(&mut self, result: Result<(), E>) -> (out: Option<OutputEvent<C, E, N>>)
        requires
            result is Ok ==> old(self).spec_builder() is AwaitingKillResult,
        ensures
            (final(self).spec_builder(), out) == step(
                old(self).spec_builder(),
                InputEvent::<C, E, N>::BuilderKilled(result),
            ),
            final(self).spec_output_dir() == old(self).spec_output_dir(),
            final(self).spec_builder_command() == old(self).spec_builder_command(),
            final(self).spec_builder_args() == old(self).spec_builder_args(),
            final(self).spec_post_build() == old(self).spec_post_build(),
    {
        match result {
            Ok(()) => {
                self.builder = BuilderState::AwaitingChild;
                Some(OutputEvent::RunBuilder)
            },
            Err(error) => Some(OutputEvent::Error(DevError::Io(error))),
        }
    }

    /// Reacts to a change of the watched files.
    pub fn fs_change<E, N>(&mut self, result: Result<FsEventKind, N>) -> (out: Option<OutputEvent<C, E, N>>)
        ensures
            (final(self).spec_builder(), out) == step(
                old(self).spec_builder(),
                InputEvent::<C, E, N>::FsChange(result),
            ),
            final(self).spec_output_dir() == old(self).spec_output_dir(),
            final(self).spec_builder_command() == old(self).spec_builder_command(),
            final(self).spec_builder_args() == old(self).spec_builder_args(),
            final(self).spec_post_build() == old(self).spec_post_build(),
    {
        match result {
            Ok(kind) => match kind {
                FsEventKind::Create | FsEventKind::Modify | FsEventKind::Remove => match &self.builder {
                    BuilderState::AwaitingChild => {
                        self.builder = BuilderState::AwaitingObsoleteChild;
                        None
                    },
                    BuilderState::Started(_) => Some(self.builder.killing_unchecked()),
                    _ => None,
                },
                _ => None,
            },
            Err(error) => Some(OutputEvent::Error(DevError::Notify(error))),
        }
    }

    /// Reacts to the spawning of a builder process.
    pub fn builder_started<E, N>(&mut self, child: Result<C, E>) -> (out: Option<OutputEvent<C, E, N>>)
        requires
            child is Ok ==> !(old(self).spec_builder() is AwaitingKillResult),
        ensures
            (final(self).spec_builder(), out) == step(
                old(self).spec_builder(),
                InputEvent::<C, E, N>::BuilderStarted(child),
            ),
            final(self).spec_output_dir() == old(self).spec_output_dir(),
            final(self).spec_builder_command() == old(self).spec_builder_command(),
            final(self).spec_builder_args() == old(self).spec_builder_args(),
            final(self).spec_post_build() == old(self).spec_post_build(),
    {
        match child {
            Ok(child) => match &self.builder {
                BuilderState::AwaitingKillResult => {
                    assert(false);
                    None
                },
                BuilderState::AwaitingChild => {
                    self.builder = BuilderState::Started(child);
                    None
                },
                BuilderState::AwaitingObsoleteChild => {
                    self.builder = BuilderState::AwaitingKillResult;
                    Some(OutputEvent::KillChildProcess(child))
                },
                BuilderState::Started(_) => {
                    let current_child = self.builder.killing_unchecked();
                    self.builder = BuilderState::Started(child);
                    Some(current_child)
                },
            },
            Err(error) => Some(OutputEvent::Error(DevError::Io(error))),
        }
    }

    /// Reacts to the result of opening the browser.
    pub fn browser_opened<E, N>(result: Result<(), E>) -> (out: Option<OutputEvent<C, E, N>>)
        ensures
            out == step(BuilderState::<C>::AwaitingChild, InputEvent::<C, E, N>::BrowserOpened(result)).1,
    {
        match result {
            Ok(()) => None,
            Err(error) => Some(OutputEvent::Error(DevError::Io(error))),
        }
    }
}


/// The host the development server listens on.
pub open spec fn localhost() -> Seq<char> {
    "localhost"@
}

/// The address of the development server on a port: `http://localhost:PORT`.
pub open spec fn local_url_spec(port: u16) -> Seq<char> {
    "http://localhost:"@ + decimal(port as int)
}

/// The address of the development server on `port`, before it is parsed as
/// a URL.
pub fn local_url_text(port: u16) -> (s: String)
    ensures
        s@ == local_url_spec(port),
{
    let mut s = String::from_str("http://localhost:");
    push_decimal(&mut s, port as i64);
    s
}

/// The URL of the development server on `port`, as written back after
/// parsing.
pub fn local_url(port: u16) -> (url: String)
    requires
        url_serialization(local_url_spec(port)) is Some,
    ensures
        url@ == url_serialization(local_url_spec(port))->Some_0,
{
    let text = local_url_text(port);
    match parse_url(text.as_str()) {
        Some(url) => url,
        None => {
            assert(false);
            String::new()
        },
    }
}

/// The URL of the development server on `port`, or `None` when its address
/// does not parse.
pub fn try_local_url(port: u16) -> (url: Option<String>)
    ensures
        url is Some <==> url_serialization(local_url_spec(port)) is Some,
        url matches Some(u) ==> u@ == url_serialization(local_url_spec(port))->Some_0,
{
    let text = local_url_text(port);
    match parse_url(text.as_str()) {
        Some(_) => Some(local_url(port)),
        None => None,
    }
}

/// The announcement printed when the server starts, before it is colored.
pub open spec fn server_started_text(url: Seq<char>) -> Seq<char> {
    "\nServer started at "@ + url + "\n"@
}

/// The terminal's reset sequence, `ESC [ 0 m`.
pub open spec fn reset_sequence() -> Seq<char> {
    seq!['\x1b', '[', '0', 'm']
}

/// The terminal's blue foreground sequence, `ESC [ 34 m`.
pub open spec fn blue_sequence() -> Seq<char> {
    seq!['\x1b', '[', '3', '4', 'm']
}

/// A text whose every reset sequence is followed by the blue sequence
/// again, so that the text stays blue after an inner reset.
pub open spec fn resets_restyled_blue(s: Seq<char>) -> Seq<char>
    decreases s.len(),
{
    if s.len() == 0 {
        s
    } else if s.len() >= 4 && s.subrange(0, 4) == reset_sequence() {
        reset_sequence() + blue_sequence() + resets_restyled_blue(s.subrange(4, s.len() as int))
    } else {
        seq![s[0]] + resets_restyled_blue(s.subrange(1, s.len() as int))
    }
}

/// A text painted blue for a terminal: the blue sequence, the text with its
/// inner resets followed by the blue sequence again, and the reset sequence.
pub open spec fn painted_blue(s: Seq<char>) -> Seq<char> {
    blue_sequence() + resets_restyled_blue(s) + reset_sequence()
}

/// Paints a text blue with `colored` (`Colorize::blue`, then `Display`).
///
/// Whether colors are written depends on the environment and on whether
/// standard output is a terminal, so the contract says that the result is
/// either the text unchanged or the text painted blue: between the blue
/// and the reset sequences, with the blue sequence written again after each
/// reset sequence that the text holds.
#[verifier::external_body]
fn paint_blue(s: &str) -> (painted: String)
    ensures
        painted@ == s@ || painted@ == painted_blue(s@),
{
    s.blue().to_string()
}

/// Whether an announcement is the one made when the server starts at `url`,
/// colored or not.
pub open spec fn is_server_started_message(message: Seq<char>, url: Seq<char>) -> bool {
    message == server_started_text(url) || message == painted_blue(server_started_text(url))
}

/// The actions the development loop asks for before any event arrives: run
/// the builder, announce the server's address on standard error, and open
/// the browser when asked to.
pub fn initial_outputs<C, E, N>(launch_browser: bool, url: &str) -> (out: Vec<OutputEvent<C, E, N>>)
    ensures
        out@.len() == if launch_browser { 3int } else { 2int },
        out@[0] is RunBuilder,
        out@[1] is Stderr,
        is_server_started_message(out@[1]->Stderr_0@, url@),
        launch_browser ==> out@[2] is OpenBrowser,
{
    let mut text = String::from_str("\nServer started at ");
    text.append(url);
    text.append("\n");
    assert(text@ == server_started_text(url@));
    let message = paint_blue(text.as_str());
    let mut out: Vec<OutputEvent<C, E, N>> = Vec::new();
    out.push(OutputEvent::RunBuilder);
    out.push(OutputEvent::Stderr(message));
    if launch_browser {
        out.push(OutputEvent::OpenBrowser);
    }
    out
}

/// The outcome of the builder process's exit: success, or the exit code,
/// or the lack of one when the process was ended by a signal.
pub open spec fn exit_outcome<E, P>(success: bool, code: Option<i32>) -> Result<(), BuildError<E, P>> {
    if success {
        Ok(())
    } else {
        match code {
            Some(c) => Err(BuildError::ExitCode(c)),
            None => Err(BuildError::NoExitCode),
        }
    }
}

/// Decides a build from the way the builder process ended: whether it was
/// waited for (or the I/O error), whether it succeeded, and its exit code.
pub fn build_status_outcome<E, P>(status: Result<(bool, Option<i32>), E>) -> (r: Result<(), BuildError<E, P>>)
    ensures
        r == match status {
            Ok((success, code)) => exit_outcome::<E, P>(success, code),
            Err(e) => Err(BuildError::<E, P>::Io(e)),
        },
{
    match status {
        Ok((success, code)) => {
            if success {
                Ok(())
            } else {
                match code {
                    Some(c) => Err(BuildError::ExitCode(c)),
                    None => Err(BuildError::NoExitCode),
                }
            }
        },
        Err(e) => Err(BuildError::Io(e)),
    }
}

/// Decides a build from the result of the post-build hook, when one is set.
pub fn post_build_outcome<E, P>(hook_result: Option<Result<(), P>>) -> (r: Result<(), BuildError<E, P>>)
    ensures
        r == match hook_result {
            Some(Err(p)) => Err(BuildError::<E, P>::PostBuild(p)),
            _ => Ok(()),
        },
{
    match hook_result {
        Some(Err(p)) => Err(BuildError::PostBuild(p)),
        _ => Ok(()),
    }
}

/// The builder processes that a state holds.
pub open spec fn state_children<C>(state: BuilderState<C>) -> Multiset<C> {
    match state {
        BuilderState::Started(child) => Multiset::singleton(child),
        _ => Multiset::empty(),
    }
}

/// The builder process that an input hands over.
pub open spec fn input_children<C, E, N>(input: InputEvent<C, E, N>) -> Multiset<C> {
    match input {
        InputEvent::BuilderStarted(Ok(child)) => Multiset::singleton(child),
        _ => Multiset::empty(),
    }
}

/// The builder process that an action hands over to be killed.
pub open spec fn output_children<C, E, N>(out: Option<OutputEvent<C, E, N>>) -> Multiset<C> {
    match out {
        Some(OutputEvent::KillChildProcess(child)) => Multiset::singleton(child),
        _ => Multiset::empty(),
    }
}

/// No builder process is lost: every process that the loop holds or is
/// handed is, after one step, either still held or handed over to be killed.
pub proof fn lemma_children_conserved<C, E, N>(state: BuilderState<C>, input: InputEvent<C, E, N>)
    requires
        input_allowed(state, input),
    ensures
        state_children(step(state, input).0).add(output_children(step(state, input).1))
            =~= state_children(state).add(input_children(input)),
{
    broadcast use group_multiset_axioms;

}

/// The protocol between the loop and the process drivers, counted by the
/// builder runs that were asked for and not yet reported (`runs`) and the
/// kills that were asked for and not yet reported (`kills`).
pub open spec fn protocol_inv<C>(state: BuilderState<C>, runs: nat, kills: nat) -> bool {
    match state {
        BuilderState::AwaitingChild => runs == 1 && kills == 0,
        BuilderState::AwaitingObsoleteChild => runs == 1 && kills == 0,
        BuilderState::Started(_) => runs == 0 && kills == 0,
        BuilderState::AwaitingKillResult => runs == 0 && kills == 1,
    }
}

/// The drivers only report what was asked of them: a spawned builder after
/// a run was asked for, a kill result after a kill was asked for.
pub open spec fn input_consistent<C, E, N>(input: InputEvent<C, E, N>, runs: nat, kills: nat) -> bool {
    &&& input is BuilderStarted ==> runs > 0
    &&& input is BuilderKilled ==> kills > 0
}

/// Pending builder runs after a step.
pub open spec fn runs_after<C, E, N>(
    runs: nat,
    input: InputEvent<C, E, N>,
    out: Option<OutputEvent<C, E, N>>,
) -> nat {
    ((runs - if input is BuilderStarted { 1int } else { 0int }) + if out matches Some(
        OutputEvent::RunBuilder,
    ) {
        1int
    } else {
        0int
    }) as nat
}

/// Pending kills after a step.
pub open spec fn kills_after<C, E, N>(
    kills: nat,
    input: InputEvent<C, E, N>,
    out: Option<OutputEvent<C, E, N>>,
) -> nat {
    ((kills - if input is BuilderKilled { 1int } else { 0int }) + if out matches Some(
        OutputEvent::KillChildProcess(_),
    ) {
        1int
    } else {
        0int
    }) as nat
}

/// The builder processes that are alive or about to be: the running one,
/// the ones asked for and not yet reported, and the ones whose kill is not
/// yet reported.
pub open spec fn live_builders<C>(state: BuilderState<C>, runs: nat, kills: nat) -> nat {
    (if state is Started { 1nat } else { 0nat }) + runs + kills
}

/// The loop starts in the protocol: a new parent awaits the one builder run
/// that its initial actions ask for, and no kill is pending.
pub proof fn lemma_protocol_initial<C>(state: BuilderState<C>)
    requires
        state is AwaitingChild,
    ensures
        protocol_inv(state, 1, 0),
        live_builders(state, 1, 0) == 1,
{
}

/// Only one builder is alive at a time. Under the protocol, every event the
/// drivers can report is one the loop handles without panicking, and unless
/// the loop stops on an error, the protocol still holds after it, with
/// exactly one builder alive or about to be.
pub proof fn lemma_protocol_step<C, E, N>(
    state: BuilderState<C>,
    runs: nat,
    kills: nat,
    input: InputEvent<C, E, N>,
)
    requires
        protocol_inv(state, runs, kills),
        input_consistent(input, runs, kills),
    ensures
        input_allowed(state, input),
        live_builders(state, runs, kills) == 1,
        !(step(state, input).1 matches Some(OutputEvent::Error(_))) ==> {
            &&& protocol_inv(
                step(state, input).0,
                runs_after(runs, input, step(state, input).1),
                kills_after(kills, input, step(state, input).1),
            )
            &&& live_builders(
                step(state, input).0,
                runs_after(runs, input, step(state, input).1),
                kills_after(kills, input, step(state, input).1),
            ) == 1
        },
{
}

/// A change of the sources never leaves a builder running: after it, the
/// running builder, if any, is being killed, and a builder still to come
/// will be killed on arrival.
pub proof fn lemma_source_change_stops_builder<C, E, N>(state: BuilderState<C>, kind: FsEventKind)
    requires
        is_source_change(kind),
    ensures
        !(step(state, InputEvent::<C, E, N>::FsChange(Ok(kind))).0 is Started),
        state is Started ==> step(state, InputEvent::<C, E, N>::FsChange(Ok(kind))).1 == Some(
            OutputEvent::<C, E, N>::KillChildProcess(state->Started_0),
        ),
        state is AwaitingChild ==> step(
            state,
            InputEvent::<C, E, N>::FsChange(Ok(kind)),
        ).0 is AwaitingObsoleteChild,
{
}

/// Every failure that reaches the loop is reported as the error that ends
/// it, and leaves the builder state as it was.
pub proof fn lemma_failures_reported<C, E, N>(state: BuilderState<C>, input: InputEvent<C, E, N>)
    requires
        match input {
            InputEvent::BuilderKilled(r) => r is Err,
            InputEvent::FsChange(r) => r is Err,
            InputEvent::BuilderStarted(r) => r is Err,
            InputEvent::BrowserOpened(r) => r is Err,
            InputEvent::ServerError(_) => true,
        },
    ensures
        step(state, input).0 == state,
        step(state, input).1 matches Some(OutputEvent::Error(_)),
{
}

/// What a spawned builder does to the loop: a failed spawn ends the loop
/// with the I/O error and leaves the state as it was; a builder that was
/// awaited runs; one that arrives after the sources changed is killed at
/// once; one that arrives while another runs replaces it, and the other is
/// killed.
pub proof fn lemma_builder_started_cases<C, E, N>(state: BuilderState<C>, child: Result<C, E>)
    requires
        child is Ok ==> !(state is AwaitingKillResult),
    ensures
        child matches Err(e) ==> step(state, InputEvent::<C, E, N>::BuilderStarted(child)) == (
            state,
            Some(OutputEvent::<C, E, N>::Error(DevError::Io(e))),
        ),
        child matches Ok(c) ==> match state {
            BuilderState::AwaitingChild => step(state, InputEvent::<C, E, N>::BuilderStarted(child))
                == (BuilderState::Started(c), None::<OutputEvent<C, E, N>>),
            BuilderState::AwaitingObsoleteChild => step(
                state,
                InputEvent::<C, E, N>::BuilderStarted(child),
            ) == (
                BuilderState::<C>::AwaitingKillResult,
                Some(OutputEvent::<C, E, N>::KillChildProcess(c)),
            ),
            BuilderState::Started(old) => step(state, InputEvent::<C, E, N>::BuilderStarted(child))
                == (BuilderState::Started(c), Some(OutputEvent::<C, E, N>::KillChildProcess(old))),
            BuilderState::AwaitingKillResult => false,
        },
{
}

/// What the result of a kill does to the loop: a confirmed kill, which only
/// comes while a kill is awaited, asks for a new build and awaits its
/// process; a failed kill ends the loop with the I/O error and leaves the
/// state as it was.
pub proof fn lemma_builder_killed_cases<C, E, N>(state: BuilderState<C>, result: Result<(), E>)
    requires
        result is Ok ==> state is AwaitingKillResult,
    ensures
        result is Ok ==> step(state, InputEvent::<C, E, N>::BuilderKilled(result)) == (
            BuilderState::<C>::AwaitingChild,
            Some(OutputEvent::<C, E, N>::RunBuilder),
        ),
        result matches Err(e) ==> step(state, InputEvent::<C, E, N>::BuilderKilled(result)) == (
            state,
            Some(OutputEvent::<C, E, N>::Error(DevError::Io(e))),
        ),
{
}

/// A file-system event that is no change of the sources (an access or any
/// other kind but creation, modification and removal) leaves the builder's
/// state as it is and asks for nothing.
pub proof fn lemma_non_source_event_is_ignored<C, E, N>(state: BuilderState<C>, kind: FsEventKind)
    requires
        !is_source_change(kind),
    ensures
        step(state, InputEvent::<C, E, N>::FsChange(Ok(kind))) == (state, None::<OutputEvent<C, E, N>>),
{
}

/// The builder's state after a sequence of file-system events.
pub open spec fn after_fs_events<C, E, N>(state: BuilderState<C>, kinds: Seq<FsEventKind>) -> BuilderState<C>
    decreases kinds.len(),
{
    if kinds.len() == 0 {
        state
    } else {
        step(
            after_fs_events::<C, E, N>(state, kinds.drop_last()),
            InputEvent::<C, E, N>::FsChange(Ok(kinds.last())),
        ).0
    }
}

/// A stale build is never kept: when the sources change while a builder run
/// is awaited, the builder that then arrives is killed at once, whatever
/// other file-system events came in between, and the loop waits for the
/// kill before it runs the builder again.
pub proof fn lemma_stale_build_is_killed<C, E, N>(kinds: Seq<FsEventKind>, child: C)
    requires
        kinds.len() > 0,
        is_source_change(kinds[0]),
    ensures
        step(
            after_fs_events::<C, E, N>(BuilderState::AwaitingChild, kinds),
            InputEvent::<C, E, N>::BuilderStarted(Ok(child)),
        ) == (BuilderState::<C>::AwaitingKillResult, Some(OutputEvent::<C, E, N>::KillChildProcess(child))),
    decreases kinds.len(),
{
    lemma_stale_state::<C, E, N>(kinds);
}

proof fn lemma_stale_state<C, E, N>(kinds: Seq<FsEventKind>)
    requires
        kinds.len() > 0,
        is_source_change(kinds[0]),
    ensures
        after_fs_events::<C, E, N>(BuilderState::AwaitingChild, kinds) is AwaitingObsoleteChild,
    decreases kinds.len(),
{
    let before = after_fs_events::<C, E, N>(BuilderState::AwaitingChild, kinds.drop_last());
    if kinds.len() > 1 {
        assert(kinds.drop_last()[0] == kinds[0]);
        lemma_stale_state::<C, E, N>(kinds.drop_last());
        assert(before is AwaitingObsoleteChild);
    } else {
        assert(kinds.drop_last().len() == 0);
        assert(before == BuilderState::<C>::AwaitingChild);
        assert(kinds.last() == kinds[0]);
    }
    assert(after_fs_events::<C, E, N>(BuilderState::AwaitingChild, kinds) == step(
        before,
        InputEvent::<C, E, N>::FsChange(Ok(kinds.last())),
    ).0);
}

} // verus!
