use vstd::prelude::*;
use vstd::string::StringExecFns;
use rmpv::Value;

verus! {

/// The coarse state of the session with the engine.
#[derive(Clone, Copy, Debug, PartialEq, Eq, Structural)]
pub enum Phase {
    /// The engine process is being launched and the session opened.
    Starting,
    /// The handshake is under way: version check, marker, UI attachment,
    /// customization hook.
    Attaching,
    /// The handshake is complete and the pipeline is being started.
    Attached,
    /// Commands are being served.
    Running,
    /// The session is over. Nothing is sent any more.
    Terminated,
}

/// The step that the supervisor is waiting on.
#[derive(Clone, Copy, Debug, PartialEq, Eq, Structural)]
pub enum Stage {
    Launching,
    CheckingVersion,
    SettingMarker,
    AttachingUi,
    RunningHook,
    ReportingHookError,
    StartingPipeline,
    Serving,
    Ended,
}

/// How the session's I/O loop came to its end.
#[derive(Clone, Copy, Debug, PartialEq, Eq, Structural)]
pub enum IoEnd {
    /// The loop returned without an error.
    Clean,
    /// The loop found its channel already closed: an orderly shutdown that
    /// began elsewhere.
    ChannelClosed,
    /// The loop returned any other error.
    Failed,
    /// The task that ran the loop could not be joined.
    JoinFailed,
}

/// How loudly something is logged.
#[derive(Clone, Copy, Debug, PartialEq, Eq, Structural)]
pub enum Severity {
    Low,
    Error,
}

/// Why the front-end cannot go on.
#[derive(Clone, Copy, Debug, PartialEq, Eq, Structural)]
pub enum Failure {
    /// The engine could not be found or started.
    Launch,
    /// The engine did not take the session marker.
    Communication,
    /// The engine refused the UI attachment.
    Attach,
}

/// What has happened outside since the last directive.
#[derive(Debug, PartialEq, Eq)]
pub enum Event {
    /// The launch ended; `true` if the session is open.
    Launched(bool),
    /// The engine answered the version probe. `Some(n)` is an integer
    /// answer; every other answer, and an error, is `None`.
    VersionReported(Option<i64>),
    /// The marker variable was set (`true`) or the call failed.
    MarkerSet(bool),
    /// The UI was attached (`true`) or the call failed.
    UiAttached(bool),
    /// The customization hook ran. `Some` holds the text of its error.
    HookFinished(Option<String>),
    /// The hook's error was shown in the engine, or showing it failed.
    HookErrorReported,
    /// The watcher and the consumer run, and the settings are in step.
    PipelineStarted,
    /// The session's I/O loop has ended.
    IoEnded(IoEnd),
}

/// A remote call or local action that the supervisor asks for.
#[derive(Debug, PartialEq, Eq)]
pub enum Request {
    /// Ask the engine whether it has the required version.
    CheckVersion,
    /// Set the variable by which the engine knows this front-end.
    SetMarker,
    /// Attach the UI with this grid size and these capabilities.
    AttachUi { width: u64, height: u64, rgb: bool, linegrid_external: bool },
    /// Run the user's customization hook.
    RunHook,
    /// Show the hook's error, whose text this is, inside the engine.
    ReportHookError(String),
    /// Start the I/O watcher and the command consumer, pull the engine's
    /// settings and listen for their changes.
    StartPipeline,
}

/// What the caller has to do next.
#[derive(Debug, PartialEq, Eq)]
pub enum Directive {
    /// Perform the request and report how it went.
    Perform(Request),
    /// Print the failure and end the process with a failure status.
    Abort(Failure),
    /// The engine is too old: lower the running flag, log the rejection as
    /// an error and end the process with status 0.
    RejectVersion,
    /// The session is over: lower the running flag, and log the end at the
    /// given severity if there is one.
    Stop(Option<Severity>),
    /// Go on serving; there is nothing to perform.
    Serve,
    /// The event does not belong to the current step. Nothing changes.
    Ignore,
}

/// The status with which the process ends on a directive, for the
/// directives that end it: failure for an abort, success for a rejected
/// version.
pub open spec fn exit_status_of(directive: Directive) -> Option<i32> {
    match directive {
        Directive::Abort(_) => Some(1i32),
        Directive::RejectVersion => Some(0i32),
        _ => None,
    }
}

impl Directive {
    /// The status with which the process has to end, if this directive
    /// ends it.
    pub fn exit_status(&self) -> (status: Option<i32>)
        ensures
            status == exit_status_of(*self),
    {
        match self {
            Directive::Abort(_) => Some(1),
            Directive::RejectVersion => Some(0),
            _ => None,
        }
    }
}

/// The version answer that the front-end requires.
pub open spec fn required_version_answer() -> Option<i64> {
    Some(1i64)
}

/// The phase that a stage belongs to.
pub open spec fn phase_of(stage: Stage) -> Phase {
    match stage {
        Stage::Launching => Phase::Starting,
        Stage::CheckingVersion
        | Stage::SettingMarker
        | Stage::AttachingUi
        | Stage::RunningHook
        | Stage::ReportingHookError => Phase::Attaching,
        Stage::StartingPipeline => Phase::Attached,
        Stage::Serving => Phase::Running,
        Stage::Ended => Phase::Terminated,
    }
}

/// How the end of the I/O loop is logged: a closed channel is expected and
/// only noted, a clean return is not logged at all, everything else is an
/// error.
pub open spec fn io_end_severity(end: IoEnd) -> Option<Severity> {
    match end {
        IoEnd::Clean => None,
        IoEnd::ChannelClosed => Some(Severity::Low),
        IoEnd::Failed => Some(Severity::Error),
        IoEnd::JoinFailed => Some(Severity::Error),
    }
}

/// The transition function of the supervisor: the stage it moves to and the
/// directive it gives, for a stage and an event. `dimensions` is the grid
/// size asked for at attachment.
pub open spec fn transition(stage: Stage, dimensions: (u64, u64), event: Event) -> (
    Stage,
    Directive,
) {
    match (stage, event) {
        (Stage::Ended, _) => (Stage::Ended, Directive::Ignore),
        (_, Event::IoEnded(end)) => (Stage::Ended, Directive::Stop(io_end_severity(end))),
        (Stage::Launching, Event::Launched(opened)) => if opened {
            (Stage::CheckingVersion, Directive::Perform(Request::CheckVersion))
        } else {
            (Stage::Ended, Directive::Abort(Failure::Launch))
        },
        (Stage::CheckingVersion, Event::VersionReported(answer)) => if answer
            == required_version_answer() {
            (Stage::SettingMarker, Directive::Perform(Request::SetMarker))
        } else {
            (Stage::Ended, Directive::RejectVersion)
        },
        (Stage::SettingMarker, Event::MarkerSet(done)) => if done {
            (
                Stage::AttachingUi,
                Directive::Perform(
                    Request::AttachUi {
                        width: dimensions.0,
                        height: dimensions.1,
                        rgb: true,
                        linegrid_external: true,
                    },
                ),
            )
        } else {
            (Stage::Ended, Directive::Abort(Failure::Communication))
        },
        (Stage::AttachingUi, Event::UiAttached(done)) => if done {
            (Stage::RunningHook, Directive::Perform(Request::RunHook))
        } else {
            (Stage::Ended, Directive::Abort(Failure::Attach))
        },
        (Stage::RunningHook, Event::HookFinished(error)) => match error {
            Some(text) => (
                Stage::ReportingHookError,
                Directive::Perform(Request::ReportHookError(text)),
            ),
            None => (Stage::StartingPipeline, Directive::Perform(Request::StartPipeline)),
        },
        (Stage::ReportingHookError, Event::HookErrorReported) => (
            Stage::StartingPipeline,
            Directive::Perform(Request::StartPipeline),
        ),
        (Stage::StartingPipeline, Event::PipelineStarted) => (Stage::Serving, Directive::Serve),
        (_, _) => (stage, Directive::Ignore),
    }
}

/// The supervisor of one session: it knows which step is under way and
/// decides, event by event, what is done next.
#[derive(Debug, PartialEq, Eq)]
pub struct Supervisor {
    stage: Stage,
    dimensions: (u64, u64),
}

impl Supervisor {
    /// The step that the supervisor is waiting on.
    pub closed spec fn stage(&self) -> Stage {
        self.stage
    }

    /// The grid size that is asked for at attachment: columns, then rows.
    pub closed spec fn dimensions(&self) -> (u64, u64) {
        self.dimensions
    }

    /// A supervisor for a session that is about to be launched.
    pub fn new(dimensions: (u64, u64)) -> (supervisor: Supervisor)
        ensures
            supervisor.stage() == Stage::Launching,
            supervisor.dimensions() == dimensions,
    {
        Supervisor { stage: Stage::Launching, dimensions }
    }

    /// The coarse state of the session.
    pub fn phase(&self) -> (phase: Phase)
        ensures
            phase == phase_of(self.stage()),
    {
        match self.stage {
            Stage::Launching => Phase::Starting,
            Stage::CheckingVersion => Phase::Attaching,
            Stage::SettingMarker => Phase::Attaching,
            Stage::AttachingUi => Phase::Attaching,
            Stage::RunningHook => Phase::Attaching,
            Stage::ReportingHookError => Phase::Attaching,
            Stage::StartingPipeline => Phase::Attached,
            Stage::Serving => Phase::Running,
            Stage::Ended => Phase::Terminated,
        }
    }

    /// Takes one event and says what to do next.
    pub fn advance(&mut self, event: Event) -> (directive: Directive)
        ensures
            (final(self).stage(), directive) == transition(
                old(self).stage(),
                old(self).dimensions(),
                event,
            ),
            final(self).dimensions() == old(self).dimensions(),
    {
        if let Stage::Ended = self.stage {
            return Directive::Ignore;
        }
        if let Event::IoEnded(end) = event {
            self.stage = Stage::Ended;
            return Directive::Stop(log_io_end(end));
        }
        match (self.stage, event) {
            (Stage::Launching, Event::Launched(opened)) => {
                if opened {
                    self.stage = Stage::CheckingVersion;
                    Directive::Perform(Request::CheckVersion)
                } else {
                    self.stage = Stage::Ended;
                    Directive::Abort(Failure::Launch)
                }
            },
            (Stage::CheckingVersion, Event::VersionReported(answer)) => {
                if version_accepted(answer) {
                    self.stage = Stage::SettingMarker;
                    Directive::Perform(Request::SetMarker)
                } else {
                    self.stage = Stage::Ended;
                    Directive::RejectVersion
                }
            },
            (Stage::SettingMarker, Event::MarkerSet(done)) => {
                if done {
                    self.stage = Stage::AttachingUi;
                    Directive::Perform(
                        Request::AttachUi {
                            width: self.dimensions.0,
                            height: self.dimensions.1,
                            rgb: true,
                            linegrid_external: true,
                        },
                    )
                } else {
                    self.stage = Stage::Ended;
                    Directive::Abort(Failure::Communication)
                }
            },
            (Stage::AttachingUi, Event::UiAttached(done)) => {
                if done {
                    self.stage = Stage::RunningHook;
                    Directive::Perform(Request::RunHook)
                } else {
                    self.stage = Stage::Ended;
                    Directive::Abort(Failure::Attach)
                }
            },
            (Stage::RunningHook, Event::HookFinished(error)) => {
                match error {
                    Some(text) => {
                        self.stage = Stage::ReportingHookError;
                        Directive::Perform(Request::ReportHookError(text))
                    },
                    None => {
                        self.stage = Stage::StartingPipeline;
                        Directive::Perform(Request::StartPipeline)
                    },
                }
            },
            (Stage::ReportingHookError, Event::HookErrorReported) => {
                self.stage = Stage::StartingPipeline;
                Directive::Perform(Request::StartPipeline)
            },
            (Stage::StartingPipeline, Event::PipelineStarted) => {
                self.stage = Stage::Serving;
                Directive::Serve
            },
            (_, _) => Directive::Ignore,
        }
    }
}

/// Whether the engine's answer to the version probe is the required one.
pub fn version_accepted(answer: Option<i64>) -> (accepted: bool)
    ensures
        accepted == (answer == required_version_answer()),
{
    match answer {
        Some(n) => n == 1,
        None => false,
    }
}

/// The severity at which the end of the I/O loop is logged, if it is logged.
pub fn log_io_end(end: IoEnd) -> (severity: Option<Severity>)
    ensures
        severity == io_end_severity(end),
{
    match end {
        IoEnd::Clean => None,
        IoEnd::ChannelClosed => Some(Severity::Low),
        IoEnd::Failed => Some(Severity::Error),
        IoEnd::JoinFailed => Some(Severity::Error),
    }
}

/// A MessagePack value of `rmpv`. Verus sees nothing inside it.
#[verifier::external_type_specification]
#[verifier::external_body]
pub struct ExValue(Value);

/// The integer that a MessagePack value holds, where it is an integer that
/// fits an `i64`.
pub uninterp spec fn integer_in(value: Value) -> Option<i64>;

/// `rmpv::Value::as_i64` returns the integer that the value holds if the
/// value is an integer that fits an `i64`, and `None` for every other
/// value. The result depends on the value alone, so it has a name.
pub assume_specification[ Value::as_i64 ](value: &Value) -> (n: Option<i64>)
    ensures
        n == integer_in(*value),
;

/// What counts as the engine's answer to the version probe: the integer in
/// the reply, and nothing where the call failed or the reply is no integer.
pub fn version_answer<E>(reply: &Result<Value, E>) -> (answer: Option<i64>)
    ensures
        answer == match *reply {
            Ok(value) => integer_in(value),
            Err(_) => None,
        },
{
    match reply {
        Ok(value) => value.as_i64(),
        Err(_) => None,
    }
}

/// The expression that probes the engine's version.
pub fn version_probe() -> (expression: String)
    ensures
        expression@ == "has(\"nvim-0.4\")"@,
{
    String::from_str("has(\"nvim-0.4\")")
}

/// The name of the variable that marks a session of this front-end.
pub fn marker_variable() -> (name: String)
    ensures
        name@ == "neovide"@,
{
    String::from_str("neovide")
}

/// The command that runs the user's customization hook.
pub fn hook_command() -> (command: String)
    ensures
        command@ == "runtime! ginit.vim"@,
{
    String::from_str("runtime! ginit.vim")
}

/// The command that shows the hook's error inside the engine.
pub fn hook_error_command(detail: &str) -> (command: String)
    ensures
        command@ == "echomsg \"error encountered in ginit.vim "@ + detail@ + "\""@,
{
    let mut command = String::from_str("echomsg \"error encountered in ginit.vim ");
    command.append(detail);
    command.append("\"");
    command
}

/// What is logged when the engine is too old.
pub fn version_rejection() -> (message: String)
    ensures
        message@ == "Neovide requires version 0.4 or higher"@,
{
    String::from_str("Neovide requires version 0.4 or higher")
}

/// The text that explains a failure.
pub open spec fn explanation_text(failure: Failure) -> Seq<char> {
    match failure {
        Failure::Launch => "Could not locate or start the neovim process"@,
        Failure::Communication => "Could not communicate with neovim process"@,
        Failure::Attach => "Could not attach ui to neovim process"@,
    }
}

impl Failure {
    /// The explanation that is printed before the process ends.
    pub fn explanation(&self) -> (text: String)
        ensures
            text@ == explanation_text(*self),
    {
        match self {
            Failure::Launch => String::from_str("Could not locate or start the neovim process"),
            Failure::Communication => String::from_str("Could not communicate with neovim process"),
            Failure::Attach => String::from_str("Could not attach ui to neovim process"),
        }
    }

    /// The diagnostic for this failure: the explanation, a colon, and what
    /// is known of the cause.
    pub fn diagnostic(&self, cause: &str) -> (text: String)
        ensures
            text@ == explanation_text(*self) + ": "@ + cause@,
    {
        let mut text = self.explanation();
        text.append(": ");
        text.append(cause);
        text
    }
}

/// The cause of a failed launch: the executable that was to be started,
/// and the error that the system gave.
pub fn launch_failure_cause(program: &str, error: &str) -> (cause: String)
    ensures
        cause@ == program@ + ": "@ + error@,
{
    let mut cause = String::from_str(program);
    cause.append(": ");
    cause.append(error);
    cause
}

/// The stage reached and the directives given when the events are taken one
/// after the other.
pub open spec fn run(stage: Stage, dimensions: (u64, u64), events: Seq<Event>) -> (
    Stage,
    Seq<Directive>,
)
    decreases events.len(),
{
    if events.len() == 0 {
        (stage, Seq::empty())
    } else {
        let (reached, given) = run(stage, dimensions, events.drop_last());
        let (next, directive) = transition(reached, dimensions, events.last());
        (next, given.push(directive))
    }
}

/// A session that has ended stays ended, and nothing is asked for on its
/// behalf: every later event is ignored.
pub proof fn lemma_ended_session_stays_ended(dimensions: (u64, u64), events: Seq<Event>)
    ensures
        run(Stage::Ended, dimensions, events).0 == Stage::Ended,
        run(Stage::Ended, dimensions, events).1.len() == events.len(),
        forall|i: int|
            0 <= i < events.len() ==> #[trigger] run(Stage::Ended, dimensions, events).1[i]
                == Directive::Ignore,
    decreases events.len(),
{
    if events.len() > 0 {
        lemma_ended_session_stays_ended(dimensions, events.drop_last());
    }
}

/// The end of the I/O loop ends the session from every stage, and every
/// directive that ends the process or the session leaves the supervisor in
/// its final stage.
pub proof fn lemma_endings_are_final(stage: Stage, dimensions: (u64, u64), event: Event)
    ensures
        event is IoEnded ==> transition(stage, dimensions, event).0 == Stage::Ended,
        ({
            let directive = transition(stage, dimensions, event).1;
            directive is Abort || directive is RejectVersion || directive is Stop
        }) ==> transition(stage, dimensions, event).0 == Stage::Ended,
{
}

/// The UI is attached only on the step after the marker was set, and that
/// step is reached only from an accepted version: while the version is
/// being checked, any answer but the required one ends the session with a
/// rejection and without a request.
pub proof fn lemma_attachment_follows_accepted_version(
    stage: Stage,
    dimensions: (u64, u64),
    event: Event,
)
    ensures
        transition(stage, dimensions, event).1 matches Directive::Perform(
            Request::AttachUi { .. },
        ) ==> stage == Stage::SettingMarker,
        stage != Stage::SettingMarker && transition(stage, dimensions, event).0
            == Stage::SettingMarker ==> stage == Stage::CheckingVersion && event
            == Event::VersionReported(required_version_answer()),
        forall|answer: Option<i64>|
            answer != required_version_answer() ==> #[trigger] transition(
                Stage::CheckingVersion,
                dimensions,
                Event::VersionReported(answer),
            ) == (Stage::Ended, Directive::RejectVersion),
{
}

/// Whether a directive has the running flag lowered.
pub open spec fn lowers_flag(directive: Directive) -> bool {
    directive is Abort || directive is RejectVersion || directive is Stop
}

/// The session ends with a directive that lowers the running flag and in
/// no other way: an event that lowers no flag leaves a live session live.
pub proof fn lemma_session_ends_only_with_lowered_flag(
    stage: Stage,
    dimensions: (u64, u64),
    event: Event,
)
    requires
        stage != Stage::Ended,
    ensures
        transition(stage, dimensions, event).0 == Stage::Ended <==> lowers_flag(
            transition(stage, dimensions, event).1,
        ),
{
}

/// Once a directive has lowered the running flag, the session has ended.
pub proof fn lemma_lowered_flag_ends_session(
    stage: Stage,
    dimensions: (u64, u64),
    events: Seq<Event>,
    i: int,
)
    requires
        0 <= i < events.len(),
        lowers_flag(run(stage, dimensions, events).1[i]),
    ensures
        run(stage, dimensions, events).0 == Stage::Ended,
    decreases events.len(),
{
    lemma_run_length(stage, dimensions, events);
    lemma_run_length(stage, dimensions, events.drop_last());
    if i < events.len() - 1 {
        lemma_lowered_flag_ends_session(stage, dimensions, events.drop_last(), i);
    }
}

/// The running flag is lowered at most once: whatever follows a directive
/// that lowered it is ignored.
pub proof fn lemma_flag_is_lowered_once(
    stage: Stage,
    dimensions: (u64, u64),
    events: Seq<Event>,
    i: int,
    j: int,
)
    requires
        0 <= i < j < events.len(),
        lowers_flag(run(stage, dimensions, events).1[i]),
    ensures
        run(stage, dimensions, events).1[j] == Directive::Ignore,
    decreases events.len(),
{
    lemma_run_length(stage, dimensions, events);
    lemma_run_length(stage, dimensions, events.drop_last());
    if j < events.len() - 1 {
        lemma_flag_is_lowered_once(stage, dimensions, events.drop_last(), i, j);
    } else {
        lemma_lowered_flag_ends_session(stage, dimensions, events.drop_last(), i);
    }
}

/// A run gives one directive for each event.
pub proof fn lemma_run_length(stage: Stage, dimensions: (u64, u64), events: Seq<Event>)
    ensures
        run(stage, dimensions, events).1.len() == events.len(),
    decreases events.len(),
{
    if events.len() > 0 {
        lemma_run_length(stage, dimensions, events.drop_last());
    }
}

} // verus!
