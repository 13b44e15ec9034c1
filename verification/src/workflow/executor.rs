//! The stepwise run of a workflow as a state machine. The library decides
//! what happens next and says which events to publish; the host runs the
//! commands and hands their results back.

use vstd::prelude::*;
use crate::text::{texts, owned, contains, is_substring, signed_decimal, signed_decimal_string,
    concat2, join, joined, holds_text};
use crate::text_map::TextMap;
use crate::system::{fresh_id, id_text, uuid_text, now};
use crate::workflow::client::{CommandResult, RapsClient, RapsClientConfig, JsonOutput, JsonOutputView,
    JsonMember, JsonMemberView, member_views, failure_text};
use crate::workflow::discovery::WorkflowDefinition;
use crate::workflow::placeholders::{value_texts, command_substituted, substitute_command,
    substitute_commands};
use crate::workflow::types::{ExecutionHandle, ExecutionStep, ExecutionStepView, StepResult,
    StepResultView, ExecutionResult, ExecutionProgress, ExecutionStatus, ExecutionOptions,
    ExecutionContext, RapsCommand, RapsCommandView, WorkflowId, StepId, ResourceId, Timestamp, Seconds,
    AssetPath, result_views, copy_results};

verus! {

/// What is known of a command while it runs.
#[derive(Debug, Clone)]
pub struct CommandProgress {
    pub current_operation: String,
    /// Progress in hundredths, from 0 to 100.
    pub progress_percent: u8,
    /// Seconds that are expected to remain.
    pub estimated_remaining: Option<u64>,
    pub status_info: TextMap<String>,
}

/// Why a run failed.
#[derive(Debug, Clone)]
pub struct ExecutionError {
    pub message: String,
    pub failed_step: Option<StepId>,
    pub command_result: Option<CommandResult>,
    /// Advice for the reader; nothing acts on it.
    pub recovery_suggestions: Vec<String>,
    pub is_recoverable: bool,
}

impl ExecutionError {
    /// An error with a message and nothing else.
    pub fn new(message: String) -> (e: Self)
        ensures
            e.message == message,
            e.failed_step is None,
            e.command_result is None,
            e.recovery_suggestions@.len() == 0,
            !e.is_recoverable,
    {
        ExecutionError {
            message,
            failed_step: None,
            command_result: None,
            recovery_suggestions: Vec::new(),
            is_recoverable: false,
        }
    }

    /// The error for a command that failed in a step. The message is that
    /// of the command's result, or `"Command failed"` where the result
    /// claims success.
    pub fn from_command_failure(
        step_id: StepId,
        command_result: CommandResult,
        recovery_suggestions: Vec<String>,
    ) -> (e: Self)
        ensures
            e.message@ == if command_result.success {
                "Command failed"@
            } else {
                failure_text(command_result.exit_code, command_result.stdout@, command_result.stderr@)
            },
            e.failed_step == Some(step_id),
            e.command_result == Some(command_result),
            e.recovery_suggestions == recovery_suggestions,
            e.is_recoverable,
    {
        let message = match command_result.error_message() {
            Some(m) => m,
            None => owned("Command failed"),
        };
        ExecutionError {
            message,
            failed_step: Some(step_id),
            command_result: Some(command_result),
            recovery_suggestions,
            is_recoverable: true,
        }
    }

    /// The same error with one more suggestion at the end.
    pub fn with_suggestion(self, suggestion: String) -> (e: Self)
        ensures
            e.message == self.message,
            e.failed_step == self.failed_step,
            e.command_result == self.command_result,
            e.recovery_suggestions@ == self.recovery_suggestions@.push(suggestion),
            e.is_recoverable == self.is_recoverable,
    {
        let mut e = self;
        e.recovery_suggestions.push(suggestion);
        e
    }

    /// The same error, marked as one that the user can recover from.
    pub fn recoverable(self) -> (e: Self)
        ensures
            e.message == self.message,
            e.failed_step == self.failed_step,
            e.command_result == self.command_result,
            e.recovery_suggestions == self.recovery_suggestions,
            e.is_recoverable,
    {
        let mut e = self;
        e.is_recoverable = true;
        e
    }
}

/// The kinds of events that a run publishes.
#[derive(Debug, Clone, Copy, PartialEq, Eq, Structural)]
pub enum EventKind {
    Started,
    StepStarted,
    StepProgress,
    StepCompleted,
    Paused,
    Completed,
    Failed,
    Cancelled,
}

/// An event of a run, for whoever shows progress to the user.
#[derive(Debug, Clone)]
#[allow(inconsistent_fields)]
pub enum ExecutionUpdate {
    Started { handle: ExecutionHandle, workflow_id: WorkflowId },
    StepStarted { handle: ExecutionHandle, step: ExecutionStep },
    StepProgress { handle: ExecutionHandle, step_id: StepId, progress: CommandProgress },
    StepCompleted { handle: ExecutionHandle, result: StepResult },
    Paused { handle: ExecutionHandle, next_step: ExecutionStep },
    Completed { handle: ExecutionHandle, result: ExecutionResult },
    Failed { handle: ExecutionHandle, error: ExecutionError },
    Cancelled { handle: ExecutionHandle },
}

impl ExecutionUpdate {
    /// The kind of the event.
    pub open spec fn kind(self) -> EventKind {
        match self {
            ExecutionUpdate::Started { .. } => EventKind::Started,
            ExecutionUpdate::StepStarted { .. } => EventKind::StepStarted,
            ExecutionUpdate::StepProgress { .. } => EventKind::StepProgress,
            ExecutionUpdate::StepCompleted { .. } => EventKind::StepCompleted,
            ExecutionUpdate::Paused { .. } => EventKind::Paused,
            ExecutionUpdate::Completed { .. } => EventKind::Completed,
            ExecutionUpdate::Failed { .. } => EventKind::Failed,
            ExecutionUpdate::Cancelled { .. } => EventKind::Cancelled,
        }
    }

    /// The run that the event belongs to.
    pub open spec fn run(self) -> ExecutionHandle {
        match self {
            ExecutionUpdate::Started { handle, .. } => handle,
            ExecutionUpdate::StepStarted { handle, .. } => handle,
            ExecutionUpdate::StepProgress { handle, .. } => handle,
            ExecutionUpdate::StepCompleted { handle, .. } => handle,
            ExecutionUpdate::Paused { handle, .. } => handle,
            ExecutionUpdate::Completed { handle, .. } => handle,
            ExecutionUpdate::Failed { handle, .. } => handle,
            ExecutionUpdate::Cancelled { handle } => handle,
        }
    }

    /// The kind of the event.
    pub fn event_kind(&self) -> (k: EventKind)
        ensures
            k == self.kind(),
    {
        match self {
            ExecutionUpdate::Started { .. } => EventKind::Started,
            ExecutionUpdate::StepStarted { .. } => EventKind::StepStarted,
            ExecutionUpdate::StepProgress { .. } => EventKind::StepProgress,
            ExecutionUpdate::StepCompleted { .. } => EventKind::StepCompleted,
            ExecutionUpdate::Paused { .. } => EventKind::Paused,
            ExecutionUpdate::Completed { .. } => EventKind::Completed,
            ExecutionUpdate::Failed { .. } => EventKind::Failed,
            ExecutionUpdate::Cancelled { .. } => EventKind::Cancelled,
        }
    }
}

/// The advice for a command that failed, from its kind and from what it
/// wrote to its error output.
pub open spec fn recovery_suggestions(cmd: RapsCommandView, stderr: Seq<char>) -> Seq<Seq<char>> {
    (match cmd {
        RapsCommandView::Auth { .. } => seq![
            "Check your APS credentials and try 'raps auth login'"@,
            "Verify your client ID and client secret are correct"@,
        ],
        RapsCommandView::Bucket { .. } => if is_substring(stderr, "already exists"@) {
            seq!["Bucket name already exists, try a different name"@]
        } else if is_substring(stderr, "permission"@) {
            seq!["Check that you have OSS permissions in your APS app"@]
        } else {
            Seq::empty()
        },
        RapsCommandView::Object { .. } => if is_substring(stderr, "not found"@) {
            seq!["Verify the bucket exists and the object key is correct"@]
        } else if is_substring(stderr, "file"@) {
            seq!["Check that the file path exists and is readable"@]
        } else {
            Seq::empty()
        },
        RapsCommandView::Translate { .. } => if is_substring(stderr, "urn"@) {
            seq!["Verify the URN is valid and the file was uploaded successfully"@]
        } else if is_substring(stderr, "format"@) {
            seq!["Check that the requested output format is supported"@]
        } else {
            Seq::empty()
        },
        _ => seq![
            "Check the RAPS CLI documentation for this command"@,
            "Verify your APS permissions and authentication"@,
        ],
    }) + (if is_substring(stderr, "network"@) || is_substring(stderr, "timeout"@) {
        seq!["Check your internet connection and try again"@]
    } else {
        Seq::empty()
    })
}

/// The advice for a command that failed.
pub fn generate_recovery_suggestions(command: &RapsCommand, result: &CommandResult) -> (r: Vec<
    String,
>)
    ensures
        texts(r@) == recovery_suggestions(command@, result.stderr@),
{
    let mut r: Vec<String> = Vec::new();
    let stderr = result.stderr.as_str();
    match command {
        RapsCommand::Auth { .. } => {
            r.push(owned("Check your APS credentials and try 'raps auth login'"));
            r.push(owned("Verify your client ID and client secret are correct"));
        },
        RapsCommand::Bucket { .. } => {
            if contains(stderr, "already exists") {
                r.push(owned("Bucket name already exists, try a different name"));
            } else if contains(stderr, "permission") {
                r.push(owned("Check that you have OSS permissions in your APS app"));
            }
        },
        RapsCommand::Object { .. } => {
            if contains(stderr, "not found") {
                r.push(owned("Verify the bucket exists and the object key is correct"));
            } else if contains(stderr, "file") {
                r.push(owned("Check that the file path exists and is readable"));
            }
        },
        RapsCommand::Translate { .. } => {
            if contains(stderr, "urn") {
                r.push(owned("Verify the URN is valid and the file was uploaded successfully"));
            } else if contains(stderr, "format") {
                r.push(owned("Check that the requested output format is supported"));
            }
        },
        _ => {
            r.push(owned("Check the RAPS CLI documentation for this command"));
            r.push(owned("Verify your APS permissions and authentication"));
        },
    }
    let ghost head = texts(r@);
    if contains(stderr, "network") || contains(stderr, "timeout") {
        r.push(owned("Check your internet connection and try again"));
    }
    proof {
        assert(texts(r@) =~= head + (if is_substring(result.stderr@, "network"@) || is_substring(
            result.stderr@,
            "timeout"@,
        ) {
            seq!["Check your internet connection and try again"@]
        } else {
            Seq::empty()
        }));
        assert(texts(r@) =~= recovery_suggestions(command@, result.stderr@));
    }
    r
}

/// The text under which a member of the output is kept: its string, else
/// its number, else its integer in decimal, else `true` or `false`;
/// nothing for any other value.
pub open spec fn member_value(m: JsonMemberView) -> Option<Seq<char>> {
    if m.text is Some {
        m.text
    } else if m.number is Some {
        m.number
    } else if m.integer is Some {
        Some(signed_decimal(m.integer->0 as int))
    } else if m.flag is Some {
        Some(
            if m.flag->0 {
                "true"@
            } else {
                "false"@
            },
        )
    } else {
        None
    }
}

/// The placeholders after the first `n` members were taken in: each member
/// with a value is kept under its key and under the step's identifier, a
/// dot and its key. A later member overwrites an earlier name.
pub open spec fn captured(
    placeholders: Map<Seq<char>, Seq<char>>,
    step_id: Seq<char>,
    members: Seq<JsonMemberView>,
    n: int,
) -> Map<Seq<char>, Seq<char>>
    decreases n,
{
    if n <= 0 {
        placeholders
    } else {
        let prior = captured(placeholders, step_id, members, n - 1);
        let member = members[n - 1];
        match member_value(member) {
            Some(v) => prior.insert(member.key, v).insert(step_id + "."@ + member.key, v),
            None => prior,
        }
    }
}

/// The placeholders after the output of a step was taken in. Only an
/// object gives anything.
pub open spec fn captured_output(
    placeholders: Map<Seq<char>, Seq<char>>,
    step_id: Seq<char>,
    output: Option<JsonOutputView>,
) -> Map<Seq<char>, Seq<char>> {
    match output {
        Some(JsonOutputView::Object(members)) => captured(
            placeholders,
            step_id,
            members,
            members.len() as int,
        ),
        _ => placeholders,
    }
}

proof fn lemma_value_texts_insert(m: Map<Seq<char>, String>, k: Seq<char>, v: String)
    ensures
        value_texts(m.insert(k, v)) == value_texts(m).insert(k, v@),
{
    assert(value_texts(m.insert(k, v)) =~= value_texts(m).insert(k, v@));
}

fn member_text(member: &JsonMember) -> (r: Option<String>)
    ensures
        crate::text::opt_text(r) == member_value(member@),
{
    match &member.text {
        Some(s) => Some(s.clone()),
        None => match &member.number {
            Some(n) => Some(n.clone()),
            None => match member.integer {
                Some(i) => Some(signed_decimal_string(i)),
                None => match member.flag {
                    Some(b) => Some(
                        owned(
                            if b {
                                "true"
                            } else {
                                "false"
                            },
                        ),
                    ),
                    None => None,
                },
            },
        },
    }
}

/// Takes the output of a step into the placeholders of the run.
pub fn capture_json_outputs(json: &JsonOutput, step_id: &str, placeholders: &mut TextMap<String>)
    ensures
        value_texts(final(placeholders)@) == captured_output(
            value_texts(old(placeholders)@),
            step_id@,
            Some(json@),
        ),
{
    match json {
        JsonOutput::Object(members) => {
            let ghost start = value_texts(placeholders@);
            let ghost mv = member_views(members@);
            let mut i: usize = 0;
            while i < members.len()
                invariant
                    i <= members.len(),
                    mv == member_views(members@),
                    value_texts(placeholders@) == captured(start, step_id@, mv, i as int),
                decreases members.len() - i,
            {
                let member = &members[i];
                assert(mv[i as int] == member@);
                match member_text(member) {
                    Some(value) => {
                        let mut scoped = concat2(step_id, ".");
                        scoped.append(member.key.as_str());
                        let again = value.clone();
                        proof {
                            lemma_value_texts_insert(placeholders@, member.key@, value);
                            lemma_value_texts_insert(
                                placeholders@.insert(member.key@, value),
                                scoped@,
                                again,
                            );
                        }
                        placeholders.insert(member.key.clone(), value);
                        placeholders.insert(scoped, again);
                    },
                    None => {},
                }
                i = i + 1;
            }
        },
        JsonOutput::Other => {},
    }
}

/// A step with the placeholders replaced in its command and in its
/// cleanup commands.
pub open spec fn step_substituted(step: ExecutionStepView, m: Map<Seq<char>, Seq<char>>)
    -> ExecutionStepView {
    ExecutionStepView {
        id: step.id,
        name: step.name,
        description: step.description,
        command: command_substituted(step.command, m),
        expected_duration: step.expected_duration,
        cleanup_commands: step.cleanup_commands.map_values(
            |c: RapsCommandView| command_substituted(c, m),
        ),
    }
}

/// The step as it is run: with the placeholders of the run replaced.
pub fn resolve_step(step: &ExecutionStep, placeholders: &TextMap<String>) -> (r: ExecutionStep)
    ensures
        r@ == step_substituted(step@, value_texts(placeholders@)),
{
    ExecutionStep {
        id: step.id.clone(),
        name: step.name.clone(),
        description: step.description.clone(),
        command: substitute_command(&step.command, placeholders),
        expected_duration: step.expected_duration,
        cleanup_commands: substitute_commands(&step.cleanup_commands, placeholders),
    }
}

/// The time from `from` to `to` in seconds: nothing where `to` is the
/// earlier, and no more than a 64-bit number with sign can hold.
pub open spec fn elapsed(from: Timestamp, to: Timestamp) -> Seconds {
    if to - from <= 0 {
        0
    } else if to - from > i64::MAX {
        i64::MAX
    } else {
        (to - from) as i64
    }
}

/// The time from `from` to `to` in seconds.
pub fn seconds_between(from: Timestamp, to: Timestamp) -> (r: Seconds)
    ensures
        r == elapsed(from, to),
{
    let d: i128 = (to as i128) - (from as i128);
    if d <= 0 {
        0
    } else if d > i64::MAX as i128 {
        i64::MAX
    } else {
        d as i64
    }
}

/// The wall time of a step: nothing where it has not ended.
pub open spec fn step_seconds(r: StepResult) -> int {
    match r.end_time {
        Some(end) => elapsed(r.start_time, end) as int,
        None => 0,
    }
}

/// The wall time of the first `n` steps together.
pub open spec fn total_seconds(results: Seq<StepResult>, n: int) -> int
    decreases n,
{
    if n <= 0 {
        0
    } else {
        total_seconds(results, n - 1) + step_seconds(results[n - 1])
    }
}

/// The time that a run is expected to go on: the mean wall time of the
/// completed steps times the number of steps that are left. It is not
/// defined before a step has completed.
pub open spec fn remaining_estimate(results: Seq<StepResult>, total_steps: int) -> Option<int> {
    if results.len() == 0 {
        None
    } else {
        let mean = total_seconds(results, results.len() as int) / (results.len() as int);
        let left = if total_steps > results.len() {
            total_steps - results.len()
        } else {
            0
        };
        Some(mean * left)
    }
}

/// Completed steps per hundred steps, rounded down; a hundred where there
/// is no step.
pub open spec fn percent_done(completed: int, total: int) -> int {
    if total <= 0 || completed >= total {
        100
    } else {
        completed * 100 / total
    }
}

proof fn lemma_total_seconds_bounds(results: Seq<StepResult>, n: int)
    requires
        0 <= n <= results.len(),
    ensures
        0 <= total_seconds(results, n) <= n * i64::MAX,
    decreases n,
{
    if n > 0 {
        lemma_total_seconds_bounds(results, n - 1);
        assert(n * i64::MAX == (n - 1) * i64::MAX + i64::MAX) by (nonlinear_arith);
    }
}

/// Every result has the status `Completed`.
pub open spec fn all_completed(results: Seq<StepResult>) -> bool {
    forall|i: int| 0 <= i < results.len() ==> (#[trigger] results[i]).status
        == ExecutionStatus::Completed
}

/// One run: the workflow, how far it has come and what it has gathered.
#[derive(Debug, Clone)]
pub struct ExecutionState {
    pub handle: ExecutionHandle,
    pub workflow: WorkflowDefinition,
    pub context: ExecutionContext,
    /// The place of the step that runs next.
    pub current_step_index: usize,
    /// The results of the steps that have ended, in their order.
    pub completed_steps: Vec<StepResult>,
    pub created_resources: Vec<ResourceId>,
    pub start_time: Timestamp,
    pub status: ExecutionStatus,
    /// The values that `{name}` stands for in the commands of the run.
    pub placeholders: TextMap<String>,
    /// A step was handed out and its result has not come back.
    pub step_in_flight: bool,
    /// A step has completed since the run was started or resumed.
    pub stepped: bool,
}

/// What decides the course of a run, without the data that it carries.
pub struct RunModel {
    pub status: ExecutionStatus,
    pub next: nat,
    pub total: nat,
    pub interactive: bool,
    pub in_flight: bool,
    pub stepped: bool,
}

/// What the host tells a run.
pub enum RunInput {
    /// The host asks what to do next; `expired` says whether the deadline
    /// of the run has passed.
    Next { expired: bool },
    /// The command of the step in flight has ended.
    StepEnded { success: bool },
    Cancel,
    Resume,
}

/// The run goes on: it has neither paused nor ended.
pub open spec fn is_live(status: ExecutionStatus) -> bool {
    status == ExecutionStatus::Running || status == ExecutionStatus::Pending
}

/// The course of a run: the state after an input, and the kinds of the
/// events that the input makes the run publish.
pub open spec fn model_step(m: RunModel, input: RunInput) -> (RunModel, Seq<EventKind>) {
    match input {
        RunInput::Next { expired } => {
            if !is_live(m.status) || m.in_flight {
                (m, Seq::empty())
            } else if expired {
                (RunModel { status: ExecutionStatus::Failed, ..m }, seq![EventKind::Failed])
            } else if m.next >= m.total {
                (RunModel { status: ExecutionStatus::Completed, ..m }, seq![EventKind::Completed])
            } else if m.interactive && m.stepped {
                (
                    RunModel { status: ExecutionStatus::Paused, stepped: false, ..m },
                    seq![EventKind::Paused],
                )
            } else {
                (
                    RunModel { status: ExecutionStatus::Running, in_flight: true, ..m },
                    seq![EventKind::StepStarted],
                )
            }
        },
        RunInput::StepEnded { success } => {
            if !m.in_flight {
                (m, Seq::empty())
            } else if !is_live(m.status) {
                (RunModel { in_flight: false, ..m }, Seq::empty())
            } else if success {
                (
                    RunModel {
                        status: ExecutionStatus::Running,
                        next: m.next + 1,
                        in_flight: false,
                        stepped: true,
                        ..m
                    },
                    seq![EventKind::StepCompleted],
                )
            } else {
                (
                    RunModel { status: ExecutionStatus::Failed, in_flight: false, ..m },
                    seq![EventKind::Failed],
                )
            }
        },
        RunInput::Cancel => (
            RunModel { status: ExecutionStatus::Cancelled, ..m },
            seq![EventKind::Cancelled],
        ),
        RunInput::Resume => {
            if m.status == ExecutionStatus::Paused {
                (RunModel { status: ExecutionStatus::Running, stepped: false, ..m }, Seq::empty())
            } else {
                (m, Seq::empty())
            }
        },
    }
}

/// The state after a sequence of inputs.
pub open spec fn model_after(m: RunModel, inputs: Seq<RunInput>) -> RunModel
    decreases inputs.len(),
{
    if inputs.len() == 0 {
        m
    } else {
        model_step(model_after(m, inputs.drop_last()), inputs.last()).0
    }
}

/// The kinds of the events that a sequence of inputs makes a run publish.
pub open spec fn model_trace(m: RunModel, inputs: Seq<RunInput>) -> Seq<EventKind>
    decreases inputs.len(),
{
    if inputs.len() == 0 {
        Seq::empty()
    } else {
        model_trace(m, inputs.drop_last()) + model_step(
            model_after(m, inputs.drop_last()),
            inputs.last(),
        ).1
    }
}

/// How far a sequence of events has come in the pattern
/// `Started (StepStarted StepProgress* StepCompleted)* (Paused | Completed |
/// Failed | Cancelled)`.
#[derive(PartialEq, Eq, Structural, Clone, Copy, Debug)]
pub enum TracePhase {
    /// Nothing was published.
    Fresh,
    /// `Started` or a `StepCompleted` came last.
    BetweenSteps,
    /// `StepStarted` or a `StepProgress` came last.
    InStep,
    /// One of the four last events came, and nothing behind it.
    Ended,
    /// The sequence does not follow the pattern.
    Astray,
}

/// The phase after one more event.
pub open spec fn phase_step(phase: TracePhase, event: EventKind) -> TracePhase {
    match (phase, event) {
        (TracePhase::Fresh, EventKind::Started) => TracePhase::BetweenSteps,
        (TracePhase::BetweenSteps, EventKind::StepStarted) => TracePhase::InStep,
        (TracePhase::BetweenSteps, EventKind::Paused) => TracePhase::Ended,
        (TracePhase::BetweenSteps, EventKind::Completed) => TracePhase::Ended,
        (TracePhase::BetweenSteps, EventKind::Failed) => TracePhase::Ended,
        (TracePhase::BetweenSteps, EventKind::Cancelled) => TracePhase::Ended,
        (TracePhase::InStep, EventKind::StepProgress) => TracePhase::InStep,
        (TracePhase::InStep, EventKind::StepCompleted) => TracePhase::BetweenSteps,
        _ => TracePhase::Astray,
    }
}

/// The phase after a sequence of events.
pub open spec fn phase_after(events: Seq<EventKind>) -> TracePhase
    decreases events.len(),
{
    if events.len() == 0 {
        TracePhase::Fresh
    } else {
        phase_step(phase_after(events.drop_last()), events.last())
    }
}

/// The sequence of events follows the whole pattern.
pub open spec fn matches_pattern(events: Seq<EventKind>) -> bool {
    phase_after(events) == TracePhase::Ended
}

/// The inputs leave the run undisturbed: each comes while the run is
/// live, no step fails, and the run is not cancelled while a step is in
/// flight.
pub open spec fn undisturbed(m: RunModel, inputs: Seq<RunInput>) -> bool
    decreases inputs.len(),
{
    if inputs.len() == 0 {
        true
    } else {
        let before = model_after(m, inputs.drop_last());
        &&& undisturbed(m, inputs.drop_last())
        &&& is_live(before.status)
        &&& match inputs.last() {
            RunInput::StepEnded { success } => success || !before.in_flight,
            RunInput::Cancel => !before.in_flight,
            _ => true,
        }
    }
}

/// A run as it is after it was started.
pub open spec fn is_started(m: RunModel) -> bool {
    m.status == ExecutionStatus::Running && !m.in_flight
}

proof fn lemma_phase_push(events: Seq<EventKind>, more: Seq<EventKind>)
    requires
        more.len() <= 1,
    ensures
        phase_after(events + more) == if more.len() == 0 {
            phase_after(events)
        } else {
            phase_step(phase_after(events), more[0])
        },
{
    if more.len() == 0 {
        assert(events + more =~= events);
    } else {
        assert((events + more).drop_last() =~= events);
        assert((events + more).last() == more[0]);
    }
}

/// The events of an undisturbed run, from `Started` on, follow the
/// pattern `Started (StepStarted StepProgress* StepCompleted)* (Paused |
/// Completed | Failed | Cancelled)`: as far as the run has come while it
/// is live, and as a whole once it has paused or ended.
pub proof fn lemma_undisturbed_run_follows_pattern(m: RunModel, inputs: Seq<RunInput>)
    requires
        is_started(m),
        undisturbed(m, inputs),
    ensures
        ({
            let after = model_after(m, inputs);
            let events = seq![EventKind::Started] + model_trace(m, inputs);
            &&& is_live(after.status) && !after.in_flight ==> phase_after(events)
                == TracePhase::BetweenSteps
            &&& is_live(after.status) && after.in_flight ==> phase_after(events)
                == TracePhase::InStep
            &&& !is_live(after.status) ==> matches_pattern(events)
        }),
    decreases inputs.len(),
{
    let start = seq![EventKind::Started];
    if inputs.len() == 0 {
        assert(start + model_trace(m, inputs) =~= start);
        assert(start.drop_last() =~= Seq::<EventKind>::empty());
        assert(phase_after(start) == phase_step(phase_after(start.drop_last()), start.last()));
    } else {
        let earlier = inputs.drop_last();
        lemma_undisturbed_run_follows_pattern(m, earlier);
        let before = model_after(m, earlier);
        let (after, more) = model_step(before, inputs.last());
        let events = start + model_trace(m, earlier);
        assert(start + model_trace(m, inputs) =~= events + more);
        lemma_phase_push(events, more);
    }
}

impl ExecutionState {
    /// What decides the course of the run.
    pub open spec fn model(&self) -> RunModel {
        RunModel {
            status: self.status,
            next: self.current_step_index as nat,
            total: self.workflow.steps@.len(),
            interactive: self.context.options.interactive,
            in_flight: self.step_in_flight,
            stepped: self.stepped,
        }
    }

    /// The deadline of the run has passed at `now`: more time than the
    /// options allow has gone by since the start.
    pub open spec fn expired_at(&self, now: Timestamp) -> bool {
        now - self.start_time > self.context.options.timeout
    }

    /// A run at its start: running, before its first step, with the
    /// placeholders `uuid` and `timestamp`.
    pub fn start(
        handle: ExecutionHandle,
        workflow: WorkflowDefinition,
        options: ExecutionOptions,
        temp_dir: String,
        uuid: String,
        now: Timestamp,
    ) -> (r: (Self, ExecutionUpdate))
        ensures
            r.0.handle == handle,
            r.0.workflow == workflow,
            r.0.context.options == options,
            r.0.context.workflow_id@ == workflow.metadata.id@,
            r.0.context.temp_dir == temp_dir,
            r.0.context.start_time == now,
            r.0.context.environment@ == Map::<Seq<char>, String>::empty(),
            r.0.current_step_index == 0,
            r.0.completed_steps@.len() == 0,
            r.0.created_resources@.len() == 0,
            r.0.start_time == now,
            r.0.status == ExecutionStatus::Running,
            !r.0.step_in_flight,
            !r.0.stepped,
            is_started(r.0.model()),
            value_texts(r.0.placeholders@) == Map::<Seq<char>, Seq<char>>::empty().insert(
                "uuid"@,
                uuid@,
            ).insert("timestamp"@, signed_decimal(now as int)),
            r.1 matches ExecutionUpdate::Started { handle: h, workflow_id: w } && h == handle
                && w@ == workflow.metadata.id@,
    {
        let mut placeholders: TextMap<String> = TextMap::new();
        let stamp = signed_decimal_string(now);
        proof {
            assert(value_texts(placeholders@) =~= Map::<Seq<char>, Seq<char>>::empty());
            lemma_value_texts_insert(placeholders@, "uuid"@, uuid);
            lemma_value_texts_insert(placeholders@.insert("uuid"@, uuid), "timestamp"@, stamp);
        }
        placeholders.insert(owned("uuid"), uuid);
        placeholders.insert(owned("timestamp"), stamp);
        let context = ExecutionContext {
            workflow_id: workflow.metadata.id.clone(),
            options,
            environment: TextMap::new(),
            temp_dir,
            start_time: now,
        };
        let update = ExecutionUpdate::Started {
            handle: handle.clone(),
            workflow_id: workflow.metadata.id.clone(),
        };
        let state = ExecutionState {
            handle,
            workflow,
            context,
            current_step_index: 0,
            completed_steps: Vec::new(),
            created_resources: Vec::new(),
            start_time: now,
            status: ExecutionStatus::Running,
            placeholders,
            step_in_flight: false,
            stepped: false,
        };
        (state, update)
    }

    /// Whether the deadline of the run has passed at `now`.
    pub fn is_expired(&self, now: Timestamp) -> (b: bool)
        ensures
            b == self.expired_at(now),
    {
        (now as i128) - (self.start_time as i128) > self.context.options.timeout as i128
    }

    fn all_steps_completed(&self) -> (b: bool)
        ensures
            b == all_completed(self.completed_steps@),
    {
        let mut i: usize = 0;
        while i < self.completed_steps.len()
            invariant
                i <= self.completed_steps@.len(),
                forall|j: int| 0 <= j < i ==> (#[trigger] self.completed_steps@[j]).status
                    == ExecutionStatus::Completed,
            decreases self.completed_steps@.len() - i,
        {
            if self.completed_steps[i].status != ExecutionStatus::Completed {
                return false;
            }
            i = i + 1;
        }
        true
    }

    /// What the run has come to, as of `now`.
    pub fn result_at(&self, now: Timestamp) -> (r: ExecutionResult)
        ensures
            r.workflow_id@ == self.workflow.metadata.id@,
            r.success == all_completed(self.completed_steps@),
            r.duration == elapsed(self.start_time, now),
            r.steps_completed == self.completed_steps@.len(),
            r.total_steps == self.workflow.steps@.len(),
            r.resources_created@ == self.created_resources@,
            !r.cleanup_performed,
            result_views(r.step_results@) == result_views(self.completed_steps@),
    {
        let resources_created = self.created_resources.clone();
        assert(resources_created@ =~= self.created_resources@);
        ExecutionResult {
            workflow_id: self.workflow.metadata.id.clone(),
            success: self.all_steps_completed(),
            duration: seconds_between(self.start_time, now),
            steps_completed: self.completed_steps.len(),
            total_steps: self.workflow.steps.len(),
            resources_created,
            cleanup_performed: false,
            step_results: copy_results(&self.completed_steps),
        }
    }
}

/// What the host has to do next for a run.
#[derive(Debug, Clone)]
pub enum RunAction {
    /// Nothing: the run has paused or ended, or waits for a result.
    Stop,
    /// Publish the event; the run has paused or ended with it.
    Publish(ExecutionUpdate),
    /// Publish the event, run the command of the step, and hand the
    /// result back.
    Execute { step: ExecutionStep, update: ExecutionUpdate },
}

impl RunAction {
    /// The kinds of the events that the action publishes.
    pub open spec fn kinds(self) -> Seq<EventKind> {
        match self {
            RunAction::Stop => Seq::empty(),
            RunAction::Publish(update) => seq![update.kind()],
            RunAction::Execute { step, update } => seq![update.kind()],
        }
    }
}

/// The kinds of an event that may be absent.
pub open spec fn opt_kinds(update: Option<ExecutionUpdate>) -> Seq<EventKind> {
    match update {
        Some(u) => seq![u.kind()],
        None => Seq::empty(),
    }
}

/// Nothing but the course of the run has changed: the data it carries is
/// what it was.
pub open spec fn same_data(before: ExecutionState, after: ExecutionState) -> bool {
    &&& after.handle == before.handle
    &&& after.workflow == before.workflow
    &&& after.context == before.context
    &&& after.completed_steps == before.completed_steps
    &&& after.created_resources == before.created_resources
    &&& after.start_time == before.start_time
    &&& after.placeholders == before.placeholders
}

/// What `next_action` does to a run and what it hands back.
pub open spec fn next_action_post(
    before: ExecutionState,
    after: ExecutionState,
    action: RunAction,
    now: Timestamp,
) -> bool {
    let input = RunInput::Next { expired: before.expired_at(now) };
    &&& after.model() == model_step(before.model(), input).0
    &&& action.kinds() == model_step(before.model(), input).1
    &&& same_data(before, after)
    &&& match action {
        RunAction::Stop => true,
        RunAction::Publish(update) => update.run() == before.handle && match update {
            ExecutionUpdate::Failed { handle, error } => {
                &&& error.message@ == "Workflow timed out"@
                &&& error.failed_step is None
                &&& error.command_result is None
                &&& error.recovery_suggestions@.len() == 0
                &&& !error.is_recoverable
            },
            ExecutionUpdate::Completed { handle, result } => {
                &&& result.workflow_id@ == before.workflow.metadata.id@
                &&& result.success == all_completed(before.completed_steps@)
                &&& result.duration == elapsed(before.start_time, now)
                &&& result.steps_completed == before.completed_steps@.len()
                &&& result.total_steps == before.workflow.steps@.len()
                &&& result.resources_created@ == before.created_resources@
                &&& !result.cleanup_performed
                &&& result_views(result.step_results@) == result_views(before.completed_steps@)
            },
            ExecutionUpdate::Paused { handle, next_step } => {
                &&& before.current_step_index < before.workflow.steps@.len()
                &&& next_step@ == before.workflow.steps@[before.current_step_index as int]@
            },
            _ => false,
        },
        RunAction::Execute { step, update } => {
            &&& before.current_step_index < before.workflow.steps@.len()
            &&& step@ == step_substituted(
                before.workflow.steps@[before.current_step_index as int]@,
                value_texts(before.placeholders@),
            )
            &&& update matches ExecutionUpdate::StepStarted { handle, step: shown } && handle
                == before.handle && shown@ == step@
        },
    }
}

/// What `record_step_result` does to a run and what it hands back.
pub open spec fn record_post(
    before: ExecutionState,
    after: ExecutionState,
    update: Option<ExecutionUpdate>,
    step: ExecutionStep,
    result: CommandResult,
    start_time: Timestamp,
    end_time: Timestamp,
) -> bool {
    let input = RunInput::StepEnded { success: result.success };
    let recorded = StepResultView {
        step_id: step.id@,
        status: if result.success {
            ExecutionStatus::Completed
        } else {
            ExecutionStatus::Failed
        },
        start_time,
        end_time: Some(end_time),
        stdout: result.stdout@,
        stderr: result.stderr@,
        exit_code: Some(result.exit_code),
        created_resources: Seq::empty(),
    };
    &&& after.model() == model_step(before.model(), input).0
    &&& opt_kinds(update) == model_step(before.model(), input).1
    &&& after.handle == before.handle
    &&& after.workflow == before.workflow
    &&& after.context == before.context
    &&& after.created_resources == before.created_resources
    &&& after.start_time == before.start_time
    &&& if before.step_in_flight && is_live(before.status) {
        &&& result_views(after.completed_steps@) == result_views(before.completed_steps@).push(
            recorded,
        )
        &&& value_texts(after.placeholders@) == if result.success {
            captured_output(
                value_texts(before.placeholders@),
                step.id@,
                crate::workflow::client::opt_output(result.json_output),
            )
        } else {
            value_texts(before.placeholders@)
        }
        &&& update is Some
        &&& update->0.run() == before.handle
        &&& match update->0 {
            ExecutionUpdate::StepCompleted { handle, result: shown } => shown@ == recorded,
            ExecutionUpdate::Failed { handle, error } => {
                &&& error.message@ == failure_text(result.exit_code, result.stdout@, result.stderr@)
                &&& error.failed_step is Some
                &&& error.failed_step->0@ == step.id@
                &&& error.command_result == Some(result)
                &&& texts(error.recovery_suggestions@) == recovery_suggestions(
                    step.command@,
                    result.stderr@,
                )
                &&& error.is_recoverable
            },
            _ => false,
        }
    } else {
        &&& after.completed_steps == before.completed_steps
        &&& after.placeholders == before.placeholders
        &&& update is None
    }
}

impl ExecutionState {
    /// Decides what the host does next. A run that has paused or ended, or
    /// that waits for a result, is left as it is. Else the run fails where
    /// its deadline has passed; it completes where no step is left; it
    /// pauses where it is interactive and a step has completed since it
    /// was started or resumed; and else it hands out the next step, with
    /// the placeholders replaced.
    pub fn next_action(&mut self, now: Timestamp) -> (action: RunAction)
        ensures
            next_action_post(*old(self), *final(self), action, now),
    {
        let live = self.status == ExecutionStatus::Running || self.status
            == ExecutionStatus::Pending;
        if !live || self.step_in_flight {
            return RunAction::Stop;
        }
        if self.is_expired(now) {
            self.status = ExecutionStatus::Failed;
            let error = ExecutionError::new(owned("Workflow timed out"));
            return RunAction::Publish(
                ExecutionUpdate::Failed { handle: self.handle.clone(), error },
            );
        }
        if self.current_step_index >= self.workflow.steps.len() {
            let result = self.result_at(now);
            self.status = ExecutionStatus::Completed;
            return RunAction::Publish(
                ExecutionUpdate::Completed { handle: self.handle.clone(), result },
            );
        }
        if self.context.options.interactive && self.stepped {
            let next_step = self.workflow.steps[self.current_step_index].clone();
            self.status = ExecutionStatus::Paused;
            self.stepped = false;
            return RunAction::Publish(
                ExecutionUpdate::Paused { handle: self.handle.clone(), next_step },
            );
        }
        let step = resolve_step(&self.workflow.steps[self.current_step_index], &self.placeholders);
        let shown = step.clone();
        self.status = ExecutionStatus::Running;
        self.step_in_flight = true;
        RunAction::Execute {
            step,
            update: ExecutionUpdate::StepStarted { handle: self.handle.clone(), step: shown },
        }
    }

    /// Takes in what the command of the step in flight gave back. Where no
    /// step is in flight nothing happens; where the run has been cancelled
    /// or has otherwise stopped meanwhile, the result is dropped. A success
    /// is recorded, its output goes into the placeholders, and the run moves
    /// on to the next step. A failure is recorded and fails the run.
    pub fn record_step_result(
        &mut self,
        step: &ExecutionStep,
        result: CommandResult,
        start_time: Timestamp,
        end_time: Timestamp,
    ) -> (update: Option<ExecutionUpdate>)
        requires
            old(self).current_step_index < usize::MAX,
        ensures
            record_post(*old(self), *final(self), update, *step, result, start_time, end_time),
    {
        if !self.step_in_flight {
            return None;
        }
        let live = self.status == ExecutionStatus::Running || self.status
            == ExecutionStatus::Pending;
        self.step_in_flight = false;
        if !live {
            return None;
        }
        let ghost before = result_views(self.completed_steps@);
        let recorded = StepResult {
            step_id: step.id.clone(),
            status: if result.success {
                ExecutionStatus::Completed
            } else {
                ExecutionStatus::Failed
            },
            start_time,
            end_time: Some(end_time),
            stdout: result.stdout.clone(),
            stderr: result.stderr.clone(),
            exit_code: Some(result.exit_code),
            created_resources: Vec::new(),
        };
        let shown = recorded.clone();
        self.completed_steps.push(recorded);
        assert(result_views(self.completed_steps@) =~= before.push(recorded@));
        if result.success {
            match &result.json_output {
                Some(json) => {
                    capture_json_outputs(json, step.id.as_str(), &mut self.placeholders);
                },
                None => {},
            }
            self.current_step_index = self.current_step_index + 1;
            self.status = ExecutionStatus::Running;
            self.stepped = true;
            Some(ExecutionUpdate::StepCompleted { handle: self.handle.clone(), result: shown })
        } else {
            let suggestions = generate_recovery_suggestions(&step.command, &result);
            let error = ExecutionError::from_command_failure(step.id.clone(), result, suggestions);
            self.status = ExecutionStatus::Failed;
            Some(ExecutionUpdate::Failed { handle: self.handle.clone(), error })
        }
    }

    /// Cancels the run, whatever its state. A step that is in flight is
    /// left to end; its result will be dropped.
    pub fn cancel(&mut self) -> (update: ExecutionUpdate)
        ensures
            final(self).model() == model_step(old(self).model(), RunInput::Cancel).0,
            seq![update.kind()] == model_step(old(self).model(), RunInput::Cancel).1,
            same_data(*old(self), *final(self)),
            update matches ExecutionUpdate::Cancelled { handle } && handle == old(self).handle,
    {
        self.status = ExecutionStatus::Cancelled;
        ExecutionUpdate::Cancelled { handle: self.handle.clone() }
    }

    /// Lets a paused run go on. It hands back whether the run was paused,
    /// that is, whether the host has to ask for the next action again.
    pub fn resume(&mut self) -> (resumed: bool)
        ensures
            final(self).model() == model_step(old(self).model(), RunInput::Resume).0,
            same_data(*old(self), *final(self)),
            resumed == (old(self).status == ExecutionStatus::Paused),
    {
        if self.status == ExecutionStatus::Paused {
            self.status = ExecutionStatus::Running;
            self.stepped = false;
            true
        } else {
            false
        }
    }

    /// The sum of the wall times of the completed steps, as far as a
    /// 128-bit number holds it (it always does).
    fn completed_seconds(&self) -> (total: u128)
        ensures
            total == total_seconds(self.completed_steps@, self.completed_steps@.len() as int),
    {
        let mut total: u128 = 0;
        let mut i: usize = 0;
        while i < self.completed_steps.len()
            invariant
                i <= self.completed_steps@.len(),
                total == total_seconds(self.completed_steps@, i as int),
            decreases self.completed_steps@.len() - i,
        {
            proof {
                lemma_total_seconds_bounds(self.completed_steps@, i as int);
                assert(i * i64::MAX <= usize::MAX * i64::MAX) by (nonlinear_arith)
                    requires
                        i <= usize::MAX,
                ;
            }
            let r = &self.completed_steps[i];
            let d: i64 = match r.end_time {
                Some(end) => seconds_between(r.start_time, end),
                None => 0,
            };
            total = total + d as u128;
            i = i + 1;
        }
        total
    }

    /// The time that the run is expected to go on, in seconds, as far as
    /// a 64-bit number with sign holds it.
    pub fn estimate_remaining_time(&self) -> (r: Option<Seconds>)
        ensures
            match remaining_estimate(
                self.completed_steps@,
                self.workflow.steps@.len() as int,
            ) {
                None => r is None,
                Some(t) => r is Some && r->0 == if t > i64::MAX {
                    i64::MAX as int
                } else {
                    t
                },
            },
    {
        let done = self.completed_steps.len();
        if done == 0 {
            return None;
        }
        let total = self.completed_seconds();
        let mean: u128 = total / (done as u128);
        let left: usize = if self.workflow.steps.len() > done {
            self.workflow.steps.len() - done
        } else {
            0
        };
        proof {
            lemma_total_seconds_bounds(self.completed_steps@, done as int);
            assert(mean <= i64::MAX) by (nonlinear_arith)
                requires
                    mean == (total as int) / (done as int),
                    done > 0,
                    0 <= total <= done * i64::MAX,
            ;
            assert(mean * left <= i64::MAX * usize::MAX) by (nonlinear_arith)
                requires
                    mean <= i64::MAX,
                    left <= usize::MAX,
            ;
        }
        let estimate: u128 = mean * (left as u128);
        if estimate > i64::MAX as u128 {
            Some(i64::MAX)
        } else {
            Some(estimate as i64)
        }
    }

    /// A snapshot of the run for display.
    pub fn progress(&self) -> (p: ExecutionProgress)
        ensures
            p.workflow_id@ == self.workflow.metadata.id@,
            p.status == self.status,
            self.current_step_index < self.workflow.steps@.len() ==> p.current_step is Some
                && p.current_step->0@ == self.workflow.steps@[self.current_step_index as int].id@,
            self.current_step_index >= self.workflow.steps@.len() ==> p.current_step is None,
            p.completed_steps == self.completed_steps@.len(),
            p.total_steps == self.workflow.steps@.len(),
            p.progress_percent == percent_done(
                self.completed_steps@.len() as int,
                self.workflow.steps@.len() as int,
            ),
            match remaining_estimate(
                self.completed_steps@,
                self.workflow.steps@.len() as int,
            ) {
                None => p.estimated_remaining is None,
                Some(t) => p.estimated_remaining is Some && p.estimated_remaining->0 == if t
                    > i64::MAX {
                    i64::MAX as int
                } else {
                    t
                },
            },
    {
        let total = self.workflow.steps.len();
        let done = self.completed_steps.len();
        let current_step = if self.current_step_index < total {
            Some(self.workflow.steps[self.current_step_index].id.clone())
        } else {
            None
        };
        let progress_percent: u8 = if total == 0 || done >= total {
            100
        } else {
            let ratio: u128 = (done as u128) * 100 / (total as u128);
            assert(ratio < 100) by (nonlinear_arith)
                requires
                    ratio == (done as int) * 100 / (total as int),
                    0 <= done < total,
            ;
            ratio as u8
        };
        ExecutionProgress {
            workflow_id: self.workflow.metadata.id.clone(),
            status: self.status,
            current_step,
            completed_steps: done,
            total_steps: total,
            progress_percent,
            estimated_remaining: self.estimate_remaining_time(),
        }
    }
}

/// What stands in the way of a run: the tool is not usable, the user is
/// not logged in, or a required asset is not on disk. All of them are
/// listed, not only the first.
pub open spec fn prerequisite_errors(
    cli_problem: Option<Seq<char>>,
    authenticated: bool,
    required: Seq<Seq<char>>,
    existing: Seq<Seq<char>>,
) -> Seq<Seq<char>> {
    (match cli_problem {
        Some(e) => seq!["RAPS CLI not available: "@ + e],
        None => Seq::empty(),
    }) + (if authenticated {
        Seq::empty()
    } else {
        seq!["APS authentication required. Run 'raps auth login' first."@]
    }) + crate::workflow::discovery::asset_warnings(required, existing, required.len() as int)
}

/// The problem that a check of the tool reported, if any.
pub open spec fn problem_of(check: Result<(), String>) -> Option<Seq<char>> {
    match check {
        Ok(_) => None,
        Err(e) => Some(e@),
    }
}

/// Two handles name the same run.
pub open spec fn same_run(a: ExecutionHandle, b: ExecutionHandle) -> bool {
    a.id == b.id && a.workflow_id@ == b.workflow_id@
}

/// The place of the first run with the handle given.
pub open spec fn run_position(runs: Seq<ExecutionState>, handle: ExecutionHandle) -> Option<int>
    decreases runs.len(),
{
    if runs.len() == 0 {
        None
    } else {
        match run_position(runs.drop_last(), handle) {
            Some(i) => Some(i),
            None => if same_run(runs.last().handle, handle) {
                Some(runs.len() - 1)
            } else {
                None
            },
        }
    }
}

proof fn lemma_run_position(runs: Seq<ExecutionState>, handle: ExecutionHandle)
    ensures
        match run_position(runs, handle) {
            Some(i) => 0 <= i < runs.len() && same_run(runs[i].handle, handle) && forall|j: int|
                0 <= j < i ==> !same_run(#[trigger] runs[j].handle, handle),
            None => forall|j: int| 0 <= j < runs.len() ==> !same_run(
                #[trigger] runs[j].handle,
                handle,
            ),
        },
    decreases runs.len(),
{
    if runs.len() > 0 {
        lemma_run_position(runs.drop_last(), handle);
        assert forall|j: int| 0 <= j < runs.len() - 1 implies runs[j] == runs.drop_last()[j] by {}
        match run_position(runs.drop_last(), handle) {
            Some(i) => {
                assert(runs.drop_last()[i] == runs[i]);
                assert forall|j: int| 0 <= j < i implies !same_run(
                    #[trigger] runs[j].handle,
                    handle,
                ) by {
                    assert(runs.drop_last()[j] == runs[j]);
                }
            },
            None => {
                assert forall|j: int| 0 <= j < runs.len() - 1 implies !same_run(
                    #[trigger] runs[j].handle,
                    handle,
                ) by {
                    assert(runs.drop_last()[j] == runs[j]);
                }
            },
        }
    }
}

/// The run at place `i` has changed and no other.
pub open spec fn only_changed(before: Seq<ExecutionState>, after: Seq<ExecutionState>, i: int)
    -> bool {
    &&& after.len() == before.len()
    &&& forall|j: int| 0 <= j < before.len() && j != i ==> after[j] == before[j]
}

/// The runs of the host, each under its handle, and the client of the
/// external tool.
#[derive(Debug)]
pub struct WorkflowExecutor {
    raps_client: RapsClient,
    active_executions: Vec<ExecutionState>,
}

/// A run was started: `started` holds its handle and the event `Started`,
/// and `after` holds the run under that handle, in the place of an older
/// run with the same handle if `before` had one, and else behind all
/// others; the other runs are as they were. The run has the workflow, the
/// options and the directory given, began at `now`, is running before its
/// first step, and knows the placeholders `uuid` and `timestamp`.
pub open spec fn run_started(
    before: Seq<ExecutionState>,
    after: Seq<ExecutionState>,
    started: (ExecutionHandle, ExecutionUpdate),
    workflow: WorkflowDefinition,
    options: ExecutionOptions,
    temp_dir: String,
    run_id: u128,
    placeholder_id: u128,
    now: Timestamp,
) -> bool {
    &&& started.0.id == run_id
    &&& started.0.workflow_id@ == workflow.metadata.id@
    &&& started.1 matches ExecutionUpdate::Started { handle, workflow_id } && handle
        == started.0 && workflow_id@ == workflow.metadata.id@
    &&& ({
        let place = match run_position(before, started.0) {
            Some(i) => i,
            None => before.len() as int,
        };
        let run = after[place];
        &&& 0 <= place < after.len()
        &&& after.len() == if place < before.len() {
            before.len()
        } else {
            before.len() + 1
        }
        &&& forall|j: int| 0 <= j < before.len() && j != place ==> after[j] == before[j]
        &&& run.handle == started.0
        &&& run.workflow == workflow
        &&& run.context.options == options
        &&& run.context.temp_dir == temp_dir
        &&& run.start_time == now
        &&& run.context.start_time == now
        &&& run.current_step_index == 0
        &&& run.completed_steps@.len() == 0
        &&& run.created_resources@.len() == 0
        &&& is_started(run.model())
        &&& value_texts(run.placeholders@) == Map::<Seq<char>, Seq<char>>::empty().insert(
            "uuid"@,
            uuid_text(placeholder_id),
        ).insert("timestamp"@, signed_decimal(now as int))
    })
}

impl WorkflowExecutor {
    /// The runs that the executor holds, oldest first.
    pub closed spec fn runs(&self) -> Seq<ExecutionState> {
        self.active_executions@
    }

    /// The client of the external tool.
    pub closed spec fn client_spec(&self) -> &RapsClient {
        &self.raps_client
    }

    /// An executor without runs, with the default client.
    pub fn new() -> (e: Self)
        ensures
            e.runs().len() == 0,
    {
        WorkflowExecutor { raps_client: RapsClient::new(), active_executions: Vec::new() }
    }

    /// An executor without runs, with a client of the configuration given.
    pub fn with_config(config: RapsClientConfig) -> (e: Self)
        ensures
            e.runs().len() == 0,
            *e.client_spec().config() == config,
    {
        WorkflowExecutor {
            raps_client: RapsClient::with_config(config),
            active_executions: Vec::new(),
        }
    }

    /// The client of the external tool.
    pub fn client(&self) -> (c: &RapsClient)
        ensures
            c == self.client_spec(),
    {
        &self.raps_client
    }

    /// Lists what stands in the way of running the workflow. `cli_check`
    /// is the outcome of the version check of the tool, `authenticated`
    /// that of its status check, and `existing_assets` names the asset
    /// paths that are on disk.
    pub fn validate_prerequisites(
        &self,
        workflow: &WorkflowDefinition,
        cli_check: &Result<(), String>,
        authenticated: bool,
        existing_assets: &Vec<AssetPath>,
    ) -> (errors: Vec<String>)
        ensures
            texts(errors@) == prerequisite_errors(
                problem_of(*cli_check),
                authenticated,
                texts(workflow.metadata.required_assets@),
                texts(existing_assets@),
            ),
    {
        let mut errors: Vec<String> = Vec::new();
        let ghost none = Seq::<Seq<char>>::empty();
        assert(texts(errors@) =~= none);
        match cli_check {
            Err(e) => {
                errors.push(concat2("RAPS CLI not available: ", e.as_str()));
            },
            Ok(_) => {},
        }
        let ghost e1 = texts(errors@);
        assert(e1 =~= match problem_of(*cli_check) {
            Some(e) => seq!["RAPS CLI not available: "@ + e],
            None => none,
        });
        if !authenticated {
            errors.push(owned("APS authentication required. Run 'raps auth login' first."));
        }
        let ghost e2 = texts(errors@);
        assert(e2 =~= e1 + (if authenticated {
            none
        } else {
            seq!["APS authentication required. Run 'raps auth login' first."@]
        }));
        let assets = &workflow.metadata.required_assets;
        let mut i: usize = 0;
        assert(texts(errors@) =~= e2 + crate::workflow::discovery::asset_warnings(
            texts(assets@),
            texts(existing_assets@),
            0,
        ));
        while i < assets.len()
            invariant
                i <= assets.len(),
                texts(errors@) == e2 + crate::workflow::discovery::asset_warnings(
                    texts(assets@),
                    texts(existing_assets@),
                    i as int,
                ),
            decreases assets.len() - i,
        {
            assert(texts(assets@)[i as int] == assets@[i as int]@);
            let ghost before = texts(errors@);
            if !holds_text(existing_assets, assets[i].as_str()) {
                errors.push(concat2("Required asset not found: ", assets[i].as_str()));
                assert(texts(errors@) =~= before + seq![
                    "Required asset not found: "@ + assets@[i as int]@,
                ]);
            } else {
                assert(texts(errors@) =~= before + Seq::<Seq<char>>::empty());
            }
            i = i + 1;
            assert(texts(errors@) =~= e2 + crate::workflow::discovery::asset_warnings(
                texts(assets@),
                texts(existing_assets@),
                i as int,
            ));
        }
        errors
    }

    fn find_run(&self, handle: &ExecutionHandle) -> (r: Option<usize>)
        ensures
            match r {
                Some(i) => run_position(self.runs(), *handle) == Some(i as int) && i
                    < self.runs().len(),
                None => run_position(self.runs(), *handle) is None,
            },
    {
        let mut i: usize = 0;
        while i < self.active_executions.len()
            invariant
                i <= self.active_executions@.len(),
                forall|j: int| 0 <= j < i ==> !same_run(
                    #[trigger] self.active_executions@[j].handle,
                    *handle,
                ),
            decreases self.active_executions@.len() - i,
        {
            let h = &self.active_executions[i].handle;
            if h.id == handle.id && crate::text::same_text(
                h.workflow_id.as_str(),
                handle.workflow_id.as_str(),
            ) {
                proof {
                    lemma_run_position(self.runs(), *handle);
                }
                return Some(i);
            }
            i = i + 1;
        }
        proof {
            lemma_run_position(self.runs(), *handle);
        }
        None
    }

    /// Starts a run of the workflow with the identifiers and the time
    /// given, unless a prerequisite is missing. The run is kept under its
    /// handle, in the place of an older run with the same handle if there
    /// is one, and else behind all others.
    pub fn execute_workflow_with(
        &mut self,
        workflow: WorkflowDefinition,
        options: ExecutionOptions,
        prerequisite_errors: &Vec<String>,
        temp_dir: String,
        run_id: u128,
        placeholder_id: u128,
        now: Timestamp,
    ) -> (r: Result<(ExecutionHandle, ExecutionUpdate), ExecutionError>)
        ensures
            final(self).client_spec() == old(self).client_spec(),
            prerequisite_errors@.len() > 0 ==> {
                &&& r is Err
                &&& r->Err_0.message@ == "Prerequisite validation failed:\n"@ + joined(
                    texts(prerequisite_errors@),
                    "\n"@,
                )
                &&& r->Err_0.failed_step is None
                &&& !r->Err_0.is_recoverable
                &&& final(self).runs() == old(self).runs()
            },
            prerequisite_errors@.len() == 0 ==> r is Ok && run_started(
                old(self).runs(),
                final(self).runs(),
                r->Ok_0,
                workflow,
                options,
                temp_dir,
                run_id,
                placeholder_id,
                now,
            ),
    {
        if prerequisite_errors.len() > 0 {
            let listed = join(prerequisite_errors, "\n");
            let message = concat2("Prerequisite validation failed:\n", listed.as_str());
            return Err(ExecutionError::new(message));
        }
        let handle = ExecutionHandle::with_id(run_id, workflow.metadata.id.clone());
        let uuid = id_text(placeholder_id);
        let (state, update) = ExecutionState::start(
            handle.clone(),
            workflow,
            options,
            temp_dir,
            uuid,
            now,
        );
        match self.find_run(&handle) {
            Some(i) => {
                self.active_executions[i] = state;
            },
            None => {
                self.active_executions.push(state);
            },
        }
        Ok((handle, update))
    }

    /// Starts a run of the workflow with fresh identifiers at the present
    /// time, unless a prerequisite is missing: what `execute_workflow_with`
    /// does for some identifiers and some time. The run is kept under its
    /// handle; the handle and the event `Started` are handed back, and the
    /// host then asks for the next action.
    pub fn execute_workflow(
        &mut self,
        workflow: WorkflowDefinition,
        options: ExecutionOptions,
        prerequisite_errors: &Vec<String>,
        temp_dir: String,
    ) -> (r: Result<(ExecutionHandle, ExecutionUpdate), ExecutionError>)
        ensures
            final(self).client_spec() == old(self).client_spec(),
            prerequisite_errors@.len() > 0 <==> r is Err,
            r is Err ==> final(self).runs() == old(self).runs() && r->Err_0.message@
                == "Prerequisite validation failed:\n"@ + joined(
                texts(prerequisite_errors@),
                "\n"@,
            ),
            r is Ok ==> {
                &&& r->Ok_0.0.workflow_id@ == workflow.metadata.id@
                &&& r->Ok_0.1.kind() == EventKind::Started
                &&& r->Ok_0.1.run() == r->Ok_0.0
                &&& old(self).runs().len() <= final(self).runs().len() <= old(self).runs().len()
                    + 1
                &&& exists|run_id: u128, placeholder_id: u128, started: Timestamp| #[trigger]
                    run_started(
                        old(self).runs(),
                        final(self).runs(),
                        r->Ok_0,
                        workflow,
                        options,
                        temp_dir,
                        run_id,
                        placeholder_id,
                        started,
                    )
            },
    {
        let run_id = fresh_id();
        let placeholder_id = fresh_id();
        let started = now();
        let r = self.execute_workflow_with(
            workflow,
            options,
            prerequisite_errors,
            temp_dir,
            run_id,
            placeholder_id,
            started,
        );
        proof {
            if r is Ok {
                assert(run_started(
                    old(self).runs(),
                    self.runs(),
                    r->Ok_0,
                    workflow,
                    options,
                    temp_dir,
                    run_id,
                    placeholder_id,
                    started,
                ));
            }
        }
        r
    }

    /// The state of the run with the handle given.
    pub fn get_execution(&self, handle: &ExecutionHandle) -> (r: Option<&ExecutionState>)
        ensures
            match run_position(self.runs(), *handle) {
                Some(i) => r is Some && *r->0 == self.runs()[i],
                None => r is None,
            },
    {
        match self.find_run(handle) {
            Some(i) => Some(&self.active_executions[i]),
            None => None,
        }
    }

    /// A snapshot of the run with the handle given, or the error
    /// `Execution not found`.
    pub fn get_execution_progress(&self, handle: &ExecutionHandle) -> (r: Result<
        ExecutionProgress,
        ExecutionError,
    >)
        ensures
            match run_position(self.runs(), *handle) {
                Some(i) => {
                    let run = self.runs()[i];
                    &&& r is Ok
                    &&& r->Ok_0.workflow_id@ == run.workflow.metadata.id@
                    &&& r->Ok_0.status == run.status
                    &&& r->Ok_0.completed_steps == run.completed_steps@.len()
                    &&& r->Ok_0.total_steps == run.workflow.steps@.len()
                    &&& r->Ok_0.progress_percent == percent_done(
                        run.completed_steps@.len() as int,
                        run.workflow.steps@.len() as int,
                    )
                    &&& run.current_step_index < run.workflow.steps@.len()
                        ==> r->Ok_0.current_step is Some && r->Ok_0.current_step->0@
                        == run.workflow.steps@[run.current_step_index as int].id@
                    &&& run.current_step_index >= run.workflow.steps@.len()
                        ==> r->Ok_0.current_step is None
                    &&& match remaining_estimate(
                        run.completed_steps@,
                        run.workflow.steps@.len() as int,
                    ) {
                        None => r->Ok_0.estimated_remaining is None,
                        Some(t) => r->Ok_0.estimated_remaining is Some
                            && r->Ok_0.estimated_remaining->0 == if t > i64::MAX {
                            i64::MAX as int
                        } else {
                            t
                        },
                    }
                },
                None => r is Err && r->Err_0.message@ == "Execution not found"@,
            },
    {
        match self.find_run(handle) {
            Some(i) => Ok(self.active_executions[i].progress()),
            None => Err(ExecutionError::new(owned("Execution not found"))),
        }
    }

    /// Cancels the run with the handle given and hands back the event to
    /// publish. Nothing happens where there is no such run.
    pub fn cancel_execution(&mut self, handle: &ExecutionHandle) -> (update: Option<ExecutionUpdate>)
        ensures
            final(self).client_spec() == old(self).client_spec(),
            match run_position(old(self).runs(), *handle) {
                Some(i) => {
                    let before = old(self).runs()[i];
                    let after = final(self).runs()[i];
                    &&& only_changed(old(self).runs(), final(self).runs(), i)
                    &&& after.model() == model_step(before.model(), RunInput::Cancel).0
                    &&& same_data(before, after)
                    &&& update matches Some(ExecutionUpdate::Cancelled { handle: h }) && h
                        == before.handle
                },
                None => final(self).runs() == old(self).runs() && update is None,
            },
    {
        match self.find_run(handle) {
            Some(i) => {
                let mut run = self.active_executions.remove(i);
                let update = run.cancel();
                self.active_executions.insert(i, run);
                Some(update)
            },
            None => None,
        }
    }

    /// Lets the run with the handle given go on if it is paused. It hands
    /// back whether it was: the host then asks for the next action.
    pub fn resume_execution(&mut self, handle: &ExecutionHandle) -> (resumed: bool)
        ensures
            final(self).client_spec() == old(self).client_spec(),
            match run_position(old(self).runs(), *handle) {
                Some(i) => {
                    let before = old(self).runs()[i];
                    let after = final(self).runs()[i];
                    &&& only_changed(old(self).runs(), final(self).runs(), i)
                    &&& after.model() == model_step(before.model(), RunInput::Resume).0
                    &&& same_data(before, after)
                    &&& resumed == (before.status == ExecutionStatus::Paused)
                },
                None => final(self).runs() == old(self).runs() && !resumed,
            },
    {
        match self.find_run(handle) {
            Some(i) => {
                let mut run = self.active_executions.remove(i);
                let resumed = run.resume();
                self.active_executions.insert(i, run);
                resumed
            },
            None => false,
        }
    }

    /// Decides what the host does next for the run with the handle given,
    /// or gives the error `Execution not found`.
    pub fn next_action(&mut self, handle: &ExecutionHandle, now: Timestamp) -> (r: Result<
        RunAction,
        ExecutionError,
    >)
        ensures
            final(self).client_spec() == old(self).client_spec(),
            match run_position(old(self).runs(), *handle) {
                Some(i) => {
                    &&& only_changed(old(self).runs(), final(self).runs(), i)
                    &&& r is Ok
                    &&& next_action_post(old(self).runs()[i], final(self).runs()[i], r->Ok_0, now)
                },
                None => final(self).runs() == old(self).runs() && r is Err && r->Err_0.message@
                    == "Execution not found"@,
            },
    {
        match self.find_run(handle) {
            Some(i) => {
                let mut run = self.active_executions.remove(i);
                let action = run.next_action(now);
                self.active_executions.insert(i, run);
                Ok(action)
            },
            None => Err(ExecutionError::new(owned("Execution not found"))),
        }
    }

    /// Takes in what the command of a step gave back for the run with the
    /// handle given, and hands back the event to publish, if any. Nothing
    /// happens where there is no such run.
    pub fn record_step_result(
        &mut self,
        handle: &ExecutionHandle,
        step: &ExecutionStep,
        result: CommandResult,
        start_time: Timestamp,
        end_time: Timestamp,
    ) -> (update: Option<ExecutionUpdate>)
        ensures
            final(self).client_spec() == old(self).client_spec(),
            match run_position(old(self).runs(), *handle) {
                Some(i) => {
                    let before = old(self).runs()[i];
                    &&& only_changed(old(self).runs(), final(self).runs(), i)
                    &&& if before.current_step_index < usize::MAX {
                        record_post(
                            before,
                            final(self).runs()[i],
                            update,
                            *step,
                            result,
                            start_time,
                            end_time,
                        )
                    } else {
                        final(self).runs()[i] == before && update is None
                    }
                },
                None => final(self).runs() == old(self).runs() && update is None,
            },
    {
        match self.find_run(handle) {
            Some(i) => {
                if self.active_executions[i].current_step_index == usize::MAX {
                    assert(self.active_executions@ =~= old(self).active_executions@);
                    return None;
                }
                let mut run = self.active_executions.remove(i);
                let update = run.record_step_result(step, result, start_time, end_time);
                self.active_executions.insert(i, run);
                update
            },
            None => None,
        }
    }
}

} // verus!
