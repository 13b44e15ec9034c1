//! How the events of a run show on the dashboard, and how commands are
//! written for the reader.

use vstd::prelude::*;
use crate::text::{texts, owned, concat2, concat3, contains, is_substring, to_chars, decimal,
    decimal_string, lowercase, lowercase_of, join, joined, same_text};
use crate::workflow::client::{pretty_json, json_pretty};
use crate::workflow::discovery::WorkflowDefinition;
use crate::workflow::executor::{ExecutionUpdate, ExecutionError};
use crate::workflow::types::{ExecutionStep, ExecutionStatus, StepResult, ExecutionResult,
    RapsCommand, RapsCommandView, WorkflowMetadata, AuthAction, BucketAction, ObjectAction, TranslateAction,
    DataMgmtAction, DesignAutoAction};
use crate::dashboard::state::{Dashboard, PopupState, is_workflow_line};
use crate::preflight::{PreflightStatus, CheckResult, CheckAction};

verus! {

/// The place of the first line break at or behind `from`; the length of
/// the text where there is none.
pub open spec fn line_end(s: Seq<char>, from: int) -> int
    decreases s.len() - from,
{
    if from >= s.len() {
        s.len() as int
    } else if s[from] == '\n' {
        from
    } else {
        line_end(s, from + 1)
    }
}

proof fn lemma_line_end_bounds(s: Seq<char>, from: int)
    requires
        0 <= from <= s.len(),
    ensures
        from <= line_end(s, from) <= s.len(),
    decreases s.len() - from,
{
    if from < s.len() && s[from] != '\n' {
        lemma_line_end_bounds(s, from + 1);
    }
}

/// The line between `from` and `end`, without the carriage return before
/// a line break.
pub open spec fn line_between(s: Seq<char>, from: int, end: int) -> Seq<char> {
    if end < s.len() && from < end && s[end - 1] == '\r' {
        s.subrange(from, end - 1)
    } else {
        s.subrange(from, end)
    }
}

/// The lines of a text from `from` on. A line ends at a line break, which
/// may follow a carriage return; the last line needs none.
pub open spec fn lines_from(s: Seq<char>, from: int) -> Seq<Seq<char>>
    decreases s.len() + 1 - from,
    via lines_from_ends
{
    if from < 0 || from >= s.len() {
        Seq::empty()
    } else {
        seq![line_between(s, from, line_end(s, from))] + lines_from(s, line_end(s, from) + 1)
    }
}

#[via_fn]
proof fn lines_from_ends(s: Seq<char>, from: int) {
    if 0 <= from < s.len() {
        lemma_line_end_bounds(s, from);
    }
}

/// The lines of a text.
pub open spec fn lines_of(s: Seq<char>) -> Seq<Seq<char>> {
    lines_from(s, 0)
}

/// The first lines of a text, at most `limit` of them, and whether there
/// are more.
pub fn first_lines(text: &str, limit: usize) -> (r: (Vec<String>, bool))
    ensures
        texts(r.0@) == if lines_of(text@).len() <= limit {
            lines_of(text@)
        } else {
            lines_of(text@).take(limit as int)
        },
        r.1 == (lines_of(text@).len() > limit),
{
    let chars = to_chars(text);
    let ghost s = chars@;
    let n = chars.len();
    let mut lines: Vec<String> = Vec::new();
    let mut from: usize = 0;
    assert(texts(lines@) + lines_from(s, 0) =~= lines_of(s));
    while from < n && lines.len() < limit
        invariant
            from <= n,
            n == chars.len(),
            s == chars@,
            lines@.len() <= limit,
            texts(lines@) + lines_from(s, from as int) == lines_of(s),
            texts(lines@).len() == lines@.len(),
        decreases n - from,
    {
        let mut end: usize = from;
        while end < n && chars[end] != '\n'
            invariant
                from <= end <= n,
                n == chars.len(),
                s == chars@,
                line_end(s, from as int) == line_end(s, end as int),
            decreases n - end,
        {
            end = end + 1;
        }
        let stop: usize = if end < n && from < end && chars[end - 1] == '\r' {
            end - 1
        } else {
            end
        };
        let mut line = String::new();
        let mut i: usize = from;
        while i < stop
            invariant
                from <= i <= stop <= n,
                n == chars.len(),
                line@ == chars@.subrange(from as int, i as int),
            decreases stop - i,
        {
            line.push(chars[i]);
            i = i + 1;
            assert(line@ =~= chars@.subrange(from as int, i as int));
        }
        let ghost prior = texts(lines@);
        assert(line@ == line_between(s, from as int, end as int));
        lines.push(line);
        assert(texts(lines@) =~= prior.push(line@));
        assert(texts(lines@) + lines_from(s, end + 1) =~= prior + lines_from(s, from as int));
        from = if end < n {
            end + 1
        } else {
            n
        };
        assert(lines_from(s, from as int) =~= lines_from(s, end + 1));
    }
    let more = from < n;
    proof {
        let rest = lines_from(s, from as int);
        if from < n {
            lemma_line_end_bounds(s, from as int);
            assert(rest.len() > 0);
            assert(lines_of(s).len() == lines@.len() + rest.len());
            assert(lines_of(s).take(limit as int) =~= texts(lines@));
        } else {
            assert(rest =~= Seq::<Seq<char>>::empty());
            assert(texts(lines@) =~= lines_of(s));
        }
    }
    (lines, more)
}

/// The place of the first step with the identifier given among the first
/// `n` steps.
pub open spec fn step_place(steps: Seq<ExecutionStep>, id: Seq<char>, n: int) -> Option<int>
    decreases n,
{
    if n <= 0 {
        None
    } else {
        match step_place(steps, id, n - 1) {
            Some(i) => Some(i),
            None => if steps[n - 1].id@ == id {
                Some(n - 1)
            } else {
                None
            },
        }
    }
}

proof fn lemma_step_place_sticks(steps: Seq<ExecutionStep>, id: Seq<char>, n: int, m: int)
    requires
        0 <= n <= m,
        step_place(steps, id, n) is Some,
    ensures
        step_place(steps, id, m) == step_place(steps, id, n),
    decreases m - n,
{
    if n < m {
        lemma_step_place_sticks(steps, id, n, m - 1);
    }
}

/// Each line behind the prefix given.
pub open spec fn prefixed(prefix: Seq<char>, lines: Seq<Seq<char>>) -> Seq<Seq<char>> {
    lines.map_values(|l: Seq<char>| prefix + l)
}

/// The first lines of a sequence, at most `limit` of them.
pub open spec fn at_most(lines: Seq<Seq<char>>, limit: int) -> Seq<Seq<char>> {
    if lines.len() <= limit {
        lines
    } else {
        lines.take(limit)
    }
}

/// What the console shows of the output of a step that has completed: of
/// JSON the first ten lines of its indented form, with a note where there
/// are more; of any other output the first five lines.
pub open spec fn output_lines(stdout: Seq<char>) -> Seq<Seq<char>> {
    if stdout.len() == 0 {
        Seq::empty()
    } else {
        match json_pretty(stdout) {
            Some(pretty) => prefixed("      "@, at_most(lines_of(pretty), 10)) + (
            if lines_of(pretty).len() > 10 {
                seq!["      ... (truncated)"@]
            } else {
                Seq::empty()
            }),
            None => prefixed("      "@, at_most(lines_of(stdout), 5)),
        }
    }
}

/// What the console shows when a step has ended.
pub open spec fn step_lines(result: StepResult) -> Seq<Seq<char>> {
    if result.status == ExecutionStatus::Completed {
        seq!["  [OK] Step '"@ + result.step_id@ + "' finished"@] + output_lines(result.stdout@)
    } else {
        seq!["  [FAIL] Step '"@ + result.step_id@ + "' failed"@] + prefixed(
            "      ERR: "@,
            at_most(lines_of(result.stderr@), 3),
        )
    }
}

/// What the console shows when a run has ended.
pub open spec fn completion_line(result: ExecutionResult) -> Seq<char> {
    "=== Workflow "@ + result.workflow_id@ + (if result.success {
        " COMPLETED ("@
    } else {
        " FAILED ("@
    }) + decimal(result.steps_completed as nat) + " steps) ==="@
}

/// The workflow is one that translates a model, by its identifier.
pub open spec fn is_translation(workflow_id: Seq<char>) -> bool {
    is_substring(workflow_id, "translate"@) || is_substring(workflow_id, "derivative"@)
        || is_substring(workflow_id, "svf"@)
}

/// What the console shows when a run has failed: the error, then the
/// suggestions.
pub open spec fn failure_lines(error: ExecutionError) -> Seq<Seq<char>> {
    seq!["!!! Error: "@ + error.message@] + prefixed(
        "    Suggestion: "@,
        texts(error.recovery_suggestions@),
    )
}

fn push_prefixed(logs: &mut Vec<String>, prefix: &str, lines: &Vec<String>)
    ensures
        texts(final(logs)@) == texts(old(logs)@) + prefixed(prefix@, texts(lines@)),
{
    let ghost goal = prefixed(prefix@, texts(lines@));
    let mut i: usize = 0;
    assert(texts(logs@) =~= texts(old(logs)@) + goal.take(0));
    while i < lines.len()
        invariant
            i <= lines@.len(),
            goal == prefixed(prefix@, texts(lines@)),
            texts(logs@) == texts(old(logs)@) + goal.take(i as int),
        decreases lines@.len() - i,
    {
        let ghost prior = texts(logs@);
        let line = concat2(prefix, lines[i].as_str());
        assert(line@ == goal[i as int]);
        logs.push(line);
        i = i + 1;
        assert(texts(logs@) =~= prior.push(line@));
        assert(goal.take(i as int) =~= goal.take(i - 1).push(line@));
    }
    assert(goal.take(lines@.len() as int) =~= goal);
}

fn push_line(logs: &mut Vec<String>, line: String)
    ensures
        texts(final(logs)@) == texts(old(logs)@) + seq![line@],
{
    logs.push(line);
    assert(texts(logs@) =~= texts(old(logs)@) + seq![line@]);
}

/// The place of the step with the identifier given among the steps of a
/// workflow.
pub fn find_step(definition: &WorkflowDefinition, step_id: &str) -> (r: Option<usize>)
    ensures
        match step_place(definition.steps@, step_id@, definition.steps@.len() as int) {
            Some(i) => r == Some(i as usize) && i < definition.steps@.len(),
            None => r is None,
        },
{
    let mut i: usize = 0;
    while i < definition.steps.len()
        invariant
            i <= definition.steps@.len(),
            step_place(definition.steps@, step_id@, i as int) is None,
        decreases definition.steps@.len() - i,
    {
        if same_text(definition.steps[i].id.as_str(), step_id) {
            proof {
                lemma_step_place_sticks(
                    definition.steps@,
                    step_id@,
                    i as int + 1,
                    definition.steps@.len() as int,
                );
            }
            return Some(i);
        }
        i = i + 1;
    }
    None
}

impl Dashboard {
    /// The place of a step in the workflow whose run the dashboard
    /// follows.
    pub open spec fn followed_step(self, step_id: Seq<char>) -> Option<int> {
        if self.executing_workflow_id is Some && self.workflow_definitions@.contains_key(
            self.executing_workflow_id->0@,
        ) {
            let steps = self.workflow_definitions@[self.executing_workflow_id->0@].steps@;
            step_place(steps, step_id, steps.len() as int)
        } else {
            None
        }
    }

    fn step_index(&self, step_id: &str) -> (r: Option<usize>)
        ensures
            match self.followed_step(step_id@) {
                Some(i) => r == Some(i as usize),
                None => r is None,
            },
    {
        match &self.executing_workflow_id {
            Some(id) => match self.workflow_definitions.get(id.as_str()) {
                Some(definition) => find_step(definition, step_id),
                None => None,
            },
            None => None,
        }
    }

    /// What an event leaves as it was: what keys and clicks change.
    pub open spec fn same_controls(self, other: Dashboard) -> bool {
        &&& self.workflows == other.workflows
        &&& self.sidebar_items == other.sidebar_items
        &&& self.selected == other.selected
        &&& self.collapsed_categories == other.collapsed_categories
        &&& self.should_quit == other.should_quit
        &&& self.detail_tab == other.detail_tab
        &&& self.steps_scroll == other.steps_scroll
        &&& self.flowchart_state == other.flowchart_state
        &&& self.sidebar_area == other.sidebar_area
        &&& self.detail_area == other.detail_area
        &&& self.help_bar_area == other.help_bar_area
        &&& self.sidebar_percent == other.sidebar_percent
        &&& self.console_height == other.console_height
        &&& self.pending_run == other.pending_run
        &&& self.last_click == other.last_click
        &&& self.assets_scroll == other.assets_scroll
        &&& self.selected_asset == other.selected_asset
        &&& self.pending_download == other.pending_download
        &&& self.workflow_definitions == other.workflow_definitions
    }

    /// Shows an event of a run. The start of a run makes the dashboard
    /// follow it; the start and the end of a step mark the step, where the
    /// workflow that is followed has a step of that identifier; the end of
    /// the run ends the following, and a success puts up a message, with
    /// the address of the viewer for a workflow that translates a model.
    /// Each of these events adds lines to the console. Other events change
    /// nothing.
    pub fn handle_execution_update(&mut self, update: &ExecutionUpdate)
        ensures
            final(self).same_controls(*old(self)),
            match *update {
                ExecutionUpdate::Started { handle, workflow_id } => {
                    &&& final(self).executing_workflow_id is Some
                    &&& final(self).executing_workflow_id->0@ == workflow_id@
                    &&& final(self).executing_step == Some(0usize)
                    &&& final(self).completed_steps@.len() == 0
                    &&& final(self).popup == old(self).popup
                    &&& texts(final(self).logs@) == texts(old(self).logs@) + seq![
                        ">>> Started workflow: "@ + workflow_id@,
                    ]
                },
                ExecutionUpdate::StepStarted { handle, step } => {
                    &&& final(self).executing_workflow_id == old(self).executing_workflow_id
                    &&& final(self).executing_step == (match old(self).followed_step(step.id@) {
                        Some(i) => Some(i as usize),
                        None => old(self).executing_step,
                    })
                    &&& final(self).completed_steps == old(self).completed_steps
                    &&& final(self).popup == old(self).popup
                    &&& texts(final(self).logs@) == texts(old(self).logs@) + seq![
                        "  > Step: "@ + step.name@,
                    ]
                },
                ExecutionUpdate::StepCompleted { handle, result } => {
                    &&& final(self).executing_workflow_id == old(self).executing_workflow_id
                    &&& final(self).executing_step == old(self).executing_step
                    &&& final(self).completed_steps@ == (match old(self).followed_step(
                        result.step_id@,
                    ) {
                        Some(i) => old(self).completed_steps@.push(i as usize),
                        None => old(self).completed_steps@,
                    })
                    &&& final(self).popup == old(self).popup
                    &&& texts(final(self).logs@) == texts(old(self).logs@) + step_lines(result)
                },
                ExecutionUpdate::Completed { handle, result } => {
                    &&& final(self).executing_workflow_id is None
                    &&& final(self).executing_step is None
                    &&& final(self).completed_steps == old(self).completed_steps
                    &&& texts(final(self).logs@) == texts(old(self).logs@) + seq![
                        completion_line(result),
                    ]
                    &&& if result.success {
                        &&& final(self).popup is Some
                        &&& final(self).popup->0.title@ == " Workflow Complete "@
                        &&& final(self).popup->0.message@ == (if is_translation(
                            result.workflow_id@,
                        ) {
                            "Model translation '"@
                        } else {
                            "Workflow '"@
                        }) + result.workflow_id@ + "' completed successfully!"@
                        &&& if is_translation(result.workflow_id@) {
                            final(self).popup->0.url is Some && final(self).popup->0.url->0@
                                == "https://aps.autodesk.com/viewer"@
                        } else {
                            final(self).popup->0.url is None
                        }
                    } else {
                        final(self).popup == old(self).popup
                    }
                },
                ExecutionUpdate::Failed { handle, error } => {
                    &&& final(self).executing_workflow_id is None
                    &&& final(self).executing_step is None
                    &&& final(self).completed_steps == old(self).completed_steps
                    &&& final(self).popup == old(self).popup
                    &&& texts(final(self).logs@) == texts(old(self).logs@) + failure_lines(error)
                },
                _ => *final(self) == *old(self),
            },
    {
        match update {
            ExecutionUpdate::Started { handle, workflow_id } => {
                self.executing_workflow_id = Some(workflow_id.clone());
                self.executing_step = Some(0);
                self.completed_steps = Vec::new();
                push_line(&mut self.logs, concat2(">>> Started workflow: ", workflow_id.as_str()));
            },
            ExecutionUpdate::StepStarted { handle, step } => {
                match self.step_index(step.id.as_str()) {
                    Some(i) => {
                        self.executing_step = Some(i);
                    },
                    None => {},
                }
                push_line(&mut self.logs, concat2("  > Step: ", step.name.as_str()));
            },
            ExecutionUpdate::StepCompleted { handle, result } => {
                match self.step_index(result.step_id.as_str()) {
                    Some(i) => {
                        self.completed_steps.push(i);
                    },
                    None => {},
                }
                let ghost start = texts(self.logs@);
                if result.status == ExecutionStatus::Completed {
                    push_line(
                        &mut self.logs,
                        concat3("  [OK] Step '", result.step_id.as_str(), "' finished"),
                    );
                    let ghost headed = texts(self.logs@);
                    if result.stdout.as_str().unicode_len() > 0 {
                        match pretty_json(result.stdout.as_str()) {
                            Some(pretty) => {
                                let (lines, more) = first_lines(pretty.as_str(), 10);
                                push_prefixed(&mut self.logs, "      ", &lines);
                                if more {
                                    push_line(&mut self.logs, owned("      ... (truncated)"));
                                }
                                assert(texts(self.logs@) =~= headed + output_lines(result.stdout@));
                            },
                            None => {
                                let (lines, more) = first_lines(result.stdout.as_str(), 5);
                                push_prefixed(&mut self.logs, "      ", &lines);
                            },
                        }
                    } else {
                        assert(texts(self.logs@) =~= headed + output_lines(result.stdout@));
                    }
                    assert(texts(self.logs@) =~= start + step_lines(*result));
                } else {
                    push_line(
                        &mut self.logs,
                        concat3("  [FAIL] Step '", result.step_id.as_str(), "' failed"),
                    );
                    let (lines, more) = first_lines(result.stderr.as_str(), 3);
                    push_prefixed(&mut self.logs, "      ERR: ", &lines);
                    assert(texts(self.logs@) =~= start + step_lines(*result));
                }
            },
            ExecutionUpdate::Completed { handle, result } => {
                self.executing_workflow_id = None;
                self.executing_step = None;
                let id = result.workflow_id.as_str();
                let mut line = concat3(
                    "=== Workflow ",
                    id,
                    if result.success {
                        " COMPLETED ("
                    } else {
                        " FAILED ("
                    },
                );
                assert(usize::MAX <= u64::MAX);
                line.append(decimal_string(result.steps_completed as u64).as_str());
                line.append(" steps) ===");
                push_line(&mut self.logs, line);
                if result.success {
                    let translation = contains(id, "translate") || contains(id, "derivative")
                        || contains(id, "svf");
                    let popup = if translation {
                        PopupState {
                            title: owned(" Workflow Complete "),
                            message: concat3("Model translation '", id, "' completed successfully!"),
                            url: Some(owned("https://aps.autodesk.com/viewer")),
                        }
                    } else {
                        PopupState {
                            title: owned(" Workflow Complete "),
                            message: concat3("Workflow '", id, "' completed successfully!"),
                            url: None,
                        }
                    };
                    self.popup = Some(popup);
                }
            },
            ExecutionUpdate::Failed { handle, error } => {
                self.executing_workflow_id = None;
                self.executing_step = None;
                let ghost start = texts(self.logs@);
                push_line(&mut self.logs, concat2("!!! Error: ", error.message.as_str()));
                push_prefixed(&mut self.logs, "    Suggestion: ", &error.recovery_suggestions);
                assert(texts(self.logs@) =~= start + failure_lines(*error));
            },
            _ => {},
        }
    }
}

/// One of the first `n` checks offers assets to download.
pub open spec fn offers_download(checks: Seq<CheckResult>, n: int) -> bool
    decreases n,
{
    if n <= 0 {
        false
    } else {
        offers_download(checks, n - 1) || (checks[n - 1].action is Some
            && checks[n - 1].action->0 is DownloadAssets)
    }
}

/// Why a workflow is not run: what is missing, and what to do about it.
pub open spec fn refusal(name: Seq<char>, blocking: Seq<Seq<char>>, downloadable: bool) -> Seq<
    char,
> {
    "Cannot run '"@ + name + "'\n\nMissing: "@ + joined(blocking, ", "@) + "\n\n"@ + (
    if downloadable {
        "Go to Assets tab (press 4) to download required files."@
    } else {
        "Please resolve these requirements first."@
    })
}

fn any_download(checks: &Vec<CheckResult>) -> (b: bool)
    ensures
        b == offers_download(checks@, checks@.len() as int),
{
    let mut found = false;
    let mut i: usize = 0;
    while i < checks.len()
        invariant
            i <= checks@.len(),
            found == offers_download(checks@, i as int),
        decreases checks@.len() - i,
    {
        match &checks[i].action {
            Some(CheckAction::DownloadAssets(_)) => {
                found = true;
            },
            _ => {},
        }
        i = i + 1;
    }
    found
}

impl Dashboard {
    /// The workflow on the selected line, where that line holds one.
    pub open spec fn selected_workflow(self) -> Option<WorkflowMetadata> {
        if self.selected is Some && is_workflow_line(self.sidebar_items@, self.selected->0 as int)
            && self.sidebar_items@[self.selected->0 as int]->Workflow_index
            < self.workflows@.len() {
            Some(
                self.workflows@[self.sidebar_items@[self.selected->0 as int]->Workflow_index as int],
            )
        } else {
            None
        }
    }

    /// Nothing of a run that is followed differs between the two states.
    pub open spec fn same_run(self, other: Dashboard) -> bool {
        &&& self.executing_workflow_id == other.executing_workflow_id
        &&& self.executing_step == other.executing_step
        &&& self.completed_steps == other.completed_steps
    }

    /// Decides on a request to run the selected workflow, given the
    /// outcome of its checks. Where a check stands in the way, a message
    /// says which; else the definition of the workflow is handed out for
    /// the host to run, and the console says so. Without a selected
    /// workflow nothing happens.
    pub fn begin_run(&mut self, preflight: &PreflightStatus) -> (r: Option<WorkflowDefinition>)
        ensures
            final(self).same_controls(*old(self)),
            final(self).same_run(*old(self)),
            match old(self).selected_workflow() {
                None => r is None && *final(self) == *old(self),
                Some(w) => if !preflight.all_passed {
                    &&& r is None
                    &&& final(self).logs == old(self).logs
                    &&& final(self).popup is Some
                    &&& final(self).popup->0.title@ == " Missing Requirements "@
                    &&& final(self).popup->0.message@ == refusal(
                        w.name@,
                        texts(preflight.blocking_checks@),
                        offers_download(preflight.checks@, preflight.checks@.len() as int),
                    )
                    &&& final(self).popup->0.url is None
                } else if old(self).workflow_definitions@.contains_key(w.id@) {
                    &&& r is Some
                    &&& r->0@ == old(self).workflow_definitions@[w.id@]@
                    &&& final(self).popup == old(self).popup
                    &&& texts(final(self).logs@) == texts(old(self).logs@) + seq![
                        ">>> Executing workflow: "@ + w.name@,
                    ]
                } else {
                    &&& r is None
                    &&& final(self).popup == old(self).popup
                    &&& texts(final(self).logs@) == texts(old(self).logs@) + seq![
                        "!!! Workflow definition not found: "@ + w.id@,
                    ]
                },
            },
    {
        let (name, id) = match self.get_selected_workflow() {
            Some(w) => (w.name.clone(), w.id.clone()),
            None => {
                return None;
            },
        };
        if !preflight.all_passed {
            let mut message = concat3("Cannot run '", name.as_str(), "'\n\nMissing: ");
            message.append(join(&preflight.blocking_checks, ", ").as_str());
            message.append("\n\n");
            message.append(
                if any_download(&preflight.checks) {
                    "Go to Assets tab (press 4) to download required files."
                } else {
                    "Please resolve these requirements first."
                },
            );
            self.popup = Some(
                PopupState { title: owned(" Missing Requirements "), message, url: None },
            );
            return None;
        }
        let found = match self.workflow_definitions.get(id.as_str()) {
            Some(definition) => Some(definition.clone()),
            None => None,
        };
        match found {
            Some(definition) => {
                push_line(&mut self.logs, concat2(">>> Executing workflow: ", name.as_str()));
                Some(definition)
            },
            None => {
                push_line(&mut self.logs, concat2("!!! Workflow definition not found: ", id.as_str()));
                None
            },
        }
    }
}

/// The word for an action on the login.
pub open spec fn auth_word(action: AuthAction) -> Seq<char> {
    match action {
        AuthAction::Login => "login"@,
        AuthAction::Logout => "logout"@,
        AuthAction::Status => "status"@,
        AuthAction::Refresh => "refresh"@,
    }
}

/// The word for an action on a bucket.
pub open spec fn bucket_word(action: BucketAction) -> Seq<char> {
    match action {
        BucketAction::Create => "create"@,
        BucketAction::Delete => "delete"@,
        BucketAction::List => "list"@,
        BucketAction::Details => "details"@,
    }
}

/// The word for an action on an object.
pub open spec fn object_word(action: ObjectAction) -> Seq<char> {
    match action {
        ObjectAction::Upload => "upload"@,
        ObjectAction::Download => "download"@,
        ObjectAction::Delete => "delete"@,
        ObjectAction::List => "list"@,
        ObjectAction::Details => "details"@,
        ObjectAction::SignedUrl => "signedurl"@,
    }
}

/// The word for an action on a translation.
pub open spec fn translate_word(action: TranslateAction) -> Seq<char> {
    match action {
        TranslateAction::Start => "start"@,
        TranslateAction::Status => "status"@,
        TranslateAction::Download => "download"@,
        TranslateAction::Manifest => "manifest"@,
    }
}

/// The word for an action of data management.
pub open spec fn data_word(action: DataMgmtAction) -> Seq<char> {
    match action {
        DataMgmtAction::HubList => "hublist"@,
        DataMgmtAction::ProjectList => "projectlist"@,
        DataMgmtAction::FolderList => "folderlist"@,
        DataMgmtAction::FolderCreate => "foldercreate"@,
        DataMgmtAction::ItemVersions => "itemversions"@,
        DataMgmtAction::ItemBind => "itembind"@,
    }
}

/// The word for an action of design automation.
pub open spec fn design_word(action: DesignAutoAction) -> Seq<char> {
    match action {
        DesignAutoAction::AppBundles => "appbundles"@,
        DesignAutoAction::Activities => "activities"@,
        DesignAutoAction::WorkItemRun => "workitemrun"@,
        DesignAutoAction::WorkItemGet => "workitemget"@,
    }
}

/// A text behind a blank where it is present, nothing where it is absent.
pub open spec fn trailing(flag: Seq<char>, value: Option<Seq<char>>) -> Seq<char> {
    match value {
        Some(v) => flag + v,
        None => Seq::empty(),
    }
}

/// A command as the list of steps shows it. The name of the bucket of an
/// object command is shown in lower case.
pub open spec fn command_text(cmd: RapsCommandView) -> Seq<char> {
    match cmd {
        RapsCommandView::Auth { action } => "auth "@ + auth_word(action),
        RapsCommandView::Bucket { action, params } => "bucket "@ + bucket_word(action) + trailing(
            " --key "@,
            params.bucket_name,
        ),
        RapsCommandView::Object { action, params } => "object "@ + object_word(action) + " "@
            + lowercase_of(params.bucket_name) + trailing(" "@, params.object_key),
        RapsCommandView::Translate { action, params } => "translate "@ + translate_word(action)
            + trailing(" "@, params.urn) + trailing(" --format "@, params.format),
        RapsCommandView::DataManagement { action, params } => "dm "@ + data_word(action),
        RapsCommandView::DesignAutomation { action, params } => "da "@ + design_word(action),
        RapsCommandView::Custom { command, args } => command + " "@ + joined(args, " "@),
    }
}

pub(crate) fn auth_name(action: &AuthAction) -> (s: &'static str)
    ensures
        s@ == auth_word(*action),
{
    match action {
        AuthAction::Login => "login",
        AuthAction::Logout => "logout",
        AuthAction::Status => "status",
        AuthAction::Refresh => "refresh",
    }
}

pub(crate) fn bucket_name(action: &BucketAction) -> (s: &'static str)
    ensures
        s@ == bucket_word(*action),
{
    match action {
        BucketAction::Create => "create",
        BucketAction::Delete => "delete",
        BucketAction::List => "list",
        BucketAction::Details => "details",
    }
}

pub(crate) fn object_name(action: &ObjectAction) -> (s: &'static str)
    ensures
        s@ == object_word(*action),
{
    match action {
        ObjectAction::Upload => "upload",
        ObjectAction::Download => "download",
        ObjectAction::Delete => "delete",
        ObjectAction::List => "list",
        ObjectAction::Details => "details",
        ObjectAction::SignedUrl => "signedurl",
    }
}

pub(crate) fn translate_name(action: &TranslateAction) -> (s: &'static str)
    ensures
        s@ == translate_word(*action),
{
    match action {
        TranslateAction::Start => "start",
        TranslateAction::Status => "status",
        TranslateAction::Download => "download",
        TranslateAction::Manifest => "manifest",
    }
}

pub(crate) fn data_name(action: &DataMgmtAction) -> (s: &'static str)
    ensures
        s@ == data_word(*action),
{
    match action {
        DataMgmtAction::HubList => "hublist",
        DataMgmtAction::ProjectList => "projectlist",
        DataMgmtAction::FolderList => "folderlist",
        DataMgmtAction::FolderCreate => "foldercreate",
        DataMgmtAction::ItemVersions => "itemversions",
        DataMgmtAction::ItemBind => "itembind",
    }
}

pub(crate) fn design_name(action: &DesignAutoAction) -> (s: &'static str)
    ensures
        s@ == design_word(*action),
{
    match action {
        DesignAutoAction::AppBundles => "appbundles",
        DesignAutoAction::Activities => "activities",
        DesignAutoAction::WorkItemRun => "workitemrun",
        DesignAutoAction::WorkItemGet => "workitemget",
    }
}

pub(crate) fn push_trailing(out: &mut String, flag: &str, value: &Option<String>)
    ensures
        final(out)@ == old(out)@ + trailing(flag@, crate::text::opt_text(*value)),
{
    match value {
        Some(v) => {
            out.append(flag);
            out.append(v.as_str());
            assert(out@ =~= old(out)@ + (flag@ + v@));
        },
        None => {
            assert(out@ =~= old(out)@ + Seq::<char>::empty());
        },
    }
}

/// Writes a command as the list of steps shows it.
pub fn format_command(cmd: &RapsCommand) -> (s: String)
    ensures
        s@ == command_text(cmd@),
{
    match cmd {
        RapsCommand::Auth { action } => concat2("auth ", auth_name(action)),
        RapsCommand::Bucket { action, params } => {
            let mut s = concat2("bucket ", bucket_name(action));
            push_trailing(&mut s, " --key ", &params.bucket_name);
            s
        },
        RapsCommand::Object { action, params } => {
            let mut s = concat3("object ", object_name(action), " ");
            s.append(lowercase(params.bucket_name.as_str()).as_str());
            push_trailing(&mut s, " ", &params.object_key);
            s
        },
        RapsCommand::Translate { action, params } => {
            let mut s = concat2("translate ", translate_name(action));
            push_trailing(&mut s, " ", &params.urn);
            push_trailing(&mut s, " --format ", &params.format);
            s
        },
        RapsCommand::DataManagement { action, params } => concat2("dm ", data_name(action)),
        RapsCommand::DesignAutomation { action, params } => concat2("da ", design_name(action)),
        RapsCommand::Custom { command, args } => {
            let rest = join(args, " ");
            concat3(command.as_str(), " ", rest.as_str())
        },
    }
}

} // verus!
