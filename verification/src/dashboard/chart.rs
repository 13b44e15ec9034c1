//! The flowchart of a workflow as lines of toned text: a box for the
//! start, one for each step, one for the cleanup where there is any, and
//! one for the end, joined by arrows.

use vstd::prelude::*;
use vstd::utf8::encode_utf8;
use crate::text::{texts, owned, concat2, concat3, to_chars, decimal, decimal_string, lowercase,
    lowercase_of, join, joined};
use crate::flowchart::FlowchartState;
use crate::workflow::discovery::{WorkflowDefinition, WorkflowDefinitionView};
use crate::workflow::types::{ExecutionStep, ExecutionStepView, RapsCommand, RapsCommandView,
    step_views};
use crate::dashboard::events::{auth_word, bucket_word, object_word, translate_word, data_word,
    design_word, trailing, auth_name, bucket_name, object_name, translate_name, data_name,
    design_name, push_trailing};

verus! {

/// How a piece of the flowchart is to be drawn.
#[derive(Debug, Clone, Copy, PartialEq, Eq, Structural)]
pub enum Tone {
    /// Text without a tone of its own.
    Plain,
    /// The hint that stands in the place of a flowchart.
    Hint,
    /// The border of the start.
    Start,
    /// The border of a step that has not run.
    Step,
    /// The border of the step that runs.
    ActiveStep,
    /// The border of a step that has completed.
    DoneStep,
    /// The cleanup, border and text.
    Cleanup,
    /// The border of the end.
    End,
    /// The text of the end.
    EndTitle,
    /// An arrow between two boxes.
    Arrow,
    /// A heading in a box.
    Title,
    /// A command in a box.
    Command,
}

/// A piece of a line, in one tone.
#[derive(Debug, Clone, PartialEq, Eq)]
pub struct Segment {
    pub text: String,
    pub tone: Tone,
}

pub struct SegmentView {
    pub text: Seq<char>,
    pub tone: Tone,
}

impl View for Segment {
    type V = SegmentView;

    open spec fn view(&self) -> SegmentView {
        SegmentView { text: self.text@, tone: self.tone }
    }
}

/// A line of the flowchart.
#[derive(Debug, Clone, PartialEq, Eq)]
pub struct ChartLine {
    pub segments: Vec<Segment>,
}

impl View for ChartLine {
    type V = Seq<SegmentView>;

    open spec fn view(&self) -> Seq<SegmentView> {
        self.segments@.map_values(|s: Segment| s@)
    }
}

/// The views of a sequence of lines.
pub open spec fn line_views(v: Seq<ChartLine>) -> Seq<Seq<SegmentView>> {
    v.map_values(|l: ChartLine| l@)
}

/// A line of one piece.
pub open spec fn one(text: Seq<char>, tone: Tone) -> Seq<SegmentView> {
    seq![SegmentView { text, tone }]
}

/// A line of a box: the text between the two sides of the border.
pub open spec fn framed(indent: Seq<char>, border: Tone, text: Seq<char>, tone: Tone) -> Seq<
    SegmentView,
> {
    seq![
        SegmentView { text: indent + "| "@, tone: border },
        SegmentView { text, tone },
        SegmentView { text: " |"@, tone: border },
    ]
}

/// The character `n` times.
pub open spec fn repeated(c: char, n: int) -> Seq<char>
    decreases n,
{
    if n <= 0 {
        Seq::empty()
    } else {
        repeated(c, n - 1).push(c)
    }
}

/// The first `n` characters of a text; the text where it has no more.
pub open spec fn first_of(text: Seq<char>, n: int) -> Seq<char> {
    if text.len() <= n {
        text
    } else {
        text.take(n)
    }
}

/// A text in the middle of a field of the width given, cut where it is
/// longer; where the blanks cannot be halved, the right side has one
/// more.
pub open spec fn centered(text: Seq<char>, width: int) -> Seq<char> {
    if text.len() >= width {
        text.take(width)
    } else {
        repeated(' ', (width - text.len()) / 2) + text + repeated(
            ' ',
            width - text.len() - (width - text.len()) / 2,
        )
    }
}

/// A text filled with blanks on the right up to the width given.
pub open spec fn filled(text: Seq<char>, width: int) -> Seq<char> {
    text + repeated(' ', width - text.len())
}

/// A horizontal border of `n` characters between two corners.
pub open spec fn bar(indent: Seq<char>, c: char, n: int) -> Seq<char> {
    indent + "+"@ + repeated(c, n) + "+"@
}

/// A horizontal border with a joint in the middle and `n` characters on
/// either side.
pub open spec fn jointed_bar(indent: Seq<char>, c: char, n: int) -> Seq<char> {
    indent + "+"@ + repeated(c, n) + "+"@ + repeated(c, n) + "+"@
}

/// The dots that stand for what was cut off a name of more bytes than
/// the limit.
pub open spec fn dots(name: Seq<char>, limit: int) -> Seq<char> {
    if encode_utf8(name).len() > limit {
        "..."@
    } else {
        Seq::empty()
    }
}

/// A command as a box of the flowchart shows it: long names are cut,
/// and of the arguments of a free command the first three are shown.
pub open spec fn chart_command(cmd: RapsCommandView) -> Seq<char> {
    match cmd {
        RapsCommandView::Auth { action } => "raps auth "@ + auth_word(action),
        RapsCommandView::Bucket { action, params } => "raps bucket "@ + bucket_word(action) + (
        match params.bucket_name {
            Some(name) => " --key "@ + first_of(name, 15) + dots(name, 15),
            None => Seq::empty(),
        }),
        RapsCommandView::Object { action, params } => "raps object "@ + object_word(action) + " "@
            + lowercase_of(first_of(params.bucket_name, 12)) + dots(params.bucket_name, 12),
        RapsCommandView::Translate { action, params } => "raps translate "@ + translate_word(
            action,
        ) + trailing(" "@, params.urn) + trailing(" --format "@, params.format),
        RapsCommandView::DataManagement { action, params } => "raps dm "@ + data_word(action),
        RapsCommandView::DesignAutomation { action, params } => "raps da "@ + design_word(action),
        RapsCommandView::Custom { command, args } => command + " "@ + joined(
            if args.len() <= 3 {
                args
            } else {
                args.take(3)
            },
            " "@,
        ),
    }
}

/// The two lines of an arrow.
pub open spec fn arrow() -> Seq<Seq<SegmentView>> {
    seq![
        one("                   |"@, Tone::Arrow),
        one("                   v"@, Tone::Arrow),
    ]
}

/// The box of the start, below an empty line.
pub open spec fn start_block() -> Seq<Seq<SegmentView>> {
    seq![
        one(Seq::empty(), Tone::Plain),
        one(bar("    "@, '=', 36), Tone::Start),
        framed("    "@, Tone::Start, centered("[START]"@, 34), Tone::Title),
        one(jointed_bar("    "@, '=', 17), Tone::Start),
    ]
}

/// The box of the end, above an empty line.
pub open spec fn end_block() -> Seq<Seq<SegmentView>> {
    arrow() + seq![
        one(bar("    "@, '=', 36), Tone::End),
        framed("    "@, Tone::End, centered("[END]"@, 34), Tone::EndTitle),
        one(bar("    "@, '=', 36), Tone::End),
        one(Seq::empty(), Tone::Plain),
    ]
}

/// The box of the cleanup, for the number of its commands.
pub open spec fn cleanup_block(commands: nat) -> Seq<Seq<SegmentView>> {
    arrow() + seq![
        one(bar("        "@, '-', 26), Tone::Cleanup),
        framed(
            "        "@,
            Tone::Cleanup,
            centered("Cleanup ("@ + decimal(commands) + " cmds)"@, 24),
            Tone::Cleanup,
        ),
        one(jointed_bar("        "@, '-', 11), Tone::Cleanup),
    ]
}

/// The tone of the border of the step at the place given.
pub open spec fn step_tone(place: int, executing: Option<usize>, completed: Seq<usize>) -> Tone {
    if exists|j: int| 0 <= j < completed.len() && completed[j] == place {
        Tone::DoneStep
    } else if executing is Some && executing->0 == place {
        Tone::ActiveStep
    } else {
        Tone::Step
    }
}

/// The mark behind the number of a step.
pub open spec fn step_mark(tone: Tone) -> Seq<char> {
    if tone == Tone::DoneStep {
        "[OK]"@
    } else if tone == Tone::ActiveStep {
        "[>>]"@
    } else {
        "    "@
    }
}

/// The heading of the box of a step: its number, counted from one, and
/// its mark.
pub open spec fn step_label(place: int, tone: Tone) -> Seq<char> {
    "Step "@ + decimal((place + 1) as nat) + " "@ + step_mark(tone)
}

/// The top border of the box of a step, with its heading.
pub open spec fn step_top(label: Seq<char>) -> Seq<char> {
    "    +-- "@ + label + " "@ + repeated(
        '-',
        if 32 - label.len() < 1 {
            1
        } else {
            32 - label.len()
        },
    )
}

/// The box of a step, below an arrow.
pub open spec fn step_block(place: int, step: ExecutionStepView, tone: Tone) -> Seq<
    Seq<SegmentView>,
> {
    arrow() + seq![
        one(step_top(step_label(place, tone)), tone),
        framed("    "@, tone, centered(first_of(step.name, 34), 34), Tone::Title),
        framed("    "@, tone, filled(first_of(chart_command(step.command), 34), 34), Tone::Command),
        one(jointed_bar("    "@, '-', 16), tone),
    ]
}

/// The boxes of the first `n` steps.
pub open spec fn step_blocks(
    steps: Seq<ExecutionStepView>,
    executing: Option<usize>,
    completed: Seq<usize>,
    n: int,
) -> Seq<Seq<SegmentView>>
    decreases n,
{
    if n <= 0 {
        Seq::empty()
    } else {
        step_blocks(steps, executing, completed, n - 1) + step_block(
            n - 1,
            steps[n - 1],
            step_tone(n - 1, executing, completed),
        )
    }
}

/// The flowchart of a workflow; a hint where no workflow is given.
pub open spec fn chart_lines(
    workflow: Option<WorkflowDefinitionView>,
    executing: Option<usize>,
    completed: Seq<usize>,
) -> Seq<Seq<SegmentView>> {
    match workflow {
        None => seq![one("<- Select a workflow to view its flowchart"@, Tone::Hint)],
        Some(w) => start_block() + step_blocks(w.steps, executing, completed, w.steps.len() as int)
            + (if w.cleanup.len() > 0 {
            cleanup_block(w.cleanup.len())
        } else {
            Seq::empty()
        }) + end_block(),
    }
}

fn single(text: String, tone: Tone) -> (line: ChartLine)
    ensures
        line@ == one(text@, tone),
{
    let mut segments: Vec<Segment> = Vec::new();
    segments.push(Segment { text, tone });
    let line = ChartLine { segments };
    assert(line@ =~= one(text@, tone));
    line
}

fn boxed(indent: &str, border: Tone, text: String, tone: Tone) -> (line: ChartLine)
    ensures
        line@ == framed(indent@, border, text@, tone),
{
    let mut segments: Vec<Segment> = Vec::new();
    segments.push(Segment { text: concat2(indent, "| "), tone: border });
    segments.push(Segment { text, tone });
    segments.push(Segment { text: owned(" |"), tone: border });
    let line = ChartLine { segments };
    assert(line@ =~= framed(indent@, border, text@, tone));
    line
}

fn push_repeated(out: &mut String, c: char, n: usize)
    ensures
        final(out)@ == old(out)@ + repeated(c, n as int),
{
    let mut i: usize = 0;
    assert(out@ =~= old(out)@ + repeated(c, 0));
    while i < n
        invariant
            i <= n,
            out@ == old(out)@ + repeated(c, i as int),
        decreases n - i,
    {
        out.push(c);
        i = i + 1;
        assert(out@ =~= old(out)@ + repeated(c, i as int));
    }
}

/// The first `n` characters of a text.
pub fn first_chars(text: &str, n: usize) -> (r: String)
    ensures
        r@ == first_of(text@, n as int),
{
    let chars = to_chars(text);
    if chars.len() <= n {
        return owned(text);
    }
    let mut r = String::new();
    let mut i: usize = 0;
    while i < n
        invariant
            i <= n < chars@.len(),
            r@ == chars@.take(i as int),
        decreases n - i,
    {
        r.push(chars[i]);
        i = i + 1;
        assert(r@ =~= chars@.take(i as int));
    }
    r
}

/// Puts a text in the middle of a field of the width given.
pub fn center_text(text: &str, width: usize) -> (r: String)
    ensures
        r@ == centered(text@, width as int),
{
    let len = text.unicode_len();
    if len >= width {
        let r = first_chars(text, width);
        assert(text@.len() == width ==> text@.take(width as int) =~= text@);
        r
    } else {
        let left: usize = (width - len) / 2;
        let right: usize = width - len - left;
        let mut r = String::new();
        push_repeated(&mut r, ' ', left);
        r.append(text);
        push_repeated(&mut r, ' ', right);
        assert(r@ =~= centered(text@, width as int));
        r
    }
}

fn fill_text(text: String, width: usize) -> (r: String)
    ensures
        r@ == filled(text@, width as int),
{
    let len = text.as_str().unicode_len();
    let mut r = text;
    if len < width {
        push_repeated(&mut r, ' ', width - len);
    } else {
        assert(r@ =~= filled(text@, width as int));
    }
    r
}

fn bar_text(indent: &str, c: char, n: usize) -> (r: String)
    ensures
        r@ == bar(indent@, c, n as int),
{
    let mut r = concat2(indent, "+");
    push_repeated(&mut r, c, n);
    r.append("+");
    r
}

fn jointed_bar_text(indent: &str, c: char, n: usize) -> (r: String)
    ensures
        r@ == jointed_bar(indent@, c, n as int),
{
    let mut r = concat2(indent, "+");
    push_repeated(&mut r, c, n);
    r.append("+");
    push_repeated(&mut r, c, n);
    r.append("+");
    r
}

fn push_dots(out: &mut String, name: &str, limit: usize)
    ensures
        final(out)@ == old(out)@ + dots(name@, limit as int),
{
    if name.as_bytes().len() > limit {
        out.append("...");
    } else {
        assert(out@ =~= old(out)@ + Seq::<char>::empty());
    }
}

/// Writes a command as a box of the flowchart shows it.
pub fn format_chart_command(cmd: &RapsCommand) -> (s: String)
    ensures
        s@ == chart_command(cmd@),
{
    match cmd {
        RapsCommand::Auth { action } => concat2("raps auth ", auth_name(action)),
        RapsCommand::Bucket { action, params } => {
            let mut s = concat2("raps bucket ", bucket_name(action));
            match &params.bucket_name {
                Some(name) => {
                    let ghost head = s@;
                    s.append(" --key ");
                    s.append(first_chars(name.as_str(), 15).as_str());
                    push_dots(&mut s, name.as_str(), 15);
                    assert(s@ =~= head + (" --key "@ + first_of(name@, 15) + dots(name@, 15)));
                },
                None => {
                    assert(s@ =~= s@ + Seq::<char>::empty());
                },
            }
            s
        },
        RapsCommand::Object { action, params } => {
            let mut s = concat3("raps object ", object_name(action), " ");
            let short = first_chars(params.bucket_name.as_str(), 12);
            s.append(lowercase(short.as_str()).as_str());
            push_dots(&mut s, params.bucket_name.as_str(), 12);
            s
        },
        RapsCommand::Translate { action, params } => {
            let mut s = concat2("raps translate ", translate_name(action));
            push_trailing(&mut s, " ", &params.urn);
            push_trailing(&mut s, " --format ", &params.format);
            s
        },
        RapsCommand::DataManagement { action, params } => concat2("raps dm ", data_name(action)),
        RapsCommand::DesignAutomation { action, params } => concat2("raps da ", design_name(action)),
        RapsCommand::Custom { command, args } => {
            let mut shown: Vec<String> = Vec::new();
            let mut i: usize = 0;
            while i < args.len() && i < 3
                invariant
                    i <= args@.len(),
                    i <= 3,
                    texts(shown@) == texts(args@).take(i as int),
                decreases args@.len() - i,
            {
                let ghost prior = texts(shown@);
                shown.push(args[i].clone());
                assert(texts(shown@) =~= prior.push(args@[i as int]@));
                i = i + 1;
                assert(texts(shown@) =~= texts(args@).take(i as int));
            }
            assert(args@.len() <= 3 ==> texts(args@).take(i as int) =~= texts(args@));
            let rest = join(&shown, " ");
            concat3(command.as_str(), " ", rest.as_str())
        },
    }
}

fn push_arrow(lines: &mut Vec<ChartLine>)
    ensures
        line_views(final(lines)@) == line_views(old(lines)@) + arrow(),
{
    lines.push(single(owned("                   |"), Tone::Arrow));
    lines.push(single(owned("                   v"), Tone::Arrow));
    assert(line_views(lines@) =~= line_views(old(lines)@) + arrow());
}

fn tone_of(place: usize, state: &FlowchartState) -> (tone: Tone)
    ensures
        tone == step_tone(place as int, state.executing_step, state.completed_steps@),
{
    let mut i: usize = 0;
    while i < state.completed_steps.len()
        invariant
            i <= state.completed_steps@.len(),
            forall|j: int| 0 <= j < i ==> state.completed_steps@[j] != place,
        decreases state.completed_steps@.len() - i,
    {
        if state.completed_steps[i] == place {
            return Tone::DoneStep;
        }
        i = i + 1;
    }
    match state.executing_step {
        Some(at) => if at == place {
            Tone::ActiveStep
        } else {
            Tone::Step
        },
        None => Tone::Step,
    }
}

fn push_step(lines: &mut Vec<ChartLine>, place: usize, step: &ExecutionStep, tone: Tone)
    requires
        place < usize::MAX,
    ensures
        line_views(final(lines)@) == line_views(old(lines)@) + step_block(
            place as int,
            step@,
            tone,
        ),
{
    push_arrow(lines);
    let ghost headed = line_views(lines@);
    let mark = if tone == Tone::DoneStep {
        "[OK]"
    } else if tone == Tone::ActiveStep {
        "[>>]"
    } else {
        "    "
    };
    assert(usize::MAX <= u64::MAX);
    let mut label = concat2("Step ", decimal_string((place + 1) as u64).as_str());
    label.append(" ");
    label.append(mark);
    assert(label@ =~= step_label(place as int, tone));
    let len = label.as_str().unicode_len();
    let dashes: usize = if len >= 31 {
        1
    } else {
        32 - len
    };
    let mut top = concat3("    +-- ", label.as_str(), " ");
    push_repeated(&mut top, '-', dashes);
    let top_line = single(top, tone);
    let name = first_chars(step.name.as_str(), 34);
    let name_line = boxed("    ", tone, center_text(name.as_str(), 34), Tone::Title);
    let command = format_chart_command(&step.command);
    let short = first_chars(command.as_str(), 34);
    let command_line = boxed("    ", tone, fill_text(short, 34), Tone::Command);
    let bottom_line = single(jointed_bar_text("    ", '-', 16), tone);
    lines.push(top_line);
    lines.push(name_line);
    lines.push(command_line);
    lines.push(bottom_line);
    assert(line_views(lines@) =~= headed + seq![top_line@, name_line@, command_line@, bottom_line@]);
    assert(line_views(lines@) =~= line_views(old(lines)@) + step_block(place as int, step@, tone));
}

/// Builds the flowchart of a workflow, with the marks of the steps that
/// run or have run.
pub fn build_lines(workflow: Option<&WorkflowDefinition>, state: &FlowchartState) -> (lines: Vec<
    ChartLine,
>)
    ensures
        line_views(lines@) == chart_lines(
            match workflow {
                Some(w) => Some(w@),
                None => None,
            },
            state.executing_step,
            state.completed_steps@,
        ),
{
    let mut lines: Vec<ChartLine> = Vec::new();
    let def = match workflow {
        Some(w) => w,
        None => {
            lines.push(single(owned("<- Select a workflow to view its flowchart"), Tone::Hint));
            assert(line_views(lines@) =~= seq![
                one("<- Select a workflow to view its flowchart"@, Tone::Hint),
            ]);
            return lines;
        },
    };
    lines.push(single(String::new(), Tone::Plain));
    lines.push(single(bar_text("    ", '=', 36), Tone::Start));
    lines.push(boxed("    ", Tone::Start, center_text("[START]", 34), Tone::Title));
    lines.push(single(jointed_bar_text("    ", '=', 17), Tone::Start));
    assert(line_views(lines@) =~= start_block());
    let ghost steps = step_views(def.steps@);
    let mut i: usize = 0;
    assert(line_views(lines@) =~= start_block() + step_blocks(
        steps,
        state.executing_step,
        state.completed_steps@,
        0,
    ));
    while i < def.steps.len()
        invariant
            i <= def.steps@.len(),
            steps == step_views(def.steps@),
            line_views(lines@) == start_block() + step_blocks(
                steps,
                state.executing_step,
                state.completed_steps@,
                i as int,
            ),
        decreases def.steps@.len() - i,
    {
        let ghost prior = line_views(lines@);
        let tone = tone_of(i, state);
        push_step(&mut lines, i, &def.steps[i], tone);
        assert(steps[i as int] == def.steps@[i as int]@);
        i = i + 1;
        assert(line_views(lines@) =~= start_block() + step_blocks(
            steps,
            state.executing_step,
            state.completed_steps@,
            i as int,
        ));
    }
    let ghost stepped = line_views(lines@);
    if def.cleanup.len() > 0 {
        push_arrow(&mut lines);
        let ghost headed = line_views(lines@);
        assert(usize::MAX <= u64::MAX);
        let text = concat3(
            "Cleanup (",
            decimal_string(def.cleanup.len() as u64).as_str(),
            " cmds)",
        );
        let top = single(bar_text("        ", '-', 26), Tone::Cleanup);
        let middle = boxed(
            "        ",
            Tone::Cleanup,
            center_text(text.as_str(), 24),
            Tone::Cleanup,
        );
        let bottom = single(jointed_bar_text("        ", '-', 11), Tone::Cleanup);
        lines.push(top);
        lines.push(middle);
        lines.push(bottom);
        assert(line_views(lines@) =~= headed + seq![top@, middle@, bottom@]);
        assert(line_views(lines@) =~= stepped + cleanup_block(def.cleanup@.len()));
    } else {
        assert(line_views(lines@) =~= stepped + Seq::<Seq<SegmentView>>::empty());
    }
    let ghost cleaned = line_views(lines@);
    push_arrow(&mut lines);
    let ghost headed = line_views(lines@);
    let top = single(bar_text("    ", '=', 36), Tone::End);
    let middle = boxed("    ", Tone::End, center_text("[END]", 34), Tone::EndTitle);
    let bottom = single(bar_text("    ", '=', 36), Tone::End);
    let last = single(String::new(), Tone::Plain);
    lines.push(top);
    lines.push(middle);
    lines.push(bottom);
    lines.push(last);
    assert(line_views(lines@) =~= headed + seq![top@, middle@, bottom@, last@]);
    assert(line_views(lines@) =~= cleaned + end_block());
    lines
}

} // verus!
