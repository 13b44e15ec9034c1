//! Placeholders in command texts: `{name}` stands for the value that the
//! run holds under `name`.
//!
//! A text is read from left to right. Where a `{` is followed, up to the
//! next `}`, by a name that the run knows, the whole of `{name}` gives way
//! to the value and reading goes on behind the `}`; the value itself is not
//! read again. Any other character is kept as it is.

use vstd::prelude::*;
use crate::text::{texts, opt_text, to_chars};
use crate::text_map::TextMap;
use crate::workflow::types::{RapsCommand, RapsCommandView, BucketParams, BucketParamsView,
    ObjectParams, ObjectParamsView, TranslateParams, TranslateParamsView, DataMgmtParams,
    DataMgmtParamsView, DesignAutoParams, DesignAutoParamsView, command_views};

verus! {

/// The values of a map of strings, as texts.
pub open spec fn value_texts(m: Map<Seq<char>, String>) -> Map<Seq<char>, Seq<char>> {
    m.map_values(|v: String| v@)
}

/// The place of the first `}` at or behind `from`; the length of the text
/// where there is none.
pub open spec fn first_close(s: Seq<char>, from: int) -> int
    decreases s.len() - from,
{
    if from >= s.len() {
        s.len() as int
    } else if s[from] == '}' {
        from
    } else {
        first_close(s, from + 1)
    }
}

/// The text with every placeholder of a known name replaced by its value.
pub open spec fn substituted(s: Seq<char>, m: Map<Seq<char>, Seq<char>>) -> Seq<char>
    decreases s.len(),
{
    if s.len() == 0 {
        s
    } else {
        let close = first_close(s, 1);
        if s[0] == '{' && 1 <= close < s.len() && m.contains_key(s.subrange(1, close)) {
            m[s.subrange(1, close)] + substituted(s.subrange(close + 1, s.len() as int), m)
        } else {
            seq![s[0]] + substituted(s.drop_first(), m)
        }
    }
}

/// The text holds a `{` with a `}` somewhere behind it.
pub open spec fn has_pattern(s: Seq<char>) -> bool {
    exists|i: int, j: int| 0 <= i < j < s.len() && s[i] == '{' && s[j] == '}'
}

proof fn lemma_first_close_bounds(s: Seq<char>, from: int)
    requires
        0 <= from,
    ensures
        from <= first_close(s, from) || first_close(s, from) == s.len(),
        first_close(s, from) <= s.len() || first_close(s, from) == from,
        first_close(s, from) < s.len() ==> s[first_close(s, from)] == '}',
        forall|k: int| from <= k < first_close(s, from) && k < s.len() ==> s[k] != '}',
    decreases s.len() - from,
{
    if from < s.len() && s[from] != '}' {
        lemma_first_close_bounds(s, from + 1);
    }
}

proof fn lemma_first_close_shift(s: Seq<char>, start: int, from: int)
    requires
        0 <= start <= s.len(),
        0 <= from,
    ensures
        first_close(s.subrange(start, s.len() as int), from) + start == first_close(
            s,
            start + from,
        ),
    decreases s.len() - start - from,
{
    let t = s.subrange(start, s.len() as int);
    if from < t.len() {
        assert(t[from] == s[start + from]);
        if t[from] != '}' {
            lemma_first_close_shift(s, start, from + 1);
        }
    }
}

/// A text without a `{` that has a `}` behind it is left as it is, so to
/// substitute once or twice gives the same.
pub proof fn lemma_substitution_without_pattern(s: Seq<char>, m: Map<Seq<char>, Seq<char>>)
    requires
        !has_pattern(s),
    ensures
        substituted(s, m) == s,
        substituted(substituted(s, m), m) == substituted(s, m),
    decreases s.len(),
{
    if s.len() > 0 {
        let close = first_close(s, 1);
        lemma_first_close_bounds(s, 1);
        if s[0] == '{' && 1 <= close < s.len() {
            assert(s[close] == '}');
            assert(has_pattern(s));
        }
        let rest = s.drop_first();
        if has_pattern(rest) {
            let (i, j) = choose|i: int, j: int|
                0 <= i < j < rest.len() && rest[i] == '{' && rest[j] == '}';
            assert(s[i + 1] == '{' && s[j + 1] == '}');
            assert(has_pattern(s));
        }
        lemma_substitution_without_pattern(rest, m);
        assert(seq![s[0]] + rest =~= s);
    }
}

fn find_close(chars: &Vec<char>, from: usize) -> (j: usize)
    requires
        from <= chars.len(),
    ensures
        j == first_close(chars@, from as int),
        from <= j <= chars.len(),
{
    let mut j: usize = from;
    while j < chars.len() && chars[j] != '}'
        invariant
            from <= j <= chars.len(),
            first_close(chars@, from as int) == first_close(chars@, j as int),
        decreases chars.len() - j,
    {
        j = j + 1;
    }
    j
}

fn slice_string(chars: &Vec<char>, from: usize, to: usize) -> (s: String)
    requires
        from <= to <= chars.len(),
    ensures
        s@ == chars@.subrange(from as int, to as int),
{
    let mut s = String::new();
    let mut i: usize = from;
    while i < to
        invariant
            from <= i <= to <= chars.len(),
            s@ == chars@.subrange(from as int, i as int),
        decreases to - i,
    {
        s.push(chars[i]);
        i = i + 1;
        assert(s@ =~= chars@.subrange(from as int, i as int));
    }
    s
}

/// Replaces the placeholders of a text by the values that the run holds.
pub fn substitute(text: &str, placeholders: &TextMap<String>) -> (r: String)
    ensures
        r@ == substituted(text@, value_texts(placeholders@)),
{
    let chars = to_chars(text);
    let ghost s = chars@;
    let ghost m = value_texts(placeholders@);
    let n = chars.len();
    let mut out = String::new();
    let mut i: usize = 0;
    assert(s.subrange(0, n as int) =~= s);
    assert(out@ + substituted(s, m) =~= substituted(s, m));
    while i < n
        invariant
            i <= n,
            n == chars.len(),
            s == chars@,
            m == value_texts(placeholders@),
            out@ + substituted(s.subrange(i as int, n as int), m) == substituted(s, m),
        decreases n - i,
    {
        let ghost rest = s.subrange(i as int, n as int);
        let ghost before = out@;
        assert(rest[0] == s[i as int]);
        let mut replaced = false;
        if chars[i] == '{' {
            let close = find_close(&chars, i + 1);
            proof {
                lemma_first_close_shift(s, i as int, 1);
            }
            if close < n {
                let name = slice_string(&chars, i + 1, close);
                assert(name@ =~= rest.subrange(1, close - i));
                match placeholders.get(name.as_str()) {
                    Some(value) => {
                        out.append(value.as_str());
                        proof {
                            assert(m[name@] == value@);
                            assert(rest.subrange(close - i + 1, rest.len() as int) =~= s.subrange(
                                close + 1,
                                n as int,
                            ));
                            assert(out@ + substituted(s.subrange(close + 1, n as int), m) =~= before
                                + substituted(rest, m));
                        }
                        i = close + 1;
                        replaced = true;
                    },
                    None => {},
                }
            }
        }
        if !replaced {
            out.push(chars[i]);
            proof {
                assert(rest.drop_first() =~= s.subrange(i + 1, n as int));
                assert(out@ + substituted(s.subrange(i + 1, n as int), m) =~= before + substituted(
                    rest,
                    m,
                ));
            }
            i = i + 1;
        }
    }
    assert(out@ + substituted(s.subrange(n as int, n as int), m) =~= out@);
    out
}

/// An optional text with its placeholders replaced.
pub open spec fn opt_substituted(o: Option<Seq<char>>, m: Map<Seq<char>, Seq<char>>) -> Option<
    Seq<char>,
> {
    match o {
        Some(s) => Some(substituted(s, m)),
        None => None,
    }
}

/// A command with the placeholders replaced in every text that it holds.
pub open spec fn command_substituted(cmd: RapsCommandView, m: Map<Seq<char>, Seq<char>>)
    -> RapsCommandView {
    match cmd {
        RapsCommandView::Auth { action } => cmd,
        RapsCommandView::Bucket { action, params } => RapsCommandView::Bucket {
            action,
            params: BucketParamsView {
                bucket_name: opt_substituted(params.bucket_name, m),
                retention_policy: opt_substituted(params.retention_policy, m),
                region: opt_substituted(params.region, m),
                force: params.force,
            },
        },
        RapsCommandView::Object { action, params } => RapsCommandView::Object {
            action,
            params: ObjectParamsView {
                bucket_name: substituted(params.bucket_name, m),
                object_key: opt_substituted(params.object_key, m),
                file_path: opt_substituted(params.file_path, m),
                batch: params.batch,
                expires_in: params.expires_in,
            },
        },
        RapsCommandView::Translate { action, params } => RapsCommandView::Translate {
            action,
            params: TranslateParamsView {
                urn: opt_substituted(params.urn, m),
                format: opt_substituted(params.format, m),
                output_dir: opt_substituted(params.output_dir, m),
                wait: params.wait,
            },
        },
        RapsCommandView::DataManagement { action, params } => RapsCommandView::DataManagement {
            action,
            params: DataMgmtParamsView {
                hub_id: opt_substituted(params.hub_id, m),
                project_id: opt_substituted(params.project_id, m),
                folder_id: opt_substituted(params.folder_id, m),
                item_id: opt_substituted(params.item_id, m),
                folder_name: opt_substituted(params.folder_name, m),
            },
        },
        RapsCommandView::DesignAutomation { action, params } => RapsCommandView::DesignAutomation {
            action,
            params: DesignAutoParamsView {
                app_bundle_id: opt_substituted(params.app_bundle_id, m),
                activity_id: opt_substituted(params.activity_id, m),
                work_item_id: opt_substituted(params.work_item_id, m),
                input_file: opt_substituted(params.input_file, m),
                output_file: opt_substituted(params.output_file, m),
            },
        },
        RapsCommandView::Custom { command, args } => RapsCommandView::Custom {
            command: substituted(command, m),
            args: args.map_values(|a: Seq<char>| substituted(a, m)),
        },
    }
}

fn substitute_opt(o: &Option<String>, placeholders: &TextMap<String>) -> (r: Option<String>)
    ensures
        opt_text(r) == opt_substituted(opt_text(*o), value_texts(placeholders@)),
{
    match o {
        Some(s) => Some(substitute(s.as_str(), placeholders)),
        None => None,
    }
}

fn substitute_all(v: &Vec<String>, placeholders: &TextMap<String>) -> (r: Vec<String>)
    ensures
        texts(r@) == texts(v@).map_values(
            |a: Seq<char>| substituted(a, value_texts(placeholders@)),
        ),
{
    let ghost m = value_texts(placeholders@);
    let ghost goal = texts(v@).map_values(|a: Seq<char>| substituted(a, m));
    let mut r: Vec<String> = Vec::new();
    let mut i: usize = 0;
    while i < v.len()
        invariant
            i <= v.len(),
            m == value_texts(placeholders@),
            goal == texts(v@).map_values(|a: Seq<char>| substituted(a, m)),
            texts(r@) == goal.take(i as int),
        decreases v.len() - i,
    {
        let ghost prior = texts(r@);
        let s = substitute(v[i].as_str(), placeholders);
        r.push(s);
        i = i + 1;
        assert(texts(r@) =~= prior.push(s@));
        assert(goal.take(i as int) =~= goal.take(i - 1).push(s@));
    }
    assert(goal.take(v.len() as int) =~= goal);
    r
}

/// The command with every placeholder of a known name replaced by its
/// value, in every text of the command.
pub fn substitute_command(command: &RapsCommand, placeholders: &TextMap<String>) -> (r: RapsCommand)
    ensures
        r@ == command_substituted(command@, value_texts(placeholders@)),
{
    match command {
        RapsCommand::Auth { action } => RapsCommand::Auth { action: *action },
        RapsCommand::Bucket { action, params } => RapsCommand::Bucket {
            action: *action,
            params: BucketParams {
                bucket_name: substitute_opt(&params.bucket_name, placeholders),
                retention_policy: substitute_opt(&params.retention_policy, placeholders),
                region: substitute_opt(&params.region, placeholders),
                force: params.force,
            },
        },
        RapsCommand::Object { action, params } => RapsCommand::Object {
            action: *action,
            params: ObjectParams {
                bucket_name: substitute(params.bucket_name.as_str(), placeholders),
                object_key: substitute_opt(&params.object_key, placeholders),
                file_path: substitute_opt(&params.file_path, placeholders),
                batch: params.batch,
                expires_in: params.expires_in,
            },
        },
        RapsCommand::Translate { action, params } => RapsCommand::Translate {
            action: *action,
            params: TranslateParams {
                urn: substitute_opt(&params.urn, placeholders),
                format: substitute_opt(&params.format, placeholders),
                output_dir: substitute_opt(&params.output_dir, placeholders),
                wait: params.wait,
            },
        },
        RapsCommand::DataManagement { action, params } => RapsCommand::DataManagement {
            action: *action,
            params: DataMgmtParams {
                hub_id: substitute_opt(&params.hub_id, placeholders),
                project_id: substitute_opt(&params.project_id, placeholders),
                folder_id: substitute_opt(&params.folder_id, placeholders),
                item_id: substitute_opt(&params.item_id, placeholders),
                folder_name: substitute_opt(&params.folder_name, placeholders),
            },
        },
        RapsCommand::DesignAutomation { action, params } => RapsCommand::DesignAutomation {
            action: *action,
            params: DesignAutoParams {
                app_bundle_id: substitute_opt(&params.app_bundle_id, placeholders),
                activity_id: substitute_opt(&params.activity_id, placeholders),
                work_item_id: substitute_opt(&params.work_item_id, placeholders),
                input_file: substitute_opt(&params.input_file, placeholders),
                output_file: substitute_opt(&params.output_file, placeholders),
            },
        },
        RapsCommand::Custom { command: program, args } => RapsCommand::Custom {
            command: substitute(program.as_str(), placeholders),
            args: substitute_all(args, placeholders),
        },
    }
}

/// The commands with their placeholders replaced, one by one.
pub fn substitute_commands(commands: &Vec<RapsCommand>, placeholders: &TextMap<String>) -> (r: Vec<
    RapsCommand,
>)
    ensures
        command_views(r@) == command_views(commands@).map_values(
            |c: RapsCommandView| command_substituted(c, value_texts(placeholders@)),
        ),
{
    let ghost m = value_texts(placeholders@);
    let ghost goal = command_views(commands@).map_values(
        |c: RapsCommandView| command_substituted(c, m),
    );
    let mut r: Vec<RapsCommand> = Vec::new();
    let mut i: usize = 0;
    while i < commands.len()
        invariant
            i <= commands.len(),
            m == value_texts(placeholders@),
            goal == command_views(commands@).map_values(
                |c: RapsCommandView| command_substituted(c, m),
            ),
            command_views(r@) == goal.take(i as int),
        decreases commands.len() - i,
    {
        let ghost prior = command_views(r@);
        let c = substitute_command(&commands[i], placeholders);
        r.push(c);
        i = i + 1;
        assert(command_views(r@) =~= prior.push(c@));
        assert(goal.take(i as int) =~= goal.take(i - 1).push(c@));
    }
    assert(goal.take(commands.len() as int) =~= goal);
    r
}

} // verus!
