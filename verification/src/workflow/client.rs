//! The boundary to the external tool: the argument vector that a typed
//! command becomes, and the record of what an invocation gave back.

use vstd::prelude::*;
use crate::text::{texts, opt_text, owned, blank, is_blank, decimal, decimal_string, signed_decimal,
    signed_decimal_string};
use crate::text_map::TextMap;
use crate::workflow::types::{RapsCommand, RapsCommandView, AuthAction, BucketAction, BucketParamsView,
    ObjectAction, ObjectParamsView, TranslateAction, TranslateParamsView, DataMgmtAction,
    DataMgmtParamsView, DesignAutoAction, DesignAutoParamsView, BucketParams, ObjectParams,
    TranslateParams, DataMgmtParams, DesignAutoParams};

verus! {

/// A value that is present stands as one argument; an absent one as none.
pub open spec fn positional(value: Option<Seq<char>>) -> Seq<Seq<char>> {
    match value {
        Some(v) => seq![v],
        None => seq![],
    }
}

/// A value that is present stands behind its flag; an absent one leaves the
/// flag out too.
pub open spec fn flagged(flag: Seq<char>, value: Option<Seq<char>>) -> Seq<Seq<char>> {
    match value {
        Some(v) => seq![flag, v],
        None => seq![],
    }
}

/// A flag that stands only where the setting is present and true.
pub open spec fn switch(flag: Seq<char>, on: Option<bool>) -> Seq<Seq<char>> {
    if on == Some(true) {
        seq![flag]
    } else {
        seq![]
    }
}

/// The decimal text of a number that is present.
pub open spec fn opt_decimal(value: Option<u64>) -> Option<Seq<char>> {
    match value {
        Some(n) => Some(decimal(n as nat)),
        None => None,
    }
}

pub open spec fn auth_args(action: AuthAction) -> Seq<Seq<char>> {
    match action {
        AuthAction::Login => seq!["auth"@, "login"@],
        AuthAction::Logout => seq!["auth"@, "logout"@],
        AuthAction::Status => seq!["auth"@, "status"@],
        AuthAction::Refresh => seq!["auth"@, "refresh"@],
    }
}

pub open spec fn bucket_args(action: BucketAction, p: BucketParamsView) -> Seq<Seq<char>> {
    match action {
        BucketAction::Create => seq!["bucket"@, "create"@] + flagged("--key"@, p.bucket_name)
            + flagged("--policy"@, p.retention_policy) + flagged("--region"@, p.region),
        BucketAction::Delete => seq!["bucket"@, "delete"@] + flagged("--key"@, p.bucket_name)
            + switch("--yes"@, p.force),
        BucketAction::List => seq!["bucket"@, "list"@],
        BucketAction::Details => seq!["bucket"@, "details"@] + flagged("--key"@, p.bucket_name),
    }
}

pub open spec fn object_args(action: ObjectAction, p: ObjectParamsView) -> Seq<Seq<char>> {
    match action {
        ObjectAction::Upload => seq!["object"@, "upload"@, p.bucket_name] + positional(p.file_path)
            + flagged("--key"@, p.object_key) + switch("--batch"@, p.batch),
        ObjectAction::Download => seq!["object"@, "download"@, p.bucket_name] + positional(
            p.object_key,
        ) + flagged("--output"@, p.file_path),
        ObjectAction::Delete => seq!["object"@, "delete"@, p.bucket_name] + positional(
            p.object_key,
        ),
        ObjectAction::List => seq!["object"@, "list"@, p.bucket_name],
        ObjectAction::Details => seq!["object"@, "details"@, p.bucket_name] + positional(
            p.object_key,
        ),
        ObjectAction::SignedUrl => seq!["object"@, "signed-url"@, p.bucket_name] + positional(
            p.object_key,
        ) + flagged("--expires-in"@, opt_decimal(p.expires_in)),
    }
}

pub open spec fn translate_args(action: TranslateAction, p: TranslateParamsView) -> Seq<
    Seq<char>,
> {
    match action {
        TranslateAction::Start => seq!["translate"@, "start"@] + positional(p.urn) + flagged(
            "--format"@,
            p.format,
        ) + switch("--wait"@, p.wait),
        TranslateAction::Status => seq!["translate"@, "status"@] + positional(p.urn),
        TranslateAction::Download => seq!["translate"@, "download"@] + positional(p.urn)
            + flagged("--output"@, p.output_dir),
        TranslateAction::Manifest => seq!["translate"@, "manifest"@] + positional(p.urn),
    }
}

pub open spec fn data_management_args(action: DataMgmtAction, p: DataMgmtParamsView) -> Seq<
    Seq<char>,
> {
    match action {
        DataMgmtAction::HubList => seq!["hub"@, "list"@],
        DataMgmtAction::ProjectList => seq!["project"@, "list"@] + positional(p.hub_id),
        DataMgmtAction::FolderList => seq!["folder"@, "list"@] + positional(p.project_id)
            + positional(p.folder_id),
        DataMgmtAction::FolderCreate => seq!["folder"@, "create"@] + positional(p.project_id)
            + positional(p.folder_name),
        DataMgmtAction::ItemVersions => seq!["item"@, "versions"@] + positional(p.project_id)
            + positional(p.item_id),
        DataMgmtAction::ItemBind => seq!["item"@, "bind"@] + positional(p.project_id)
            + positional(p.item_id),
    }
}

pub open spec fn design_automation_args(action: DesignAutoAction, p: DesignAutoParamsView) -> Seq<
    Seq<char>,
> {
    match action {
        DesignAutoAction::AppBundles => seq!["da"@, "appbundles"@] + positional(p.app_bundle_id),
        DesignAutoAction::Activities => seq!["da"@, "activities"@] + positional(p.activity_id),
        DesignAutoAction::WorkItemRun => seq!["da"@, "workitem"@, "run"@] + positional(
            p.activity_id,
        ) + flagged("--input"@, p.input_file) + flagged("--output"@, p.output_file),
        DesignAutoAction::WorkItemGet => seq!["da"@, "workitem"@, "get"@] + positional(
            p.work_item_id,
        ),
    }
}

/// The arguments that are proper to the command, before the flags that
/// every invocation gets.
pub open spec fn command_args(cmd: RapsCommandView) -> Seq<Seq<char>> {
    match cmd {
        RapsCommandView::Auth { action } => auth_args(action),
        RapsCommandView::Bucket { action, params } => bucket_args(action, params),
        RapsCommandView::Object { action, params } => object_args(action, params),
        RapsCommandView::Translate { action, params } => translate_args(action, params),
        RapsCommandView::DataManagement { action, params } => data_management_args(
            action,
            params,
        ),
        RapsCommandView::DesignAutomation { action, params } => design_automation_args(
            action,
            params,
        ),
        RapsCommandView::Custom { command, args } => seq![command] + args,
    }
}

/// The flags at the end of every invocation: no prompts, output as JSON.
pub open spec fn tail_flags() -> Seq<Seq<char>> {
    seq!["--non-interactive"@, "--output"@, "json"@]
}

/// The argument vector of a command: a function of the command alone.
pub open spec fn argv(cmd: RapsCommandView) -> Seq<Seq<char>> {
    command_args(cmd) + tail_flags()
}

fn push_word(args: &mut Vec<String>, word: &str)
    ensures
        texts(final(args)@) == texts(old(args)@) + seq![word@],
{
    args.push(owned(word));
    assert(texts(args@) =~= texts(old(args)@) + seq![word@]);
}

fn push_positional(args: &mut Vec<String>, value: &Option<String>)
    ensures
        texts(final(args)@) == texts(old(args)@) + positional(opt_text(*value)),
{
    match value {
        Some(v) => {
            args.push(v.clone());
        },
        None => {},
    }
    assert(texts(args@) =~= texts(old(args)@) + positional(opt_text(*value)));
}

fn push_flagged(args: &mut Vec<String>, flag: &str, value: &Option<String>)
    ensures
        texts(final(args)@) == texts(old(args)@) + flagged(flag@, opt_text(*value)),
{
    match value {
        Some(v) => {
            args.push(owned(flag));
            args.push(v.clone());
        },
        None => {},
    }
    assert(texts(args@) =~= texts(old(args)@) + flagged(flag@, opt_text(*value)));
}

fn push_switch(args: &mut Vec<String>, flag: &str, on: Option<bool>)
    ensures
        texts(final(args)@) == texts(old(args)@) + switch(flag@, on),
{
    match on {
        Some(true) => {
            args.push(owned(flag));
        },
        _ => {},
    }
    assert(texts(args@) =~= texts(old(args)@) + switch(flag@, on));
}

fn push_all(args: &mut Vec<String>, more: &Vec<String>)
    ensures
        texts(final(args)@) == texts(old(args)@) + texts(more@),
{
    let mut i: usize = 0;
    while i < more.len()
        invariant
            i <= more.len(),
            texts(args@) == texts(old(args)@) + texts(more@).take(i as int),
        decreases more.len() - i,
    {
        let ghost prior = texts(args@);
        let word = more[i].clone();
        args.push(word);
        i = i + 1;
        assert(texts(args@) =~= prior.push(word@));
        assert(texts(more@).take(i as int) =~= texts(more@).take(i - 1).push(word@));
        assert(texts(args@) =~= texts(old(args)@) + texts(more@).take(i as int));
    }
    assert(texts(more@).take(more.len() as int) =~= texts(more@));
}

fn build_auth(action: &AuthAction) -> (args: Vec<String>)
    ensures
        texts(args@) == auth_args(*action),
{
    let mut args: Vec<String> = Vec::new();
    push_word(&mut args, "auth");
    match action {
        AuthAction::Login => push_word(&mut args, "login"),
        AuthAction::Logout => push_word(&mut args, "logout"),
        AuthAction::Status => push_word(&mut args, "status"),
        AuthAction::Refresh => push_word(&mut args, "refresh"),
    }
    assert(texts(args@) =~= auth_args(*action));
    args
}

fn build_bucket(action: &BucketAction, params: &BucketParams) -> (args: Vec<String>)
    ensures
        texts(args@) == bucket_args(*action, params@),
{
    let mut args: Vec<String> = Vec::new();
    push_word(&mut args, "bucket");
    match action {
        BucketAction::Create => {
            push_word(&mut args, "create");
            push_flagged(&mut args, "--key", &params.bucket_name);
            push_flagged(&mut args, "--policy", &params.retention_policy);
            push_flagged(&mut args, "--region", &params.region);
        },
        BucketAction::Delete => {
            push_word(&mut args, "delete");
            push_flagged(&mut args, "--key", &params.bucket_name);
            push_switch(&mut args, "--yes", params.force);
        },
        BucketAction::List => {
            push_word(&mut args, "list");
        },
        BucketAction::Details => {
            push_word(&mut args, "details");
            push_flagged(&mut args, "--key", &params.bucket_name);
        },
    }
    assert(texts(args@) =~= bucket_args(*action, params@));
    args
}

fn build_object(action: &ObjectAction, params: &ObjectParams) -> (args: Vec<String>)
    ensures
        texts(args@) == object_args(*action, params@),
{
    let mut args: Vec<String> = Vec::new();
    push_word(&mut args, "object");
    match action {
        ObjectAction::Upload => {
            push_word(&mut args, "upload");
            push_word(&mut args, params.bucket_name.as_str());
            push_positional(&mut args, &params.file_path);
            push_flagged(&mut args, "--key", &params.object_key);
            push_switch(&mut args, "--batch", params.batch);
        },
        ObjectAction::Download => {
            push_word(&mut args, "download");
            push_word(&mut args, params.bucket_name.as_str());
            push_positional(&mut args, &params.object_key);
            push_flagged(&mut args, "--output", &params.file_path);
        },
        ObjectAction::Delete => {
            push_word(&mut args, "delete");
            push_word(&mut args, params.bucket_name.as_str());
            push_positional(&mut args, &params.object_key);
        },
        ObjectAction::List => {
            push_word(&mut args, "list");
            push_word(&mut args, params.bucket_name.as_str());
        },
        ObjectAction::Details => {
            push_word(&mut args, "details");
            push_word(&mut args, params.bucket_name.as_str());
            push_positional(&mut args, &params.object_key);
        },
        ObjectAction::SignedUrl => {
            push_word(&mut args, "signed-url");
            push_word(&mut args, params.bucket_name.as_str());
            push_positional(&mut args, &params.object_key);
            let expires: Option<String> = match params.expires_in {
                Some(n) => Some(decimal_string(n)),
                None => None,
            };
            push_flagged(&mut args, "--expires-in", &expires);
        },
    }
    assert(texts(args@) =~= object_args(*action, params@));
    args
}

fn build_translate(action: &TranslateAction, params: &TranslateParams) -> (args: Vec<String>)
    ensures
        texts(args@) == translate_args(*action, params@),
{
    let mut args: Vec<String> = Vec::new();
    push_word(&mut args, "translate");
    match action {
        TranslateAction::Start => {
            push_word(&mut args, "start");
            push_positional(&mut args, &params.urn);
            push_flagged(&mut args, "--format", &params.format);
            push_switch(&mut args, "--wait", params.wait);
        },
        TranslateAction::Status => {
            push_word(&mut args, "status");
            push_positional(&mut args, &params.urn);
        },
        TranslateAction::Download => {
            push_word(&mut args, "download");
            push_positional(&mut args, &params.urn);
            push_flagged(&mut args, "--output", &params.output_dir);
        },
        TranslateAction::Manifest => {
            push_word(&mut args, "manifest");
            push_positional(&mut args, &params.urn);
        },
    }
    assert(texts(args@) =~= translate_args(*action, params@));
    args
}

fn build_data_management(action: &DataMgmtAction, params: &DataMgmtParams) -> (args: Vec<String>)
    ensures
        texts(args@) == data_management_args(*action, params@),
{
    let mut args: Vec<String> = Vec::new();
    match action {
        DataMgmtAction::HubList => {
            push_word(&mut args, "hub");
            push_word(&mut args, "list");
        },
        DataMgmtAction::ProjectList => {
            push_word(&mut args, "project");
            push_word(&mut args, "list");
            push_positional(&mut args, &params.hub_id);
        },
        DataMgmtAction::FolderList => {
            push_word(&mut args, "folder");
            push_word(&mut args, "list");
            push_positional(&mut args, &params.project_id);
            push_positional(&mut args, &params.folder_id);
        },
        DataMgmtAction::FolderCreate => {
            push_word(&mut args, "folder");
            push_word(&mut args, "create");
            push_positional(&mut args, &params.project_id);
            push_positional(&mut args, &params.folder_name);
        },
        DataMgmtAction::ItemVersions => {
            push_word(&mut args, "item");
            push_word(&mut args, "versions");
            push_positional(&mut args, &params.project_id);
            push_positional(&mut args, &params.item_id);
        },
        DataMgmtAction::ItemBind => {
            push_word(&mut args, "item");
            push_word(&mut args, "bind");
            push_positional(&mut args, &params.project_id);
            push_positional(&mut args, &params.item_id);
        },
    }
    assert(texts(args@) =~= data_management_args(*action, params@));
    args
}

fn build_design_automation(action: &DesignAutoAction, params: &DesignAutoParams) -> (args: Vec<
    String,
>)
    ensures
        texts(args@) == design_automation_args(*action, params@),
{
    let mut args: Vec<String> = Vec::new();
    push_word(&mut args, "da");
    match action {
        DesignAutoAction::AppBundles => {
            push_word(&mut args, "appbundles");
            push_positional(&mut args, &params.app_bundle_id);
        },
        DesignAutoAction::Activities => {
            push_word(&mut args, "activities");
            push_positional(&mut args, &params.activity_id);
        },
        DesignAutoAction::WorkItemRun => {
            push_word(&mut args, "workitem");
            push_word(&mut args, "run");
            push_positional(&mut args, &params.activity_id);
            push_flagged(&mut args, "--input", &params.input_file);
            push_flagged(&mut args, "--output", &params.output_file);
        },
        DesignAutoAction::WorkItemGet => {
            push_word(&mut args, "workitem");
            push_word(&mut args, "get");
            push_positional(&mut args, &params.work_item_id);
        },
    }
    assert(texts(args@) =~= design_automation_args(*action, params@));
    args
}

/// How the external tool is reached.
#[derive(Debug, Clone)]
pub struct RapsClientConfig {
    /// Name or path of the program.
    pub raps_binary_path: String,
    /// Deadline of one invocation, in seconds.
    pub default_timeout: u64,
    /// Whether the caller wants the output read as JSON.
    pub parse_json_output: bool,
    /// Environment variables for the child process.
    pub environment: TextMap<String>,
}

impl Default for RapsClientConfig {
    fn default() -> (c: Self)
        ensures
            c.raps_binary_path@ == "raps"@,
            c.default_timeout == 300,
            c.parse_json_output,
            c.environment@ == Map::<Seq<char>, String>::empty(),
    {
        RapsClientConfig {
            raps_binary_path: owned("raps"),
            default_timeout: 300,
            parse_json_output: true,
            environment: TextMap::new(),
        }
    }
}

/// The client of the external tool: it turns typed commands into argument
/// vectors and judges what an invocation gave back.
#[derive(Debug)]
pub struct RapsClient {
    config: RapsClientConfig,
}

impl RapsClient {
    /// A client with the default configuration.
    pub fn new() -> (c: Self)
        ensures
            c.config().raps_binary_path@ == "raps"@,
            c.config().default_timeout == 300,
            c.config().parse_json_output,
            c.config().environment@ == Map::<Seq<char>, String>::empty(),
    {
        RapsClient { config: RapsClientConfig::default() }
    }

    /// A client with the configuration given.
    pub fn with_config(config: RapsClientConfig) -> (c: Self)
        ensures
            *c.config() == config,
    {
        RapsClient { config }
    }

    /// The configuration of the client.
    #[verifier::when_used_as_spec(config_spec)]
    pub fn config(&self) -> (c: &RapsClientConfig)
        ensures
            c == self.config_spec(),
    {
        &self.config
    }

    pub closed spec fn config_spec(&self) -> &RapsClientConfig {
        &self.config
    }

    /// The argument vector for a command: what is proper to the command,
    /// then `--non-interactive`, `--output` and `json`.
    pub fn build_command_args(&self, command: &RapsCommand) -> (args: Vec<String>)
        ensures
            texts(args@) == argv(command@),
    {
        let mut args: Vec<String> = match command {
            RapsCommand::Auth { action } => build_auth(action),
            RapsCommand::Bucket { action, params } => build_bucket(action, params),
            RapsCommand::Object { action, params } => build_object(action, params),
            RapsCommand::Translate { action, params } => build_translate(action, params),
            RapsCommand::DataManagement { action, params } => build_data_management(
                action,
                params,
            ),
            RapsCommand::DesignAutomation { action, params } => build_design_automation(
                action,
                params,
            ),
            RapsCommand::Custom { command: program, args: custom } => {
                let mut a: Vec<String> = Vec::new();
                push_word(&mut a, program.as_str());
                push_all(&mut a, custom);
                assert(texts(a@) =~= seq![program@] + texts(custom@));
                a
            },
        };
        push_word(&mut args, "--non-interactive");
        push_word(&mut args, "--output");
        push_word(&mut args, "json");
        assert(texts(args@) =~= argv(command@));
        args
    }

    /// The command that asks the tool for its version.
    pub fn version_command() -> (cmd: RapsCommand)
        ensures
            cmd@ == (RapsCommandView::Custom { command: "--version"@, args: seq![] }),
    {
        let cmd = RapsCommand::Custom { command: owned("--version"), args: Vec::new() };
        assert(texts(Seq::<String>::empty()) =~= Seq::<Seq<char>>::empty());
        cmd
    }

    /// The command that asks the tool whether the user is logged in.
    pub fn auth_status_command() -> (cmd: RapsCommand)
        ensures
            cmd@ == (RapsCommandView::Auth { action: AuthAction::Status }),
    {
        RapsCommand::Auth { action: AuthAction::Status }
    }
}

/// One member of the JSON object that a command printed, as far as a run
/// reads it.
#[derive(Debug, Clone, PartialEq, Eq)]
pub struct JsonMember {
    pub key: String,
    /// The value, where it is a string.
    pub text: Option<String>,
    /// The value written as a decimal, where it is a number that a double
    /// can stand for.
    pub number: Option<String>,
    /// The value, where it is an integer of at most 64 bits with sign.
    pub integer: Option<i64>,
    /// The value, where it is `true` or `false`.
    pub flag: Option<bool>,
}

pub struct JsonMemberView {
    pub key: Seq<char>,
    pub text: Option<Seq<char>>,
    pub number: Option<Seq<char>>,
    pub integer: Option<i64>,
    pub flag: Option<bool>,
}

impl View for JsonMember {
    type V = JsonMemberView;

    open spec fn view(&self) -> JsonMemberView {
        JsonMemberView {
            key: self.key@,
            text: opt_text(self.text),
            number: opt_text(self.number),
            integer: self.integer,
            flag: self.flag,
        }
    }
}

/// The views of a sequence of members.
pub open spec fn member_views(v: Seq<JsonMember>) -> Seq<JsonMemberView> {
    v.map_values(|m: JsonMember| m@)
}

/// What a command printed, read as JSON: an object with its members in the
/// order of their keys, or any other value.
#[derive(Debug, Clone, PartialEq, Eq)]
pub enum JsonOutput {
    Object(Vec<JsonMember>),
    Other,
}

pub enum JsonOutputView {
    Object(Seq<JsonMemberView>),
    Other,
}

impl View for JsonOutput {
    type V = JsonOutputView;

    open spec fn view(&self) -> JsonOutputView {
        match *self {
            JsonOutput::Object(members) => JsonOutputView::Object(member_views(members@)),
            JsonOutput::Other => JsonOutputView::Other,
        }
    }
}

/// The view of an output that may be absent.
pub open spec fn opt_output(o: Option<JsonOutput>) -> Option<JsonOutputView> {
    match o {
        Some(j) => Some(j@),
        None => None,
    }
}

/// What a text gives as the output of a command, read as JSON: nothing
/// where it is no JSON document.
pub uninterp spec fn json_reading(text: Seq<char>) -> Option<JsonOutputView>;

/// `serde_json::from_str` into a `serde_json::Value`, then
/// `Value::as_object` and, for each member, `Value::as_str`,
/// `Value::as_f64`, `Value::as_i64` and `Value::as_bool`: the reading of
/// the text as JSON, a function of the text alone. Nothing is returned
/// where the text is no JSON document.
#[verifier::external_body]
pub(crate) fn read_json(text: &str) -> (r: Option<JsonOutput>)
    ensures
        opt_output(r) == json_reading(text@),
{
    let value: serde_json::Value = serde_json::from_str(text).ok()?;
    Some(match value.as_object() {
        Some(map) => JsonOutput::Object(map.iter().map(|(k, v)| JsonMember {
            key: k.clone(),
            text: v.as_str().map(|s| s.to_string()),
            number: v.as_f64().map(|x| x.to_string()),
            integer: v.as_i64(),
            flag: v.as_bool(),
        }).collect()),
        None => JsonOutput::Other,
    })
}

/// A JSON document written out with line breaks and indentation: nothing
/// where the text is no JSON document.
pub uninterp spec fn json_pretty(text: Seq<char>) -> Option<Seq<char>>;

/// `serde_json::to_string_pretty` of the `serde_json::Value` that
/// `serde_json::from_str` reads from the text: the document written out
/// anew, a function of the text alone. Nothing is returned where the text
/// is no JSON document.
#[verifier::external_body]
pub(crate) fn pretty_json(text: &str) -> (r: Option<String>)
    ensures
        opt_text(r) == json_pretty(text@),
{
    let value: serde_json::Value = serde_json::from_str(text).ok()?;
    serde_json::to_string_pretty(&value).ok()
}

/// What one invocation of the external tool gave back.
#[derive(Debug, Clone)]
pub struct CommandResult {
    pub exit_code: i32,
    pub stdout: String,
    pub stderr: String,
    /// How long the invocation took, in milliseconds.
    pub duration: u64,
    /// The standard output read as JSON, where the command succeeded and
    /// printed a JSON document.
    pub json_output: Option<JsonOutput>,
    /// Whether the exit code is zero.
    pub success: bool,
}

pub struct CommandResultView {
    pub exit_code: i32,
    pub stdout: Seq<char>,
    pub stderr: Seq<char>,
    pub duration: u64,
    pub json_output: Option<JsonOutputView>,
    pub success: bool,
}

impl View for CommandResult {
    type V = CommandResultView;

    open spec fn view(&self) -> CommandResultView {
        CommandResultView {
            exit_code: self.exit_code,
            stdout: self.stdout@,
            stderr: self.stderr@,
            duration: self.duration,
            json_output: opt_output(self.json_output),
            success: self.success,
        }
    }
}

/// The message for an invocation that failed: the exit code, then the
/// error output and the standard output as far as they are not empty.
pub open spec fn failure_text(exit_code: i32, stdout: Seq<char>, stderr: Seq<char>) -> Seq<char> {
    "RAPS CLI command failed with exit code "@ + signed_decimal(exit_code as int) + (if stderr.len()
        > 0 {
        "\nError output: "@ + stderr
    } else {
        Seq::<char>::empty()
    }) + (if stdout.len() > 0 {
        "\nStandard output: "@ + stdout
    } else {
        Seq::<char>::empty()
    })
}

impl CommandResult {
    /// The record of an invocation whose output has been read already:
    /// `parsed` is kept where the exit code is zero and the standard output
    /// is not blank, and dropped otherwise.
    pub fn with_output(
        exit_code: i32,
        stdout: String,
        stderr: String,
        duration: u64,
        parsed: Option<JsonOutput>,
    ) -> (r: Self)
        ensures
            r.exit_code == exit_code,
            r.stdout == stdout,
            r.stderr == stderr,
            r.duration == duration,
            r.success == (exit_code == 0),
            r.json_output == if exit_code == 0 && !is_blank(stdout@) {
                parsed
            } else {
                None
            },
    {
        let success = exit_code == 0;
        let json_output = if success && !blank(stdout.as_str()) {
            parsed
        } else {
            None
        };
        CommandResult { exit_code, stdout, stderr, duration, json_output, success }
    }

    /// The record of an invocation. It succeeded exactly when the exit code
    /// is zero; the standard output of a success is read as JSON unless it
    /// is blank, and output that is no JSON leaves `json_output` empty.
    pub fn new(exit_code: i32, stdout: String, stderr: String, duration: u64) -> (r: Self)
        ensures
            r.exit_code == exit_code,
            r.stdout == stdout,
            r.stderr == stderr,
            r.duration == duration,
            r.success == (exit_code == 0),
            opt_output(r.json_output) == if exit_code == 0 && !is_blank(stdout@) {
                json_reading(stdout@)
            } else {
                None
            },
    {
        let parsed = if exit_code == 0 {
            read_json(stdout.as_str())
        } else {
            None
        };
        CommandResult::with_output(exit_code, stdout, stderr, duration, parsed)
    }

    /// The message for the reader where the invocation failed; nothing
    /// where it succeeded.
    pub fn error_message(&self) -> (m: Option<String>)
        ensures
            self.success ==> m is None,
            !self.success ==> m is Some && m->0@ == failure_text(
                self.exit_code,
                self.stdout@,
                self.stderr@,
            ),
    {
        if self.success {
            return None;
        }
        let mut message = owned("RAPS CLI command failed with exit code ");
        let code = signed_decimal_string(self.exit_code as i64);
        message.append(code.as_str());
        if self.stderr.as_str().unicode_len() > 0 {
            message.append("\nError output: ");
            message.append(self.stderr.as_str());
        }
        if self.stdout.as_str().unicode_len() > 0 {
            message.append("\nStandard output: ");
            message.append(self.stdout.as_str());
        }
        assert(message@ =~= failure_text(self.exit_code, self.stdout@, self.stderr@));
        Some(message)
    }
}

impl RapsClient {
    /// Judges the answer to the version command: the tool is usable exactly
    /// when the invocation succeeded; otherwise the error says why not.
    pub fn validate_raps_cli(result: &CommandResult) -> (r: Result<(), String>)
        ensures
            result.success <==> r is Ok,
            !result.success ==> r->Err_0@ == "RAPS CLI validation failed: "@ + failure_text(
                result.exit_code,
                result.stdout@,
                result.stderr@,
            ),
    {
        match result.error_message() {
            None => Ok(()),
            Some(m) => {
                let mut e = owned("RAPS CLI validation failed: ");
                e.append(m.as_str());
                Err(e)
            },
        }
    }

    /// Judges the answer to the status command: the user is logged in
    /// exactly when the invocation succeeded.
    pub fn check_auth_status(result: &CommandResult) -> (authenticated: bool)
        ensures
            authenticated == result.success,
    {
        result.success
    }
}

/// The argument vector is a function of the command: two vectors built for
/// commands with the same view are the same, text for text.
pub proof fn lemma_argv_deterministic(a: RapsCommand, b: RapsCommand)
    requires
        a@ == b@,
    ensures
        argv(a@) == argv(b@),
        argv(a@).len() >= 3,
        argv(a@).subrange(argv(a@).len() - 3, argv(a@).len() as int) == tail_flags(),
{
    let v = argv(a@);
    assert(v.subrange(v.len() - 3, v.len() as int) =~= tail_flags());
}

} // verus!
