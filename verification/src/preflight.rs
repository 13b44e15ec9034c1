//! The checks before a workflow runs: is the user logged in, and are the
//! files that the workflow needs on disk.
//!
//! The host looks for credentials and files; the checks judge what it
//! found.

use vstd::prelude::*;
use crate::text::{texts, owned, concat2, contains, is_substring, lowercase, lowercase_of, join,
    joined, decimal, decimal_string, holds_text};
use crate::assets::{AssetCategory, AssetDefinition, AssetDefinitionView, AssetRegistry, asset_views,
    last_segment, in_category};
use crate::workflow::types::{WorkflowMetadata, PrerequisiteType, Prerequisite, AssetPath};

verus! {

/// What the user can do about a check that failed.
#[derive(Debug, Clone)]
pub enum CheckAction {
    Login,
    DownloadAssets(Vec<AssetDefinition>),
    RunCommand(String),
    Instruction(String),
}

/// The outcome of one check.
#[derive(Debug, Clone)]
pub struct CheckResult {
    pub name: String,
    pub passed: bool,
    pub message: String,
    pub action: Option<CheckAction>,
}

pub enum CheckActionView {
    Login,
    DownloadAssets(Seq<AssetDefinitionView>),
    RunCommand(Seq<char>),
    Instruction(Seq<char>),
}

impl View for CheckAction {
    type V = CheckActionView;

    open spec fn view(&self) -> CheckActionView {
        match *self {
            CheckAction::Login => CheckActionView::Login,
            CheckAction::DownloadAssets(assets) => CheckActionView::DownloadAssets(
                asset_views(assets@),
            ),
            CheckAction::RunCommand(command) => CheckActionView::RunCommand(command@),
            CheckAction::Instruction(text) => CheckActionView::Instruction(text@),
        }
    }
}

pub struct CheckResultView {
    pub name: Seq<char>,
    pub passed: bool,
    pub message: Seq<char>,
    pub action: Option<CheckActionView>,
}

impl View for CheckResult {
    type V = CheckResultView;

    open spec fn view(&self) -> CheckResultView {
        CheckResultView {
            name: self.name@,
            passed: self.passed,
            message: self.message@,
            action: match self.action {
                Some(a) => Some(a@),
                None => None,
            },
        }
    }
}

/// The views of a sequence of checks.
pub open spec fn check_views(v: Seq<CheckResult>) -> Seq<CheckResultView> {
    v.map_values(|c: CheckResult| c@)
}

/// The outcome of all checks for a workflow.
#[derive(Debug, Clone)]
pub struct PreflightStatus {
    pub checks: Vec<CheckResult>,
    pub all_passed: bool,
    /// The names of the checks that stand in the way.
    pub blocking_checks: Vec<String>,
}

/// The place of the first check of the name given among the first `n`
/// checks.
pub open spec fn check_named(checks: Seq<CheckResult>, name: Seq<char>, n: int) -> Option<int>
    decreases n,
{
    if n <= 0 {
        None
    } else {
        match check_named(checks, name, n - 1) {
            Some(i) => Some(i),
            None => if checks[n - 1].name@ == name {
                Some(n - 1)
            } else {
                None
            },
        }
    }
}

impl PreflightStatus {
    /// A line for the reader: ready to run, or what is missing.
    pub fn summary(&self) -> (s: String)
        ensures
            s@ == if self.all_passed {
                "✓ Ready to run"@
            } else {
                "✗ Missing: "@ + joined(texts(self.blocking_checks@), ", "@)
            },
    {
        if self.all_passed {
            owned("✓ Ready to run")
        } else {
            let blockers = join(&self.blocking_checks, ", ");
            concat2("✗ Missing: ", blockers.as_str())
        }
    }

    fn find(&self, name: &str) -> (r: Option<&CheckResult>)
        ensures
            match check_named(self.checks@, name@, self.checks@.len() as int) {
                Some(i) => r is Some && *r->0 == self.checks@[i],
                None => r is None,
            },
    {
        let mut i: usize = 0;
        while i < self.checks.len()
            invariant
                i <= self.checks@.len(),
                check_named(self.checks@, name@, i as int) is None,
            decreases self.checks@.len() - i,
        {
            if crate::text::same_text(self.checks[i].name.as_str(), name) {
                proof {
                    lemma_check_named_sticks(
                        self.checks@,
                        name@,
                        i as int + 1,
                        self.checks@.len() as int,
                    );
                }
                return Some(&self.checks[i]);
            }
            i = i + 1;
        }
        None
    }

    /// The check of the login, if there is one.
    pub fn auth_status(&self) -> (r: Option<&CheckResult>)
        ensures
            match check_named(self.checks@, "Authentication"@, self.checks@.len() as int) {
                Some(i) => r is Some && *r->0 == self.checks@[i],
                None => r is None,
            },
    {
        self.find("Authentication")
    }

    /// The check of the assets, if there is one.
    pub fn assets_status(&self) -> (r: Option<&CheckResult>)
        ensures
            match check_named(self.checks@, "Assets"@, self.checks@.len() as int) {
                Some(i) => r is Some && *r->0 == self.checks@[i],
                None => r is None,
            },
    {
        self.find("Assets")
    }
}

proof fn lemma_check_named_sticks(checks: Seq<CheckResult>, name: Seq<char>, n: int, m: int)
    requires
        0 <= n <= m,
        check_named(checks, name, n) is Some,
    ensures
        check_named(checks, name, m) == check_named(checks, name, n),
    decreases m - n,
{
    if n < m {
        lemma_check_named_sticks(checks, name, n, m - 1);
    }
}

/// Some prerequisite among the first `n` asks for a login.
pub open spec fn asks_for_login(prerequisites: Seq<Prerequisite>, n: int) -> bool
    decreases n,
{
    if n <= 0 {
        false
    } else {
        asks_for_login(prerequisites, n - 1) || prerequisites[n - 1].prerequisite_type
            == PrerequisiteType::Authentication
    }
}

/// The required assets among the first `n` that are not among the
/// existing ones, in their order.
pub open spec fn missing_among(required: Seq<Seq<char>>, existing: Seq<Seq<char>>, n: int) -> Seq<
    Seq<char>,
>
    decreases n,
{
    if n <= 0 {
        Seq::empty()
    } else {
        let earlier = missing_among(required, existing, n - 1);
        if existing.contains(required[n - 1]) {
            earlier
        } else {
            earlier.push(required[n - 1])
        }
    }
}

/// The category that a path speaks of, by the name of the product in it.
pub open spec fn category_in(path: Seq<char>) -> Option<AssetCategory> {
    if is_substring(path, "inventor"@) {
        Some(AssetCategory::Inventor)
    } else if is_substring(path, "revit"@) {
        Some(AssetCategory::Revit)
    } else if is_substring(path, "autocad"@) {
        Some(AssetCategory::AutoCAD)
    } else if is_substring(path, "fusion"@) {
        Some(AssetCategory::Fusion)
    } else if is_substring(path, "civil"@) {
        Some(AssetCategory::Civil3D)
    } else {
        None
    }
}

/// The asset fits the path by one of the known patterns. The path is in
/// lower case.
pub open spec fn fits(path: Seq<char>, asset: AssetDefinitionView) -> bool {
    let file = lowercase_of(last_segment(asset.url));
    let name = lowercase_of(asset.name);
    ||| (is_substring(path, "stapler"@) && is_substring(file, "inventor"@) && is_substring(
        file,
        "sample"@,
    ))
    ||| (is_substring(path, "basic"@) && is_substring(path, "revit"@) && is_substring(
        name,
        "basic"@,
    ))
    ||| (is_substring(path, "advanced"@) && is_substring(path, "revit"@) && is_substring(
        name,
        "advanced"@,
    ))
}

/// The place of the first asset among the first `n` that fits the path.
pub open spec fn first_fit(path: Seq<char>, assets: Seq<AssetDefinitionView>, n: int) -> Option<int>
    decreases n,
{
    if n <= 0 {
        None
    } else {
        match first_fit(path, assets, n - 1) {
            Some(i) => Some(i),
            None => if fits(path, assets[n - 1]) {
                Some(n - 1)
            } else {
                None
            },
        }
    }
}

proof fn lemma_first_fit_sticks(path: Seq<char>, assets: Seq<AssetDefinitionView>, n: int, m: int)
    requires
        0 <= n <= m,
        first_fit(path, assets, n) is Some,
    ensures
        first_fit(path, assets, m) == first_fit(path, assets, n),
    decreases m - n,
{
    if n < m {
        lemma_first_fit_sticks(path, assets, n, m - 1);
    }
}

/// The asset to download for a path that is missing: among the assets of
/// the category that the path speaks of, the first that fits the path, and
/// else the first of all. The path is in lower case.
pub open spec fn matching(path: Seq<char>, assets: Seq<AssetDefinition>) -> Option<
    AssetDefinitionView,
> {
    match category_in(path) {
        None => None,
        Some(category) => {
            let candidates = asset_views(in_category(assets, category, assets.len() as int));
            match first_fit(path, candidates, candidates.len() as int) {
                Some(i) => Some(candidates[i]),
                None => if candidates.len() > 0 {
                    Some(candidates[0])
                } else {
                    None
                },
            }
        },
    }
}

/// Some asset of the sequence has the name given.
pub open spec fn has_named(assets: Seq<AssetDefinitionView>, name: Seq<char>) -> bool {
    exists|k: int| 0 <= k < assets.len() && (#[trigger] assets[k]).name == name
}

/// The assets to offer for the first `n` missing paths: for each path the
/// asset that matches it, each asset once, in the order of the paths.
pub open spec fn offered(missing: Seq<Seq<char>>, known: Seq<AssetDefinition>, n: int) -> Seq<
    AssetDefinitionView,
>
    decreases n,
{
    if n <= 0 {
        Seq::empty()
    } else {
        let earlier = offered(missing, known, n - 1);
        match matching(lowercase_of(missing[n - 1]), known) {
            Some(a) => if has_named(earlier, a.name) {
                earlier
            } else {
                earlier.push(a)
            },
            None => earlier,
        }
    }
}

/// The check of the login for a workflow.
pub open spec fn login_check(prerequisites: Seq<Prerequisite>, has_credentials: bool)
    -> CheckResultView {
    let asked = asks_for_login(prerequisites, prerequisites.len() as int);
    CheckResultView {
        name: "Authentication"@,
        passed: !asked || has_credentials,
        message: if !asked {
            "Not required for this workflow"@
        } else if has_credentials {
            "APS credentials found"@
        } else {
            "APS authentication required"@
        },
        action: if !asked || has_credentials {
            None
        } else {
            Some(CheckActionView::Login)
        },
    }
}

/// The check of the assets for a workflow.
pub open spec fn assets_check(
    required: Seq<Seq<char>>,
    existing: Seq<Seq<char>>,
    known: Seq<AssetDefinition>,
) -> CheckResultView {
    let missing = missing_among(required, existing, required.len() as int);
    let offer = offered(missing, known, missing.len() as int);
    if required.len() == 0 {
        CheckResultView {
            name: "Assets"@,
            passed: true,
            message: "No assets required"@,
            action: None,
        }
    } else if missing.len() == 0 {
        CheckResultView {
            name: "Assets"@,
            passed: true,
            message: decimal(required.len()) + " asset(s) available"@,
            action: None,
        }
    } else if offer.len() == 0 {
        CheckResultView {
            name: "Assets"@,
            passed: false,
            message: decimal(missing.len()) + " file(s) missing"@,
            action: Some(CheckActionView::Instruction("Missing files: "@ + debug_list(missing))),
        }
    } else {
        CheckResultView {
            name: "Assets"@,
            passed: false,
            message: decimal(offer.len()) + " asset(s) need download"@,
            action: Some(CheckActionView::DownloadAssets(offer)),
        }
    }
}

/// The checks for the first `n` prerequisites beyond login and assets:
/// one that passes for each that asks for permissions or for an external
/// tool.
pub open spec fn further_checks(prerequisites: Seq<Prerequisite>, n: int) -> Seq<CheckResultView>
    decreases n,
{
    if n <= 0 {
        Seq::empty()
    } else {
        let earlier = further_checks(prerequisites, n - 1);
        let p = prerequisites[n - 1];
        match p.prerequisite_type {
            PrerequisiteType::Permissions => earlier.push(
                CheckResultView {
                    name: "Permissions"@,
                    passed: true,
                    message: p.description@,
                    action: None,
                },
            ),
            PrerequisiteType::ExternalTool => earlier.push(
                CheckResultView {
                    name: "External Tool"@,
                    passed: true,
                    message: p.description@,
                    action: Some(CheckActionView::Instruction(p.description@)),
                },
            ),
            _ => earlier,
        }
    }
}

/// The list of texts as the `Debug` form of a vector of strings writes
/// it.
pub uninterp spec fn debug_list(items: Seq<Seq<char>>) -> Seq<char>;

/// `format!` with `{:?}` on a vector of strings: the list as its `Debug`
/// form writes it, a function of the texts alone.
#[verifier::external_body]
fn write_debug_list(items: &Vec<String>) -> (s: String)
    ensures
        s@ == debug_list(texts(items@)),
{
    format!("{:?}", items)
}

/// Checks what a workflow needs before it runs.
#[derive(Debug, Clone)]
pub struct PreflightChecker {
    assets_dir: String,
    registry: AssetRegistry,
}

impl PreflightChecker {
    /// The directory of the assets.
    pub closed spec fn directory(&self) -> Seq<char> {
        self.assets_dir@
    }

    /// The assets that the checker knows.
    pub closed spec fn known_assets(&self) -> Seq<AssetDefinition> {
        self.registry.assets()
    }

    /// A checker for the assets below `./sample-models/autodesk`.
    pub fn new() -> (c: Self)
        ensures
            c.directory() == "./sample-models/autodesk"@,
            c.known_assets().len() == 9,
    {
        PreflightChecker {
            assets_dir: owned("./sample-models/autodesk"),
            registry: AssetRegistry::new(),
        }
    }

    /// The same checker for another directory.
    pub fn with_assets_dir(self, dir: String) -> (c: Self)
        ensures
            c.directory() == dir@,
            c.known_assets() == self.known_assets(),
    {
        PreflightChecker { assets_dir: dir, registry: self.registry }
    }

    /// The directory of the assets.
    pub fn assets_dir(&self) -> (dir: &String)
        ensures
            dir@ == self.directory(),
    {
        &self.assets_dir
    }

    /// The registry of the assets.
    pub fn registry(&self) -> (r: &AssetRegistry)
        ensures
            r.assets() == self.known_assets(),
    {
        &self.registry
    }

    fn requires_login(workflow: &WorkflowMetadata) -> (b: bool)
        ensures
            b == asks_for_login(workflow.prerequisites@, workflow.prerequisites@.len() as int),
    {
        let mut found = false;
        let mut i: usize = 0;
        while i < workflow.prerequisites.len()
            invariant
                i <= workflow.prerequisites@.len(),
                found == asks_for_login(workflow.prerequisites@, i as int),
            decreases workflow.prerequisites@.len() - i,
        {
            match workflow.prerequisites[i].prerequisite_type {
                PrerequisiteType::Authentication => {
                    found = true;
                },
                _ => {},
            }
            i = i + 1;
        }
        found
    }

    /// Checks the login. A workflow that asks for none passes; one that
    /// asks for it passes where the host has found credentials.
    pub fn check_authentication(&self, workflow: &WorkflowMetadata, has_credentials: bool) -> (r:
        CheckResult)
        ensures
            r@ == login_check(workflow.prerequisites@, has_credentials),
    {
        if !Self::requires_login(workflow) {
            return CheckResult {
                name: owned("Authentication"),
                passed: true,
                message: owned("Not required for this workflow"),
                action: None,
            };
        }
        if has_credentials {
            CheckResult {
                name: owned("Authentication"),
                passed: true,
                message: owned("APS credentials found"),
                action: None,
            }
        } else {
            CheckResult {
                name: owned("Authentication"),
                passed: false,
                message: owned("APS authentication required"),
                action: Some(CheckAction::Login),
            }
        }
    }

    /// The asset to download for a path that is missing.
    pub fn find_matching_asset(&self, asset_path: &str) -> (r: Option<AssetDefinition>)
        ensures
            match matching(lowercase_of(asset_path@), self.known_assets()) {
                Some(a) => r is Some && r->0@ == a,
                None => r is None,
            },
    {
        let path = lowercase(asset_path);
        let p = path.as_str();
        let category = if contains(p, "inventor") {
            AssetCategory::Inventor
        } else if contains(p, "revit") {
            AssetCategory::Revit
        } else if contains(p, "autocad") {
            AssetCategory::AutoCAD
        } else if contains(p, "fusion") {
            AssetCategory::Fusion
        } else if contains(p, "civil") {
            AssetCategory::Civil3D
        } else {
            return None;
        };
        let assets = self.registry.by_category(category);
        let ghost candidates = asset_views(
            in_category(self.known_assets(), category, self.known_assets().len() as int),
        );
        proof {
            assert(assets@.map_values(|a: &AssetDefinition| (*a)@) =~= candidates) by {
                assert forall|i: int| 0 <= i < assets@.len() implies (*assets@[i])@
                    == candidates[i] by {
                    assert(assets@.map_values(|a: &AssetDefinition| *a)[i] == *assets@[i]);
                }
            }
        }
        let mut i: usize = 0;
        while i < assets.len()
            invariant
                i <= assets@.len(),
                p@ == lowercase_of(asset_path@),
                category_in(p@) == Some(category),
                candidates == asset_views(
                    in_category(self.known_assets(), category, self.known_assets().len() as int),
                ),
                assets@.len() == candidates.len(),
                forall|k: int| 0 <= k < assets@.len() ==> (*assets@[k])@ == candidates[k],
                first_fit(p@, candidates, i as int) is None,
            decreases assets@.len() - i,
        {
            let asset: &AssetDefinition = assets[i];
            assert(asset@ == candidates[i as int]);
            let filename = asset.filename();
            let file = lowercase(filename.as_str());
            let name = lowercase(asset.name.as_str());
            let hit = (contains(p, "stapler") && contains(file.as_str(), "inventor") && contains(
                file.as_str(),
                "sample",
            )) || (contains(p, "basic") && contains(p, "revit") && contains(
                name.as_str(),
                "basic",
            )) || (contains(p, "advanced") && contains(p, "revit") && contains(
                name.as_str(),
                "advanced",
            ));
            if hit {
                proof {
                    lemma_first_fit_sticks(p@, candidates, i as int + 1, candidates.len() as int);
                }
                return Some(asset.clone());
            }
            i = i + 1;
        }
        if assets.len() > 0 {
            Some(assets[0].clone())
        } else {
            None
        }
    }

    fn missing_files(required: &Vec<AssetPath>, existing: &Vec<AssetPath>) -> (missing: Vec<String>)
        ensures
            texts(missing@) == missing_among(
                texts(required@),
                texts(existing@),
                required@.len() as int,
            ),
    {
        let mut missing: Vec<String> = Vec::new();
        let mut i: usize = 0;
        assert(texts(missing@) =~= missing_among(texts(required@), texts(existing@), 0));
        while i < required.len()
            invariant
                i <= required@.len(),
                texts(missing@) == missing_among(texts(required@), texts(existing@), i as int),
            decreases required@.len() - i,
        {
            assert(texts(required@)[i as int] == required@[i as int]@);
            let ghost prior = texts(missing@);
            if !holds_text(existing, required[i].as_str()) {
                let path = required[i].clone();
                missing.push(path);
                assert(texts(missing@) =~= prior.push(required@[i as int]@));
            }
            i = i + 1;
        }
        missing
    }

    /// Checks the assets. `existing` names the required paths that are on
    /// disk. The check passes where no required path is missing. Else it
    /// offers the assets to download that match the missing paths, each
    /// once and in the order of the paths; where none matches, it lists
    /// the missing paths.
    pub fn check_assets(&self, workflow: &WorkflowMetadata, existing: &Vec<AssetPath>) -> (r:
        CheckResult)
        ensures
            r@ == assets_check(
                texts(workflow.required_assets@),
                texts(existing@),
                self.known_assets(),
            ),
    {
        assert(texts(workflow.required_assets@).len() == workflow.required_assets@.len());
        if workflow.required_assets.len() == 0 {
            return CheckResult {
                name: owned("Assets"),
                passed: true,
                message: owned("No assets required"),
                action: None,
            };
        }
        let missing = Self::missing_files(&workflow.required_assets, existing);
        assert(texts(missing@).len() == missing@.len());
        if missing.len() == 0 {
            let mut message = decimal_string(workflow.required_assets.len() as u64);
            message.append(" asset(s) available");
            return CheckResult { name: owned("Assets"), passed: true, message, action: None };
        }
        let ghost paths = texts(missing@);
        let ghost known = self.known_assets();
        let mut offer: Vec<AssetDefinition> = Vec::new();
        let mut i: usize = 0;
        assert(asset_views(offer@) =~= offered(paths, known, 0));
        while i < missing.len()
            invariant
                i <= missing@.len(),
                paths == texts(missing@),
                known == self.known_assets(),
                asset_views(offer@) == offered(paths, known, i as int),
            decreases missing@.len() - i,
        {
            assert(paths[i as int] == missing@[i as int]@);
            let ghost earlier = asset_views(offer@);
            match self.find_matching_asset(missing[i].as_str()) {
                Some(asset) => {
                    let mut present = false;
                    let mut k: usize = 0;
                    while k < offer.len()
                        invariant
                            k <= offer@.len(),
                            earlier == asset_views(offer@),
                            present == has_named(earlier.take(k as int), asset@.name),
                        decreases offer@.len() - k,
                    {
                        let ghost head = earlier.take(k as int);
                        let ghost next = earlier.take(k + 1);
                        assert(earlier[k as int] == offer@[k as int]@);
                        let same = crate::text::same_text(
                            offer[k].name.as_str(),
                            asset.name.as_str(),
                        );
                        proof {
                            assert(next =~= head.push(earlier[k as int]));
                            if has_named(head, asset@.name) {
                                let w = choose|w: int|
                                    0 <= w < head.len() && (#[trigger] head[w]).name == asset@.name;
                                assert(next[w].name == asset@.name);
                            }
                            if same {
                                assert(next[k as int].name == asset@.name);
                            }
                            if has_named(next, asset@.name) && !same {
                                let w = choose|w: int|
                                    0 <= w < next.len() && (#[trigger] next[w]).name == asset@.name;
                                assert(w < k);
                                assert(head[w].name == asset@.name);
                            }
                        }
                        if same {
                            present = true;
                        }
                        k = k + 1;
                    }
                    assert(earlier.take(offer@.len() as int) =~= earlier);
                    if !present {
                        offer.push(asset);
                        assert(asset_views(offer@) =~= earlier.push(asset@));
                    }
                },
                None => {},
            }
            i = i + 1;
        }
        assert(asset_views(offer@).len() == offer@.len());
        if offer.len() == 0 {
            let mut message = decimal_string(missing.len() as u64);
            message.append(" file(s) missing");
            let listed = write_debug_list(&missing);
            CheckResult {
                name: owned("Assets"),
                passed: false,
                message,
                action: Some(CheckAction::Instruction(concat2("Missing files: ", listed.as_str()))),
            }
        } else {
            let mut message = decimal_string(offer.len() as u64);
            message.append(" asset(s) need download");
            CheckResult {
                name: owned("Assets"),
                passed: false,
                message,
                action: Some(CheckAction::DownloadAssets(offer)),
            }
        }
    }

    /// Runs all checks for a workflow: the login first, then the assets,
    /// then one check that passes for each prerequisite that asks for
    /// permissions or for an external tool. All have passed where the
    /// login and the assets have; what has not is named as blocking.
    pub fn check(&self, workflow: &WorkflowMetadata, has_credentials: bool, existing: &Vec<AssetPath>)
        -> (status: PreflightStatus)
        ensures
            ({
                let login = login_check(workflow.prerequisites@, has_credentials);
                let assets = assets_check(
                    texts(workflow.required_assets@),
                    texts(existing@),
                    self.known_assets(),
                );
                &&& check_views(status.checks@) == seq![login, assets] + further_checks(
                    workflow.prerequisites@,
                    workflow.prerequisites@.len() as int,
                )
                &&& status.all_passed == (login.passed && assets.passed)
                &&& texts(status.blocking_checks@) == (if login.passed {
                    Seq::<Seq<char>>::empty()
                } else {
                    seq!["Authentication"@]
                }) + (if assets.passed {
                    Seq::<Seq<char>>::empty()
                } else {
                    seq!["Assets"@]
                })
            }),
    {
        let mut checks: Vec<CheckResult> = Vec::new();
        let mut blocking: Vec<String> = Vec::new();
        let ghost none = Seq::<Seq<char>>::empty();
        assert(texts(blocking@) =~= none);
        let auth = self.check_authentication(workflow, has_credentials);
        let auth_passed = auth.passed;
        if !auth_passed {
            blocking.push(owned("Authentication"));
        }
        let ghost b1 = texts(blocking@);
        assert(b1 =~= if auth_passed {
            none
        } else {
            seq!["Authentication"@]
        });
        checks.push(auth);
        let assets = self.check_assets(workflow, existing);
        let assets_passed = assets.passed;
        if !assets_passed {
            blocking.push(owned("Assets"));
        }
        assert(texts(blocking@) =~= b1 + (if assets_passed {
            none
        } else {
            seq!["Assets"@]
        }));
        checks.push(assets);
        let ghost first = check_views(checks@);
        assert(first =~= seq![auth@, assets@]);
        let mut i: usize = 0;
        assert(check_views(checks@) =~= first + further_checks(workflow.prerequisites@, 0));
        while i < workflow.prerequisites.len()
            invariant
                i <= workflow.prerequisites@.len(),
                check_views(checks@) == first + further_checks(workflow.prerequisites@, i as int),
            decreases workflow.prerequisites@.len() - i,
        {
            let prerequisite = &workflow.prerequisites[i];
            let ghost prior = check_views(checks@);
            match prerequisite.prerequisite_type {
                PrerequisiteType::Permissions => {
                    let c = CheckResult {
                        name: owned("Permissions"),
                        passed: true,
                        message: prerequisite.description.clone(),
                        action: None,
                    };
                    checks.push(c);
                    assert(check_views(checks@) =~= prior.push(c@));
                },
                PrerequisiteType::ExternalTool => {
                    let c = CheckResult {
                        name: owned("External Tool"),
                        passed: true,
                        message: prerequisite.description.clone(),
                        action: Some(CheckAction::Instruction(prerequisite.description.clone())),
                    };
                    checks.push(c);
                    assert(check_views(checks@) =~= prior.push(c@));
                },
                _ => {},
            }
            i = i + 1;
            assert(check_views(checks@) =~= first + further_checks(
                workflow.prerequisites@,
                i as int,
            ));
        }
        PreflightStatus {
            checks,
            all_passed: auth_passed && assets_passed,
            blocking_checks: blocking,
        }
    }

    /// The assets of the registry, each with whether it is on disk.
    /// `on_disk` says so for each asset, in the order of the registry; an
    /// asset without an answer counts as missing.
    pub fn get_all_assets_with_status(&self, on_disk: &Vec<bool>) -> (all: Vec<
        (AssetDefinition, bool),
    >)
        ensures
            all@.len() == self.known_assets().len(),
            forall|i: int|
                0 <= i < all@.len() ==> (#[trigger] all@[i]).0@ == self.known_assets()[i]@
                    && all@[i].1 == crate::assets::is_on_disk(on_disk@, i),
    {
        let assets = self.registry.all();
        let mut all: Vec<(AssetDefinition, bool)> = Vec::new();
        let mut i: usize = 0;
        while i < assets.len()
            invariant
                i <= assets@.len(),
                assets@ == self.known_assets(),
                all@.len() == i,
                forall|k: int|
                    0 <= k < i ==> (#[trigger] all@[k]).0@ == assets@[k]@ && all@[k].1
                        == crate::assets::is_on_disk(on_disk@, k),
            decreases assets@.len() - i,
        {
            let present = i < on_disk.len() && on_disk[i];
            all.push((assets[i].clone(), present));
            i = i + 1;
        }
        all
    }
}

impl Default for PreflightChecker {
    fn default() -> (c: Self)
        ensures
            c.directory() == "./sample-models/autodesk"@,
    {
        Self::new()
    }
}

} // verus!
