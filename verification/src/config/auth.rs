//! Guidance for a user whose login is not in order: what is wrong with the
//! credentials, how to set them up, and what to try when it fails.

use vstd::prelude::*;
use crate::text::{texts, opt_text, owned, concat2, contains, is_substring, copy_texts};
use crate::system::now;
use crate::workflow::types::Timestamp;
use crate::config::types::{AuthTokens, RapsConfig, ValidationResult};

verus! {

/// Checks the login against the service.
#[derive(Debug, Clone)]
pub struct AuthValidator {
    base_url: String,
}

/// The errors that a check of the credentials finds. `token_check` is what
/// the external tool said of the access token: whether it is valid, or why
/// it could not be checked.
pub open spec fn credential_errors(config: RapsConfig, token_check: Result<bool, String>) -> Seq<
    Seq<char>,
> {
    if !config.credentials_set() {
        seq!["Missing APS credentials (client_id and client_secret)"@]
    } else if config.auth_tokens is None {
        seq!["No authentication tokens found"@]
    } else if token_check == Ok::<bool, String>(false) {
        seq!["Authentication token is invalid"@]
    } else {
        Seq::empty()
    }
}

/// The warnings that a check of the credentials at the time given finds.
pub open spec fn credential_warnings(
    config: RapsConfig,
    token_check: Result<bool, String>,
    now: Timestamp,
) -> Seq<Seq<char>> {
    if !config.credentials_set() || config.auth_tokens is None {
        Seq::empty()
    } else {
        let tokens = config.auth_tokens->0;
        (if tokens.expired_at(now) {
            seq!["Access token has expired"@]
        } else if tokens.expiring_at(300, now) {
            seq!["Access token expires soon"@]
        } else {
            Seq::empty()
        }) + (match token_check {
            Err(e) => seq!["Could not validate token: "@ + e@],
            Ok(_) => Seq::empty(),
        })
    }
}

impl AuthValidator {
    /// The address of the service.
    pub closed spec fn base(&self) -> Seq<char> {
        self.base_url@
    }

    /// A validator for the service at the address given.
    pub fn new(base_url: String) -> (v: Self)
        ensures
            v.base() == base_url@,
    {
        AuthValidator { base_url }
    }

    /// The address of the service.
    pub fn base_url(&self) -> (url: &String)
        ensures
            url@ == self.base(),
    {
        &self.base_url
    }

    /// The address at which the service tells whether it is up.
    pub fn health_url(&self) -> (url: String)
        ensures
            url@ == self.base() + "/health"@,
    {
        concat2(self.base_url.as_str(), "/health")
    }

    /// Checks the credentials of a configuration at the time given.
    /// `token_check` is what the external tool said of the access token; it
    /// is read only where there are credentials and tokens. The result is
    /// valid exactly when there is no error.
    pub fn validate_credentials_at(
        &self,
        config: &RapsConfig,
        token_check: &Result<bool, String>,
        now: Timestamp,
    ) -> (r: ValidationResult)
        ensures
            texts(r.errors@) == credential_errors(*config, *token_check),
            texts(r.warnings@) == credential_warnings(*config, *token_check, now),
            r.is_valid == (credential_errors(*config, *token_check).len() == 0),
    {
        let mut r = ValidationResult::new();
        let ghost none = Seq::<Seq<char>>::empty();
        assert(texts(r.errors@) =~= none);
        assert(texts(r.warnings@) =~= none);
        if !config.has_credentials() {
            r.add_error(owned("Missing APS credentials (client_id and client_secret)"));
            assert(texts(r.errors@) =~= credential_errors(*config, *token_check));
            return r;
        }
        match &config.auth_tokens {
            Some(tokens) => {
                if tokens.is_expired_at(now) {
                    r.add_warning(owned("Access token has expired"));
                } else if tokens.expires_within_at(300, now) {
                    r.add_warning(owned("Access token expires soon"));
                }
                let ghost w1 = texts(r.warnings@);
                assert(w1 =~= if tokens.expired_at(now) {
                    seq!["Access token has expired"@]
                } else if tokens.expiring_at(300, now) {
                    seq!["Access token expires soon"@]
                } else {
                    none
                });
                match token_check {
                    Ok(true) => {},
                    Ok(false) => {
                        r.add_error(owned("Authentication token is invalid"));
                    },
                    Err(e) => {
                        r.add_warning(concat2("Could not validate token: ", e.as_str()));
                    },
                }
                assert(texts(r.errors@) =~= credential_errors(*config, *token_check));
                assert(texts(r.warnings@) =~= w1 + (match *token_check {
                    Err(e) => seq!["Could not validate token: "@ + e@],
                    Ok(_) => none,
                }));
            },
            None => {
                r.add_error(owned("No authentication tokens found"));
                assert(texts(r.errors@) =~= credential_errors(*config, *token_check));
            },
        }
        r
    }

    /// Checks the credentials of a configuration as of now.
    pub fn validate_credentials(&self, config: &RapsConfig, token_check: &Result<bool, String>) -> (r:
        ValidationResult)
        ensures
            texts(r.errors@) == credential_errors(*config, *token_check),
            r.is_valid == (credential_errors(*config, *token_check).len() == 0),
            exists|t: Timestamp|
                texts(r.warnings@) == #[trigger] credential_warnings(*config, *token_check, t),
    {
        self.validate_credentials_at(config, token_check, now())
    }
}

/// What the user does in a step of the setup.
#[derive(Debug, Clone, PartialEq, Eq)]
#[allow(inconsistent_fields)]
pub enum SetupAction {
    VisitUrl { url: String, description: String },
    RunCommand { command: String, description: String },
    SetEnvironmentVariables { variables: Vec<(String, String)> },
    EditConfigFile { file_path: String, content: String },
}

/// One step of the setup.
#[derive(Debug, Clone, PartialEq, Eq)]
pub struct SetupStep {
    pub title: String,
    pub description: String,
    pub action: SetupAction,
    pub required: bool,
}

/// The steps that set the login up.
#[derive(Debug, Clone, PartialEq, Eq)]
pub struct SetupInstructions {
    pub steps: Vec<SetupStep>,
}

/// The first `n` steps that are required, or those that are not, in their
/// order.
pub open spec fn steps_with(steps: Seq<SetupStep>, required: bool, n: int) -> Seq<SetupStep>
    decreases n,
{
    if n <= 0 {
        Seq::empty()
    } else {
        let earlier = steps_with(steps, required, n - 1);
        if steps[n - 1].required == required {
            earlier.push(steps[n - 1])
        } else {
            earlier
        }
    }
}

impl SetupInstructions {
    /// Instructions without a step.
    pub fn new() -> (s: Self)
        ensures
            s.steps@.len() == 0,
    {
        SetupInstructions { steps: Vec::new() }
    }

    /// Adds a step at the end.
    pub fn add_step(&mut self, step: SetupStep)
        ensures
            final(self).steps@ == old(self).steps@.push(step),
    {
        self.steps.push(step);
    }

    fn select(&self, required: bool) -> (r: Vec<&SetupStep>)
        ensures
            r@.map_values(|s: &SetupStep| *s) == steps_with(
                self.steps@,
                required,
                self.steps@.len() as int,
            ),
    {
        let mut r: Vec<&SetupStep> = Vec::new();
        let mut i: usize = 0;
        assert(r@.map_values(|s: &SetupStep| *s) =~= steps_with(self.steps@, required, 0));
        while i < self.steps.len()
            invariant
                i <= self.steps@.len(),
                r@.map_values(|s: &SetupStep| *s) == steps_with(self.steps@, required, i as int),
            decreases self.steps@.len() - i,
        {
            let ghost prior = r@.map_values(|s: &SetupStep| *s);
            if self.steps[i].required == required {
                r.push(&self.steps[i]);
                assert(r@.map_values(|s: &SetupStep| *s) =~= prior.push(self.steps@[i as int]));
            }
            i = i + 1;
        }
        r
    }

    /// The steps that are required, in their order.
    pub fn required_steps(&self) -> (r: Vec<&SetupStep>)
        ensures
            r@.map_values(|s: &SetupStep| *s) == steps_with(
                self.steps@,
                true,
                self.steps@.len() as int,
            ),
    {
        self.select(true)
    }

    /// The steps that are not required, in their order.
    pub fn optional_steps(&self) -> (r: Vec<&SetupStep>)
        ensures
            r@.map_values(|s: &SetupStep| *s) == steps_with(
                self.steps@,
                false,
                self.steps@.len() as int,
            ),
    {
        self.select(false)
    }
}

impl Default for SetupInstructions {
    fn default() -> (s: Self)
        ensures
            s.steps@.len() == 0,
    {
        Self::new()
    }
}

/// One problem with what to do about it.
#[derive(Debug, Clone, PartialEq, Eq)]
pub struct TroubleshootingSolution {
    pub problem: String,
    pub solution: String,
    pub commands: Vec<String>,
    pub links: Vec<String>,
}

pub struct TroubleshootingSolutionView {
    pub problem: Seq<char>,
    pub solution: Seq<char>,
    pub commands: Seq<Seq<char>>,
    pub links: Seq<Seq<char>>,
}

impl View for TroubleshootingSolution {
    type V = TroubleshootingSolutionView;

    open spec fn view(&self) -> TroubleshootingSolutionView {
        TroubleshootingSolutionView {
            problem: self.problem@,
            solution: self.solution@,
            commands: texts(self.commands@),
            links: texts(self.links@),
        }
    }
}

/// The views of a sequence of solutions.
pub open spec fn solution_views(v: Seq<TroubleshootingSolution>) -> Seq<
    TroubleshootingSolutionView,
> {
    v.map_values(|s: TroubleshootingSolution| s@)
}

/// What to try when the login fails.
#[derive(Debug, Clone, PartialEq, Eq)]
pub struct TroubleshootingGuide {
    pub solutions: Vec<TroubleshootingSolution>,
}

impl TroubleshootingGuide {
    /// A guide without solutions.
    pub fn new() -> (g: Self)
        ensures
            g.solutions@.len() == 0,
    {
        TroubleshootingGuide { solutions: Vec::new() }
    }

    /// Adds a solution at the end.
    pub fn add_solution(&mut self, solution: TroubleshootingSolution)
        ensures
            final(self).solutions@ == old(self).solutions@.push(solution),
    {
        self.solutions.push(solution);
    }

    /// Whether the guide holds no solution.
    pub fn is_empty(&self) -> (b: bool)
        ensures
            b == (self.solutions@.len() == 0),
    {
        self.solutions.len() == 0
    }
}

impl Default for TroubleshootingGuide {
    fn default() -> (g: Self)
        ensures
            g.solutions@.len() == 0,
    {
        Self::new()
    }
}

/// The page that explains how to get a token.
pub open spec fn token_tutorial() -> Seq<char> {
    "https://aps.autodesk.com/en/docs/oauth/v2/tutorials/get-3-legged-token/"@
}

/// The solution for a problem with the commands and the link given.
pub open spec fn solution_for(
    problem: Seq<char>,
    solution: Seq<char>,
    commands: Seq<Seq<char>>,
    link: Seq<char>,
) -> TroubleshootingSolutionView {
    TroubleshootingSolutionView { problem, solution, commands, links: seq![link] }
}

/// The solutions for one error.
pub open spec fn solutions_for_error(error: Seq<char>) -> Seq<TroubleshootingSolutionView> {
    (if is_substring(error, "Missing APS credentials"@) {
        seq![
            solution_for(
                "Missing APS credentials"@,
                "Follow the setup instructions to obtain your Client ID and Client Secret from the APS Developer Portal"@,
                seq!["raps auth login"@],
                "https://aps.autodesk.com/developer/overview"@,
            ),
        ]
    } else {
        Seq::empty()
    }) + (if is_substring(error, "No authentication tokens"@) {
        seq![
            solution_for(
                "No authentication tokens found"@,
                "Run the authentication command to get access tokens"@,
                seq!["raps auth login"@],
                token_tutorial(),
            ),
        ]
    } else {
        Seq::empty()
    }) + (if is_substring(error, "Authentication token is invalid"@) {
        seq![
            solution_for(
                "Authentication token is invalid"@,
                "Your token may have expired or been revoked. Re-authenticate to get a new token"@,
                seq!["raps auth logout"@, "raps auth login"@],
                token_tutorial(),
            ),
        ]
    } else {
        Seq::empty()
    })
}

/// The solutions for one warning.
pub open spec fn solutions_for_warning(warning: Seq<char>) -> Seq<TroubleshootingSolutionView> {
    (if is_substring(warning, "Access token has expired"@) {
        seq![
            solution_for(
                "Access token has expired"@,
                "Refresh your access token or re-authenticate"@,
                seq!["raps auth refresh"@],
                token_tutorial(),
            ),
        ]
    } else {
        Seq::empty()
    }) + (if is_substring(warning, "expires soon"@) {
        seq![
            solution_for(
                "Access token expires soon"@,
                "Consider refreshing your token to avoid interruption"@,
                seq!["raps auth refresh"@],
                token_tutorial(),
            ),
        ]
    } else {
        Seq::empty()
    })
}

/// The solutions for the first `n` errors, error by error.
pub open spec fn error_solutions(errors: Seq<Seq<char>>, n: int) -> Seq<TroubleshootingSolutionView>
    decreases n,
{
    if n <= 0 {
        Seq::empty()
    } else {
        error_solutions(errors, n - 1) + solutions_for_error(errors[n - 1])
    }
}

/// The solutions for the first `n` warnings, warning by warning.
pub open spec fn warning_solutions(warnings: Seq<Seq<char>>, n: int) -> Seq<
    TroubleshootingSolutionView,
>
    decreases n,
{
    if n <= 0 {
        Seq::empty()
    } else {
        warning_solutions(warnings, n - 1) + solutions_for_warning(warnings[n - 1])
    }
}

/// A step of the setup, with every text as a sequence of characters.
pub struct SetupStepView {
    pub title: Seq<char>,
    pub description: Seq<char>,
    pub action: SetupActionView,
    pub required: bool,
}

#[allow(inconsistent_fields)]
pub enum SetupActionView {
    VisitUrl { url: Seq<char>, description: Seq<char> },
    RunCommand { command: Seq<char>, description: Seq<char> },
    SetEnvironmentVariables { variables: Seq<(Seq<char>, Seq<char>)> },
    EditConfigFile { file_path: Seq<char>, content: Seq<char> },
}

impl View for SetupAction {
    type V = SetupActionView;

    open spec fn view(&self) -> SetupActionView {
        match *self {
            SetupAction::VisitUrl { url, description } => SetupActionView::VisitUrl {
                url: url@,
                description: description@,
            },
            SetupAction::RunCommand { command, description } => SetupActionView::RunCommand {
                command: command@,
                description: description@,
            },
            SetupAction::SetEnvironmentVariables {
                variables,
            } => SetupActionView::SetEnvironmentVariables {
                variables: variables@.map_values(|v: (String, String)| (v.0@, v.1@)),
            },
            SetupAction::EditConfigFile { file_path, content } => SetupActionView::EditConfigFile {
                file_path: file_path@,
                content: content@,
            },
        }
    }
}

impl View for SetupStep {
    type V = SetupStepView;

    open spec fn view(&self) -> SetupStepView {
        SetupStepView {
            title: self.title@,
            description: self.description@,
            action: self.action@,
            required: self.required,
        }
    }
}

/// The views of a sequence of steps of the setup.
pub open spec fn setup_views(v: Seq<SetupStep>) -> Seq<SetupStepView> {
    v.map_values(|s: SetupStep| s@)
}

/// The step that sends the user to the developer portal.
pub open spec fn portal_step(title: Seq<char>, description: Seq<char>, hint: Seq<char>)
    -> SetupStepView {
    SetupStepView {
        title,
        description,
        action: SetupActionView::VisitUrl {
            url: "https://aps.autodesk.com/developer/overview"@,
            description: hint,
        },
        required: true,
    }
}

/// The steps that a configuration still needs: one for a missing client
/// identifier, one for a missing client secret, one for missing tokens, and
/// at the end the optional step that names the environment variables.
pub open spec fn setup_steps(config: RapsConfig) -> Seq<SetupStepView> {
    (if config.client_id@.len() == 0 {
        seq![
            portal_step(
                "Obtain APS Client ID"@,
                "Get your Client ID from the APS Developer Portal"@,
                "Visit the APS Developer Portal to create an app and get your Client ID"@,
            ),
        ]
    } else {
        Seq::empty()
    }) + (if config.client_secret@.len() == 0 {
        seq![
            portal_step(
                "Obtain APS Client Secret"@,
                "Get your Client Secret from the APS Developer Portal"@,
                "Visit the APS Developer Portal to get your Client Secret"@,
            ),
        ]
    } else {
        Seq::empty()
    }) + (if config.auth_tokens is None {
        seq![
            SetupStepView {
                title: "Authenticate with APS"@,
                description: "Run the authentication command to get access tokens"@,
                action: SetupActionView::RunCommand {
                    command: "raps auth login"@,
                    description: "This will open a browser window for you to authenticate with Autodesk"@,
                },
                required: true,
            },
        ]
    } else {
        Seq::empty()
    }) + seq![
        SetupStepView {
            title: "Set Environment Variables (Optional)"@,
            description: "You can set environment variables instead of using config files"@,
            action: SetupActionView::SetEnvironmentVariables {
                variables: seq![
                    ("APS_CLIENT_ID"@, "your_client_id"@),
                    ("APS_CLIENT_SECRET"@, "your_client_secret"@),
                ],
            },
            required: false,
        },
    ]
}

fn one_text(s: &str) -> (v: Vec<String>)
    ensures
        texts(v@) == seq![s@],
{
    let mut v: Vec<String> = Vec::new();
    v.push(owned(s));
    assert(texts(v@) =~= seq![s@]);
    v
}

fn make_solution(problem: &str, solution: &str, commands: Vec<String>, link: &str) -> (s:
    TroubleshootingSolution)
    ensures
        s@ == solution_for(problem@, solution@, texts(commands@), link@),
{
    TroubleshootingSolution {
        problem: owned(problem),
        solution: owned(solution),
        commands,
        links: one_text(link),
    }
}

fn portal(title: &str, description: &str, hint: &str) -> (s: SetupStep)
    ensures
        s@ == portal_step(title@, description@, hint@),
{
    SetupStep {
        title: owned(title),
        description: owned(description),
        action: SetupAction::VisitUrl {
            url: owned("https://aps.autodesk.com/developer/overview"),
            description: owned(hint),
        },
        required: true,
    }
}

/// Tells the user how to set the login up and what to try when it fails.
pub struct AuthSetupGuide;

impl AuthSetupGuide {
    /// The steps that a configuration still needs.
    pub fn generate_setup_instructions(config: &RapsConfig) -> (instructions: SetupInstructions)
        ensures
            setup_views(instructions.steps@) == setup_steps(*config),
    {
        let mut instructions = SetupInstructions::new();
        let ghost none = Seq::<SetupStepView>::empty();
        assert(setup_views(instructions.steps@) =~= none);
        if config.client_id.as_str().unicode_len() == 0 {
            instructions.add_step(
                portal(
                    "Obtain APS Client ID",
                    "Get your Client ID from the APS Developer Portal",
                    "Visit the APS Developer Portal to create an app and get your Client ID",
                ),
            );
        }
        let ghost s1 = setup_views(instructions.steps@);
        assert(s1 =~= if config.client_id@.len() == 0 {
            seq![
                portal_step(
                    "Obtain APS Client ID"@,
                    "Get your Client ID from the APS Developer Portal"@,
                    "Visit the APS Developer Portal to create an app and get your Client ID"@,
                ),
            ]
        } else {
            none
        });
        if config.client_secret.as_str().unicode_len() == 0 {
            instructions.add_step(
                portal(
                    "Obtain APS Client Secret",
                    "Get your Client Secret from the APS Developer Portal",
                    "Visit the APS Developer Portal to get your Client Secret",
                ),
            );
        }
        let ghost s2 = setup_views(instructions.steps@);
        assert(s2 =~= s1 + (if config.client_secret@.len() == 0 {
            seq![
                portal_step(
                    "Obtain APS Client Secret"@,
                    "Get your Client Secret from the APS Developer Portal"@,
                    "Visit the APS Developer Portal to get your Client Secret"@,
                ),
            ]
        } else {
            none
        }));
        if config.auth_tokens.is_none() {
            instructions.add_step(
                SetupStep {
                    title: owned("Authenticate with APS"),
                    description: owned("Run the authentication command to get access tokens"),
                    action: SetupAction::RunCommand {
                        command: owned("raps auth login"),
                        description: owned(
                            "This will open a browser window for you to authenticate with Autodesk",
                        ),
                    },
                    required: true,
                },
            );
        }
        let ghost s3 = setup_views(instructions.steps@);
        assert(s3 =~= s2 + (if config.auth_tokens is None {
            seq![
                SetupStepView {
                    title: "Authenticate with APS"@,
                    description: "Run the authentication command to get access tokens"@,
                    action: SetupActionView::RunCommand {
                        command: "raps auth login"@,
                        description: "This will open a browser window for you to authenticate with Autodesk"@,
                    },
                    required: true,
                },
            ]
        } else {
            none
        }));
        let mut variables: Vec<(String, String)> = Vec::new();
        variables.push((owned("APS_CLIENT_ID"), owned("your_client_id")));
        variables.push((owned("APS_CLIENT_SECRET"), owned("your_client_secret")));
        assert(variables@.map_values(|v: (String, String)| (v.0@, v.1@)) =~= seq![
            ("APS_CLIENT_ID"@, "your_client_id"@),
            ("APS_CLIENT_SECRET"@, "your_client_secret"@),
        ]);
        instructions.add_step(
            SetupStep {
                title: owned("Set Environment Variables (Optional)"),
                description: owned(
                    "You can set environment variables instead of using config files",
                ),
                action: SetupAction::SetEnvironmentVariables { variables },
                required: false,
            },
        );
        assert(setup_views(instructions.steps@) =~= setup_steps(*config));
        instructions
    }

    fn add_for_error(guide: &mut TroubleshootingGuide, error: &str)
        ensures
            solution_views(final(guide).solutions@) == solution_views(old(guide).solutions@)
                + solutions_for_error(error@),
    {
        let ghost start = solution_views(guide.solutions@);
        let ghost none = Seq::<TroubleshootingSolutionView>::empty();
        if contains(error, "Missing APS credentials") {
            guide.add_solution(
                make_solution(
                    "Missing APS credentials",
                    "Follow the setup instructions to obtain your Client ID and Client Secret from the APS Developer Portal",
                    one_text("raps auth login"),
                    "https://aps.autodesk.com/developer/overview",
                ),
            );
        }
        let ghost g1 = solution_views(guide.solutions@);
        assert(g1 =~= start + (if is_substring(error@, "Missing APS credentials"@) {
            seq![
                solution_for(
                    "Missing APS credentials"@,
                    "Follow the setup instructions to obtain your Client ID and Client Secret from the APS Developer Portal"@,
                    seq!["raps auth login"@],
                    "https://aps.autodesk.com/developer/overview"@,
                ),
            ]
        } else {
            none
        }));
        if contains(error, "No authentication tokens") {
            guide.add_solution(
                make_solution(
                    "No authentication tokens found",
                    "Run the authentication command to get access tokens",
                    one_text("raps auth login"),
                    "https://aps.autodesk.com/en/docs/oauth/v2/tutorials/get-3-legged-token/",
                ),
            );
        }
        let ghost g2 = solution_views(guide.solutions@);
        assert(g2 =~= g1 + (if is_substring(error@, "No authentication tokens"@) {
            seq![
                solution_for(
                    "No authentication tokens found"@,
                    "Run the authentication command to get access tokens"@,
                    seq!["raps auth login"@],
                    token_tutorial(),
                ),
            ]
        } else {
            none
        }));
        if contains(error, "Authentication token is invalid") {
            let mut commands: Vec<String> = Vec::new();
            commands.push(owned("raps auth logout"));
            commands.push(owned("raps auth login"));
            assert(texts(commands@) =~= seq!["raps auth logout"@, "raps auth login"@]);
            guide.add_solution(
                make_solution(
                    "Authentication token is invalid",
                    "Your token may have expired or been revoked. Re-authenticate to get a new token",
                    commands,
                    "https://aps.autodesk.com/en/docs/oauth/v2/tutorials/get-3-legged-token/",
                ),
            );
        }
        assert(solution_views(guide.solutions@) =~= g2 + (if is_substring(
            error@,
            "Authentication token is invalid"@,
        ) {
            seq![
                solution_for(
                    "Authentication token is invalid"@,
                    "Your token may have expired or been revoked. Re-authenticate to get a new token"@,
                    seq!["raps auth logout"@, "raps auth login"@],
                    token_tutorial(),
                ),
            ]
        } else {
            none
        }));
        assert(solution_views(guide.solutions@) =~= start + solutions_for_error(error@));
    }

    fn add_for_warning(guide: &mut TroubleshootingGuide, warning: &str)
        ensures
            solution_views(final(guide).solutions@) == solution_views(old(guide).solutions@)
                + solutions_for_warning(warning@),
    {
        let ghost start = solution_views(guide.solutions@);
        let ghost none = Seq::<TroubleshootingSolutionView>::empty();
        if contains(warning, "Access token has expired") {
            guide.add_solution(
                make_solution(
                    "Access token has expired",
                    "Refresh your access token or re-authenticate",
                    one_text("raps auth refresh"),
                    "https://aps.autodesk.com/en/docs/oauth/v2/tutorials/get-3-legged-token/",
                ),
            );
        }
        let ghost g1 = solution_views(guide.solutions@);
        assert(g1 =~= start + (if is_substring(warning@, "Access token has expired"@) {
            seq![
                solution_for(
                    "Access token has expired"@,
                    "Refresh your access token or re-authenticate"@,
                    seq!["raps auth refresh"@],
                    token_tutorial(),
                ),
            ]
        } else {
            none
        }));
        if contains(warning, "expires soon") {
            guide.add_solution(
                make_solution(
                    "Access token expires soon",
                    "Consider refreshing your token to avoid interruption",
                    one_text("raps auth refresh"),
                    "https://aps.autodesk.com/en/docs/oauth/v2/tutorials/get-3-legged-token/",
                ),
            );
        }
        assert(solution_views(guide.solutions@) =~= g1 + (if is_substring(
            warning@,
            "expires soon"@,
        ) {
            seq![
                solution_for(
                    "Access token expires soon"@,
                    "Consider refreshing your token to avoid interruption"@,
                    seq!["raps auth refresh"@],
                    token_tutorial(),
                ),
            ]
        } else {
            none
        }));
        assert(solution_views(guide.solutions@) =~= start + solutions_for_warning(warning@));
    }

    /// What to try for the errors and the warnings of a validation: the
    /// solutions for the errors first, in the order of the errors, then
    /// those for the warnings.
    pub fn generate_troubleshooting_guide(validation_result: &ValidationResult) -> (guide:
        TroubleshootingGuide)
        ensures
            solution_views(guide.solutions@) == error_solutions(
                texts(validation_result.errors@),
                validation_result.errors@.len() as int,
            ) + warning_solutions(
                texts(validation_result.warnings@),
                validation_result.warnings@.len() as int,
            ),
    {
        let mut guide = TroubleshootingGuide::new();
        let ghost errors = texts(validation_result.errors@);
        let ghost warnings = texts(validation_result.warnings@);
        let mut i: usize = 0;
        assert(solution_views(guide.solutions@) =~= error_solutions(errors, 0));
        while i < validation_result.errors.len()
            invariant
                i <= validation_result.errors@.len(),
                errors == texts(validation_result.errors@),
                solution_views(guide.solutions@) == error_solutions(errors, i as int),
            decreases validation_result.errors@.len() - i,
        {
            assert(errors[i as int] == validation_result.errors@[i as int]@);
            Self::add_for_error(&mut guide, validation_result.errors[i].as_str());
            i = i + 1;
        }
        let ghost first = solution_views(guide.solutions@);
        let mut k: usize = 0;
        assert(solution_views(guide.solutions@) =~= first + warning_solutions(warnings, 0));
        while k < validation_result.warnings.len()
            invariant
                k <= validation_result.warnings@.len(),
                warnings == texts(validation_result.warnings@),
                solution_views(guide.solutions@) == first + warning_solutions(warnings, k as int),
            decreases validation_result.warnings@.len() - k,
        {
            assert(warnings[k as int] == validation_result.warnings@[k as int]@);
            let ghost prior = solution_views(guide.solutions@);
            Self::add_for_warning(&mut guide, validation_result.warnings[k].as_str());
            k = k + 1;
            assert(solution_views(guide.solutions@) =~= first + warning_solutions(
                warnings,
                k as int,
            ));
        }
        guide
    }
}

/// Renews the tokens of a login.
pub struct TokenRefresher;

impl TokenRefresher {
    /// The command of the external tool that renews the tokens.
    pub fn refresh_args() -> (args: Vec<String>)
        ensures
            texts(args@) == seq!["auth"@, "refresh"@, "--json"@],
    {
        let mut args: Vec<String> = Vec::new();
        args.push(owned("auth"));
        args.push(owned("refresh"));
        args.push(owned("--json"));
        assert(texts(args@) =~= seq!["auth"@, "refresh"@, "--json"@]);
        args
    }

    /// Whether the tokens of a configuration can be renewed: there are
    /// tokens and among them one for renewal.
    pub fn can_refresh(config: &RapsConfig) -> (b: bool)
        ensures
            b == (config.auth_tokens is Some && config.auth_tokens->0.refresh_token is Some),
    {
        match &config.auth_tokens {
            Some(tokens) => tokens.refresh_token.is_some(),
            None => false,
        }
    }

    /// The tokens after a renewal at the time given. What the answer of
    /// the tool leaves out is taken over or filled in: the token for
    /// renewal and the scopes stay as they were, and the new access token
    /// lasts an hour.
    pub fn refreshed_tokens(
        previous: &AuthTokens,
        access_token: String,
        refresh_token: Option<String>,
        expires_in: Option<i64>,
        scopes: Option<Vec<String>>,
        now: Timestamp,
    ) -> (t: AuthTokens)
        requires
            i64::MIN <= now + (match expires_in {
                Some(s) => s as int,
                None => 3600,
            }) <= i64::MAX,
        ensures
            t.access_token == access_token,
            opt_text(t.refresh_token) == match refresh_token {
                Some(r) => Some(r@),
                None => opt_text(previous.refresh_token),
            },
            t.expires_at == now + (match expires_in {
                Some(s) => s as int,
                None => 3600,
            }),
            texts(t.scopes@) == match scopes {
                Some(s) => texts(s@),
                None => texts(previous.scopes@),
            },
    {
        let lasts: i64 = match expires_in {
            Some(s) => s,
            None => 3600,
        };
        AuthTokens {
            access_token,
            refresh_token: match refresh_token {
                Some(r) => Some(r),
                None => crate::text::copy_opt(&previous.refresh_token),
            },
            expires_at: now + lasts,
            scopes: match scopes {
                Some(s) => s,
                None => copy_texts(&previous.scopes),
            },
        }
    }
}

} // verus!
