//! Making the `litert-lm` command available on a desktop: the order in which it is
//! looked for and installed, as a machine that the application drives. The
//! application performs each step and reports how it went; the machine says what to
//! do next.
use vstd::prelude::*;
use crate::requests::{non_blank, text_of, trimmed_non_blank};

verus! {

/// The steps, in the order they can happen.
#[derive(Clone, Copy, Debug, PartialEq, Eq, Structural)]
pub enum SetupStep {
    /// Run the command found by the search, with `--help`.
    ProbeCommand,
    /// `uv tool install litert-lm`.
    InstallWithUv,
    /// `pipx install litert-lm`.
    InstallWithPipx,
    /// Find the private virtual environment: does its directory exist?
    LocateVenv,
    /// Create the directory of the private virtual environment.
    CreateVenvDir,
    /// `python3 -m venv` in that directory.
    CreateVenv,
    /// Do its `python` and `pip` exist?
    CheckVenvTools,
    /// Upgrade `pip` in it.
    UpgradePip,
    /// Install `litert-lm` in it.
    InstallIntoVenv,
    /// Does the installed command exist?
    CheckInstalledCommand,
    /// Run the command found by a second search, with `--help`.
    ProbeAgain,
}

/// How a step went. For a check, `Yes` or `No`. For a probe, `Yes` when the command
/// could be started, whatever its exit status, `No` when it could not be found, and
/// `Failed` with the error text when starting it failed otherwise. For an installing
/// or creating command, `Yes` when it succeeded, `No` when it could not be found or
/// exited with failure, and `Failed` with the error text where the application has one.
#[derive(Clone, Debug)]
pub enum Outcome {
    Yes,
    No,
    Failed(String),
}

/// What to do next.
#[derive(Clone, Debug)]
pub enum SetupAction {
    /// Perform this step.
    Perform(SetupStep),
    /// The command is ready.
    Ready,
    /// Give up with this error.
    GiveUp(String),
}

/// Position of a step in the order.
pub open spec fn rank(step: SetupStep) -> nat {
    match step {
        SetupStep::ProbeCommand => 0,
        SetupStep::InstallWithUv => 1,
        SetupStep::InstallWithPipx => 2,
        SetupStep::LocateVenv => 3,
        SetupStep::CreateVenvDir => 4,
        SetupStep::CreateVenv => 5,
        SetupStep::CheckVenvTools => 6,
        SetupStep::UpgradePip => 7,
        SetupStep::InstallIntoVenv => 8,
        SetupStep::CheckInstalledCommand => 9,
        SetupStep::ProbeAgain => 10,
    }
}

/// An outcome as the machine reads it.
pub enum OutcomeView {
    Yes,
    No,
    Failed(Seq<char>),
}

impl View for Outcome {
    type V = OutcomeView;

    open spec fn view(&self) -> OutcomeView {
        match self {
            Outcome::Yes => OutcomeView::Yes,
            Outcome::No => OutcomeView::No,
            Outcome::Failed(m) => OutcomeView::Failed(m@),
        }
    }
}

/// An action as the machine plans it.
pub enum PlannedAction {
    Perform(SetupStep),
    Ready,
    GiveUp(Seq<char>),
}

impl View for SetupAction {
    type V = PlannedAction;

    open spec fn view(&self) -> PlannedAction {
        match self {
            SetupAction::Perform(s) => PlannedAction::Perform(*s),
            SetupAction::Ready => PlannedAction::Ready,
            SetupAction::GiveUp(m) => PlannedAction::GiveUp(m@),
        }
    }
}

/// The text a step gives up with when it fails without an error text of its own.
pub open spec fn step_failure_message(step: SetupStep) -> Seq<char> {
    match step {
        SetupStep::CreateVenvDir => "не вдалося створити директорію для venv"@,
        SetupStep::CreateVenv => "не вдалося створити venv"@,
        SetupStep::CheckVenvTools => "venv створено, але python/pip не знайдено"@,
        SetupStep::UpgradePip => "не вдалося оновити pip у venv"@,
        SetupStep::InstallIntoVenv => "не вдалося встановити litert-lm у venv"@,
        SetupStep::CheckInstalledCommand => "litert-lm встановлено, але виконуваний файл не знайдено"@,
        _ => "Не знайдено litert-lm навіть після спроби встановлення"@,
    }
}

/// The step that follows a successful one on the way through the private virtual
/// environment.
pub open spec fn following(step: SetupStep) -> SetupStep {
    match step {
        SetupStep::LocateVenv => SetupStep::CheckVenvTools,
        SetupStep::CreateVenvDir => SetupStep::CreateVenv,
        SetupStep::CreateVenv => SetupStep::CheckVenvTools,
        SetupStep::CheckVenvTools => SetupStep::UpgradePip,
        SetupStep::UpgradePip => SetupStep::InstallIntoVenv,
        SetupStep::InstallIntoVenv => SetupStep::CheckInstalledCommand,
        _ => SetupStep::ProbeAgain,
    }
}

/// The transition: the command is ready as soon as a probe runs it; a first probe that
/// does not find it starts the installation; `uv`, then `pipx`, then the private virtual
/// environment (created when missing) are tried, and a successful installation is
/// followed by a second probe; any other failure ends the setup with its error text.
pub open spec fn next_planned(step: SetupStep, outcome: OutcomeView) -> PlannedAction {
    match step {
        SetupStep::ProbeCommand => match outcome {
            OutcomeView::Yes => PlannedAction::Ready,
            OutcomeView::No => PlannedAction::Perform(SetupStep::InstallWithUv),
            OutcomeView::Failed(m) => PlannedAction::GiveUp(m),
        },
        SetupStep::InstallWithUv => match outcome {
            OutcomeView::Yes => PlannedAction::Perform(SetupStep::ProbeAgain),
            _ => PlannedAction::Perform(SetupStep::InstallWithPipx),
        },
        SetupStep::InstallWithPipx => match outcome {
            OutcomeView::Yes => PlannedAction::Perform(SetupStep::ProbeAgain),
            _ => PlannedAction::Perform(SetupStep::LocateVenv),
        },
        SetupStep::LocateVenv => match outcome {
            OutcomeView::Yes => PlannedAction::Perform(SetupStep::CheckVenvTools),
            OutcomeView::No => PlannedAction::Perform(SetupStep::CreateVenvDir),
            OutcomeView::Failed(m) => PlannedAction::GiveUp(m),
        },
        SetupStep::ProbeAgain => match outcome {
            OutcomeView::Yes => PlannedAction::Ready,
            OutcomeView::No => PlannedAction::GiveUp(step_failure_message(step)),
            OutcomeView::Failed(m) => PlannedAction::GiveUp(m),
        },
        _ => match outcome {
            OutcomeView::Yes => PlannedAction::Perform(following(step)),
            OutcomeView::No => PlannedAction::GiveUp(step_failure_message(step)),
            OutcomeView::Failed(m) => PlannedAction::GiveUp(m),
        },
    }
}

fn step_failure_text(step: SetupStep) -> (r: String)
    ensures
        r@ == step_failure_message(step),
{
    match step {
        SetupStep::CreateVenvDir => "не вдалося створити директорію для venv".to_owned(),
        SetupStep::CreateVenv => "не вдалося створити venv".to_owned(),
        SetupStep::CheckVenvTools => "venv створено, але python/pip не знайдено".to_owned(),
        SetupStep::UpgradePip => "не вдалося оновити pip у venv".to_owned(),
        SetupStep::InstallIntoVenv => "не вдалося встановити litert-lm у venv".to_owned(),
        SetupStep::CheckInstalledCommand => "litert-lm встановлено, але виконуваний файл не знайдено".to_owned(),
        _ => "Не знайдено litert-lm навіть після спроби встановлення".to_owned(),
    }
}

fn following_step(step: SetupStep) -> (r: SetupStep)
    ensures
        r == following(step),
{
    match step {
        SetupStep::LocateVenv => SetupStep::CheckVenvTools,
        SetupStep::CreateVenvDir => SetupStep::CreateVenv,
        SetupStep::CreateVenv => SetupStep::CheckVenvTools,
        SetupStep::CheckVenvTools => SetupStep::UpgradePip,
        SetupStep::UpgradePip => SetupStep::InstallIntoVenv,
        SetupStep::InstallIntoVenv => SetupStep::CheckInstalledCommand,
        _ => SetupStep::ProbeAgain,
    }
}

/// The step the setup starts with.
pub fn first_step() -> (r: SetupStep)
    ensures
        r == SetupStep::ProbeCommand,
{
    SetupStep::ProbeCommand
}

/// Says what to do after a step went as `outcome` says.
pub fn next_setup_action(step: SetupStep, outcome: Outcome) -> (r: SetupAction)
    ensures
        r@ == next_planned(step, outcome@),
{
    match step {
        SetupStep::ProbeCommand => match outcome {
            Outcome::Yes => SetupAction::Ready,
            Outcome::No => SetupAction::Perform(SetupStep::InstallWithUv),
            Outcome::Failed(m) => SetupAction::GiveUp(m),
        },
        SetupStep::InstallWithUv => match outcome {
            Outcome::Yes => SetupAction::Perform(SetupStep::ProbeAgain),
            _ => SetupAction::Perform(SetupStep::InstallWithPipx),
        },
        SetupStep::InstallWithPipx => match outcome {
            Outcome::Yes => SetupAction::Perform(SetupStep::ProbeAgain),
            _ => SetupAction::Perform(SetupStep::LocateVenv),
        },
        SetupStep::LocateVenv => match outcome {
            Outcome::Yes => SetupAction::Perform(SetupStep::CheckVenvTools),
            Outcome::No => SetupAction::Perform(SetupStep::CreateVenvDir),
            Outcome::Failed(m) => SetupAction::GiveUp(m),
        },
        SetupStep::ProbeAgain => match outcome {
            Outcome::Yes => SetupAction::Ready,
            Outcome::No => SetupAction::GiveUp(step_failure_text(step)),
            Outcome::Failed(m) => SetupAction::GiveUp(m),
        },
        _ => match outcome {
            Outcome::Yes => SetupAction::Perform(following_step(step)),
            Outcome::No => SetupAction::GiveUp(step_failure_text(step)),
            Outcome::Failed(m) => SetupAction::GiveUp(m),
        },
    }
}

/// Every step the machine asks for comes later in the order than the one before, so
/// the setup ends after at most eleven steps.
pub proof fn lemma_setup_moves_forward(step: SetupStep, outcome: OutcomeView)
    ensures
        next_planned(step, outcome) matches PlannedAction::Perform(n) ==> rank(n) > rank(step),
{
}

/// The machine says the command is ready only right after a probe ran it
/// successfully; and the installers `uv` and `pipx` failing never ends the setup.
pub proof fn lemma_ready_only_after_probe(step: SetupStep, outcome: OutcomeView)
    ensures
        next_planned(step, outcome) is Ready ==> (step == SetupStep::ProbeCommand || step
            == SetupStep::ProbeAgain) && outcome is Yes,
        (step == SetupStep::InstallWithUv || step == SetupStep::InstallWithPipx)
            ==> next_planned(step, outcome) is Perform,
{
}

/// An installation that succeeds, with `uv` or with `pipx`, is followed at once by the
/// second probe of the command. `pipx` is tried only after `uv` did not succeed, and the
/// private virtual environment only after `pipx` did not succeed either; a first probe
/// leads to installing only when the command was not found.
pub proof fn lemma_installers_then_probe(step: SetupStep, outcome: OutcomeView)
    ensures
        (step == SetupStep::InstallWithUv || step == SetupStep::InstallWithPipx) && outcome is Yes
            ==> next_planned(step, outcome) == PlannedAction::Perform(SetupStep::ProbeAgain),
        next_planned(step, outcome) == PlannedAction::Perform(SetupStep::LocateVenv) ==> step
            == SetupStep::InstallWithPipx && !(outcome is Yes),
        next_planned(step, outcome) == PlannedAction::Perform(SetupStep::InstallWithPipx) ==> step
            == SetupStep::InstallWithUv && !(outcome is Yes),
        next_planned(step, outcome) == PlannedAction::Perform(SetupStep::InstallWithUv) ==> step
            == SetupStep::ProbeCommand && outcome is No,
        next_planned(step, outcome) == PlannedAction::Perform(SetupStep::CreateVenvDir) ==> step
            == SetupStep::LocateVenv && outcome is No,
{
}

/// `base` joined with the relative path `rel` as `Path::join` does on Unix: a `/` goes
/// between them unless `base` is empty or already ends with one.
pub open spec fn joined(base: Seq<char>, rel: Seq<char>) -> Seq<char> {
    if base.len() == 0 {
        rel
    } else if base.last() == '/' {
        base + rel
    } else {
        base + seq!['/'] + rel
    }
}

/// Joins a base path and a relative path as `Path::join` does on Unix.
pub fn join_path(base: &str, rel: &str) -> (r: String)
    ensures
        r@ == joined(base@, rel@),
{
    let n = base.unicode_len();
    let mut r = base.to_owned();
    if n > 0 && base.get_char(n - 1) != '/' {
        r.append("/");
    }
    r.append(rel);
    proof {
        if n > 0 && base@.last() != '/' {
            reveal_strlit("/");
            assert("/"@ =~= seq!['/']);
        }
    }
    r
}

/// Where `litert-lm` may be found under the user's home, in the order tried.
pub open spec fn home_candidates(home: Seq<char>) -> Seq<Seq<char>> {
    seq![
        joined(home, ".local/bin/litert-lm"@),
        joined(home, "Library/Python/3.13/bin/litert-lm"@),
        joined(home, "Library/Python/3.12/bin/litert-lm"@),
        joined(home, "Library/Python/3.11/bin/litert-lm"@),
        joined(home, "Library/Python/3.10/bin/litert-lm"@),
        joined(home, ".local/share/dezleks/tools/litert-lm-venv/bin/litert-lm"@),
    ]
}

/// Every place `litert-lm` may be found, in the order tried: the path in
/// `DEZLEKS_LITERT_LM_BIN`, trimmed, unless it is blank; the two usual install
/// places; then the places under the home directory, when it is known.
pub open spec fn command_candidates(configured: Option<Seq<char>>, home: Option<Seq<char>>) -> Seq<Seq<char>> {
    let first = match non_blank(configured) {
        Some(p) => seq![p],
        None => Seq::empty(),
    };
    let fixed = seq!["/opt/homebrew/bin/litert-lm"@, "/usr/local/bin/litert-lm"@];
    let under_home = match home {
        Some(h) => home_candidates(h),
        None => Seq::empty(),
    };
    first + fixed + under_home
}

/// The texts of a list of strings.
pub open spec fn texts(v: Seq<String>) -> Seq<Seq<char>> {
    v.map_values(|s: String| s@)
}

/// Lists the places to look for `litert-lm`, from the configured path and the home
/// directory; the first that exists is used, else the bare command name.
pub fn litert_command_candidates(configured: Option<String>, home: Option<String>) -> (r: Vec<String>)
    ensures
        texts(r@) == command_candidates(text_of(configured), text_of(home)),
{
    let mut r: Vec<String> = Vec::new();
    let ghost first: Seq<Seq<char>> = Seq::empty();
    match trimmed_non_blank(configured) {
        Some(p) => {
            proof { first = seq![p@]; }
            r.push(p);
        },
        None => {},
    }
    assert(texts(r@) =~= first);
    r.push("/opt/homebrew/bin/litert-lm".to_owned());
    r.push("/usr/local/bin/litert-lm".to_owned());
    let ghost fixed = seq!["/opt/homebrew/bin/litert-lm"@, "/usr/local/bin/litert-lm"@];
    assert(texts(r@) =~= first + fixed);
    match home {
        Some(h) => {
            let h = h.as_str();
            r.push(join_path(h, ".local/bin/litert-lm"));
            r.push(join_path(h, "Library/Python/3.13/bin/litert-lm"));
            r.push(join_path(h, "Library/Python/3.12/bin/litert-lm"));
            r.push(join_path(h, "Library/Python/3.11/bin/litert-lm"));
            r.push(join_path(h, "Library/Python/3.10/bin/litert-lm"));
            r.push(join_path(h, ".local/share/dezleks/tools/litert-lm-venv/bin/litert-lm"));
            assert(texts(r@) =~= first + fixed + home_candidates(h@));
        },
        None => {
            assert(texts(r@) =~= first + fixed + Seq::<Seq<char>>::empty());
        },
    }
    r
}

/// The directory of the private virtual environment under the home directory.
pub fn venv_dir_under(home: &str) -> (r: String)
    ensures
        r@ == joined(home@, ".local/share/dezleks/tools/litert-lm-venv"@),
{
    join_path(home, ".local/share/dezleks/tools/litert-lm-venv")
}

} // verus!
