use dezleks::setup::{
    first_step, join_path, litert_command_candidates, next_setup_action, venv_dir_under, Outcome,
    SetupAction, SetupStep,
};

fn perform(action: SetupAction) -> SetupStep {
    match action {
        SetupAction::Perform(s) => s,
        other => panic!("expected a step, got {:?}", other),
    }
}

fn give_up(action: SetupAction) -> String {
    match action {
        SetupAction::GiveUp(m) => m,
        other => panic!("expected an error, got {:?}", other),
    }
}

#[test]
fn found_at_once() {
    assert_eq!(first_step(), SetupStep::ProbeCommand);
    assert!(matches!(next_setup_action(SetupStep::ProbeCommand, Outcome::Yes), SetupAction::Ready));
}

#[test]
fn probe_error_gives_up() {
    let m = give_up(next_setup_action(SetupStep::ProbeCommand, Outcome::Failed("boom".to_string())));
    assert_eq!(m, "boom");
}

#[test]
fn installs_with_uv_then_probes_again() {
    let s = perform(next_setup_action(SetupStep::ProbeCommand, Outcome::No));
    assert_eq!(s, SetupStep::InstallWithUv);
    let s = perform(next_setup_action(s, Outcome::Yes));
    assert_eq!(s, SetupStep::ProbeAgain);
    assert!(matches!(next_setup_action(s, Outcome::Yes), SetupAction::Ready));
    assert_eq!(
        give_up(next_setup_action(SetupStep::ProbeAgain, Outcome::No)),
        "Не знайдено litert-lm навіть після спроби встановлення"
    );
}

#[test]
fn falls_back_to_private_venv() {
    let mut s = SetupStep::InstallWithUv;
    s = perform(next_setup_action(s, Outcome::No));
    assert_eq!(s, SetupStep::InstallWithPipx);
    s = perform(next_setup_action(s, Outcome::Failed("x".to_string())));
    assert_eq!(s, SetupStep::LocateVenv);
    s = perform(next_setup_action(s, Outcome::No));
    assert_eq!(s, SetupStep::CreateVenvDir);
    s = perform(next_setup_action(s, Outcome::Yes));
    assert_eq!(s, SetupStep::CreateVenv);
    s = perform(next_setup_action(s, Outcome::Yes));
    assert_eq!(s, SetupStep::CheckVenvTools);
    s = perform(next_setup_action(s, Outcome::Yes));
    assert_eq!(s, SetupStep::UpgradePip);
    s = perform(next_setup_action(s, Outcome::Yes));
    assert_eq!(s, SetupStep::InstallIntoVenv);
    s = perform(next_setup_action(s, Outcome::Yes));
    assert_eq!(s, SetupStep::CheckInstalledCommand);
    s = perform(next_setup_action(s, Outcome::Yes));
    assert_eq!(s, SetupStep::ProbeAgain);
}

#[test]
fn existing_venv_skips_creation() {
    let s = perform(next_setup_action(SetupStep::LocateVenv, Outcome::Yes));
    assert_eq!(s, SetupStep::CheckVenvTools);
}

#[test]
fn venv_failures_give_up() {
    assert_eq!(
        give_up(next_setup_action(SetupStep::CheckVenvTools, Outcome::No)),
        "venv створено, але python/pip не знайдено"
    );
    assert_eq!(
        give_up(next_setup_action(SetupStep::CheckInstalledCommand, Outcome::No)),
        "litert-lm встановлено, але виконуваний файл не знайдено"
    );
    assert_eq!(
        give_up(next_setup_action(SetupStep::UpgradePip, Outcome::Failed("pip broke".to_string()))),
        "pip broke"
    );
    assert_eq!(
        give_up(next_setup_action(SetupStep::LocateVenv, Outcome::Failed("HOME env not set: x".to_string()))),
        "HOME env not set: x"
    );
}

#[test]
fn join_path_inserts_one_separator() {
    assert_eq!(join_path("/home/ann", ".local/bin"), "/home/ann/.local/bin");
    assert_eq!(join_path("/home/ann/", ".local/bin"), "/home/ann/.local/bin");
    assert_eq!(join_path("", "bin"), "bin");
}

#[test]
fn venv_lives_under_home() {
    assert_eq!(
        venv_dir_under("/home/ann"),
        "/home/ann/.local/share/dezleks/tools/litert-lm-venv"
    );
}

#[test]
fn candidates_start_with_trimmed_configured_path() {
    let c = litert_command_candidates(Some("  /x/litert-lm \n".to_string()), None);
    assert_eq!(
        c,
        vec![
            "/x/litert-lm".to_string(),
            "/opt/homebrew/bin/litert-lm".to_string(),
            "/usr/local/bin/litert-lm".to_string(),
        ]
    );
}

#[test]
fn blank_configured_path_is_skipped_and_home_places_follow() {
    let c = litert_command_candidates(Some("   ".to_string()), Some("/home/ann".to_string()));
    assert_eq!(c.len(), 8);
    assert_eq!(c[0], "/opt/homebrew/bin/litert-lm");
    assert_eq!(c[1], "/usr/local/bin/litert-lm");
    assert_eq!(c[2], "/home/ann/.local/bin/litert-lm");
    assert_eq!(c[3], "/home/ann/Library/Python/3.13/bin/litert-lm");
    assert_eq!(c[6], "/home/ann/Library/Python/3.10/bin/litert-lm");
    assert_eq!(
        c[7],
        "/home/ann/.local/share/dezleks/tools/litert-lm-venv/bin/litert-lm"
    );
}
