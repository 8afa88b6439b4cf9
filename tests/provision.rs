use mobile_cicd::cli::{Cli, Question};
use mobile_cicd::error::ProvisionError;
use mobile_cicd::platform::Platform;
use mobile_cicd::provision::{check_version, resolve_version, Action, App, Artifact, Event, Stage};

fn cli(interactive: bool, platform: Option<Platform>) -> Cli {
    Cli {
        interactive,
        terminal: interactive,
        destination: None,
        platform,
        skip_fastlane: false,
        copy_github_workflow: false,
        uses_cocoapods: false,
        force_copy: false,
    }
}

/// Runs the machine against a project in which `existing` artifacts exist,
/// answering questions from `answers` in order; returns every action asked for.
fn drive(cli: Cli, existing: &[Artifact], answers: &[bool], chosen: Vec<Platform>) -> Vec<Action> {
    let mut app = App::new(cli);
    let mut answers = answers.iter();
    let mut event = Event::Started;
    let mut actions = Vec::new();
    loop {
        let action = app.step(event);
        actions.push(action);
        event = match action {
            Action::FetchVersion => Event::Version("v1.4.0\n".to_string()),
            Action::SelectPlatforms => Event::Platforms(chosen.clone()),
            Action::Confirm(_) => Event::Answer(*answers.next().expect("an answer")),
            Action::CheckExists(a) => Event::Answer(existing.contains(&a)),
            Action::Succeed | Action::Fail(_) => break,
            _ => Event::Done,
        };
    }
    assert!(app.is_finished());
    actions
}

#[test]
fn scenario_android_forced_on_empty_project() {
    let mut c = cli(false, Some(Platform::Android));
    c.force_copy = true;
    let actions = drive(c, &[], &[], vec![]);
    assert_eq!(
        actions,
        vec![
            Action::FetchVersion,
            Action::Clone,
            Action::Copy(Artifact::Wrapper),
            Action::Copy(Artifact::RubyVersion),
            Action::CheckExists(Artifact::Gemfile),
            Action::Copy(Artifact::Gemfile),
            Action::CheckExists(Artifact::FastlaneDir),
            Action::Replace(Artifact::FastlaneDir),
            Action::Strip(Artifact::Appfile, Platform::Ios),
            Action::Strip(Artifact::Fastfile, Platform::Ios),
            Action::Succeed,
        ]
    );
}

#[test]
fn scenario_all_platforms_with_cocoapods() {
    let mut c = cli(false, Some(Platform::All));
    c.uses_cocoapods = true;
    let actions = drive(c, &[], &[], vec![]);
    assert!(!actions.iter().any(|a| matches!(a, Action::Strip(..))));
    assert_eq!(actions[actions.len() - 2], Action::AddCocoapods);
    assert_eq!(actions[actions.len() - 1], Action::Succeed);
}

#[test]
fn scenario_missing_platform_fails_first() {
    let actions = drive(cli(false, None), &[], &[], vec![]);
    assert_eq!(actions, vec![Action::Fail(ProvisionError::MissingRequiredArgument)]);
}

#[test]
fn scenario_existing_manifest_without_force_conflicts() {
    let actions = drive(cli(false, Some(Platform::Ios)), &[Artifact::Gemfile], &[], vec![]);
    assert_eq!(actions.last(), Some(&Action::Fail(ProvisionError::FileConflict)));
    assert!(!actions.contains(&Action::Replace(Artifact::FastlaneDir)));
    assert!(!actions.contains(&Action::Copy(Artifact::Workflow)));
    assert!(!actions.contains(&Action::Copy(Artifact::Gemfile)));
}

#[test]
fn scenario_backup_declined_still_replaces() {
    // answers: copy fastlane yes, backup no, workflow no, cocoapods no
    let actions = drive(
        cli(true, None),
        &[Artifact::FastlaneDir],
        &[true, false, false, false],
        vec![Platform::Ios],
    );
    assert!(actions.contains(&Action::Confirm(Question::BackupFastlane { replace: false })));
    assert!(actions.contains(&Action::Replace(Artifact::FastlaneDir)));
    assert!(!actions.contains(&Action::Backup));
    assert_eq!(actions.last(), Some(&Action::Succeed));
}

#[test]
fn backup_accepted_comes_before_replace() {
    let actions = drive(
        cli(true, None),
        &[Artifact::FastlaneDir, Artifact::FastlaneBackup],
        &[true, true, false, false],
        vec![Platform::Android, Platform::Ios],
    );
    let backup = actions.iter().position(|a| *a == Action::Backup).unwrap();
    let replace = actions.iter().position(|a| *a == Action::Replace(Artifact::FastlaneDir)).unwrap();
    assert!(backup < replace);
    assert!(actions.contains(&Action::Confirm(Question::BackupFastlane { replace: true })));
}

#[test]
fn interactive_manifest_decline_is_fatal() {
    let actions = drive(cli(true, None), &[Artifact::Gemfile], &[false], vec![Platform::Android]);
    assert_eq!(actions.last(), Some(&Action::Fail(ProvisionError::FileConflict)));
}

#[test]
fn workflow_copied_and_stripped() {
    let mut c = cli(false, Some(Platform::Ios));
    c.copy_github_workflow = true;
    c.skip_fastlane = true;
    let actions = drive(c, &[], &[], vec![]);
    assert_eq!(
        actions[6..].to_vec(),
        vec![
            Action::CheckExists(Artifact::Workflow),
            Action::Copy(Artifact::Workflow),
            Action::Strip(Artifact::Workflow, Platform::Android),
            Action::Succeed,
        ]
    );
}

#[test]
fn existing_workflow_skipped_without_force() {
    let mut c = cli(false, Some(Platform::Android));
    c.copy_github_workflow = true;
    c.skip_fastlane = true;
    let actions = drive(c, &[Artifact::Workflow], &[], vec![]);
    assert!(!actions.contains(&Action::Copy(Artifact::Workflow)));
    assert_eq!(actions.last(), Some(&Action::Succeed));
}

#[test]
fn empty_version_fails() {
    let mut app = App::new(cli(false, Some(Platform::Android)));
    assert_eq!(app.step(Event::Started), Action::FetchVersion);
    assert_eq!(
        app.step(Event::Version("  \n".to_string())),
        Action::Fail(ProvisionError::VersionResolutionFailed)
    );
}

#[test]
fn failed_clone_is_download_failure() {
    let mut app = App::new(cli(false, Some(Platform::Android)));
    app.step(Event::Started);
    assert_eq!(app.step(Event::Version("v2\n".to_string())), Action::Clone);
    assert_eq!(app.version, "v2");
    assert_eq!(app.step(Event::Failed), Action::Fail(ProvisionError::DownloadFailed));
    assert_eq!(app.stage, Stage::Finished);
}

#[test]
fn invalid_selection_is_prompt_failure() {
    let mut app = App::new(cli(true, None));
    app.step(Event::Started);
    app.step(Event::Version("v1".to_string()));
    assert_eq!(app.step(Event::Done), Action::SelectPlatforms);
    assert_eq!(
        app.step(Event::Platforms(vec![])),
        Action::Fail(ProvisionError::PromptFailure)
    );
}

#[test]
fn failed_copy_is_io_failure() {
    let mut app = App::new(cli(false, Some(Platform::All)));
    app.step(Event::Started);
    app.step(Event::Version("v1".to_string()));
    assert_eq!(app.step(Event::Done), Action::Copy(Artifact::Wrapper));
    assert_eq!(app.step(Event::Failed), Action::Fail(ProvisionError::IoFailure));
}

#[test]
fn version_is_trimmed() {
    assert_eq!(resolve_version("  1.2.3 \n"), Ok("1.2.3".to_string()));
    assert_eq!(resolve_version("\n\t "), Err(ProvisionError::VersionResolutionFailed));
    assert_eq!(check_version(String::new()), Err(ProvisionError::VersionResolutionFailed));
    assert_eq!(check_version("v1".to_string()), Ok("v1".to_string()));
}

#[test]
fn artifact_paths() {
    assert_eq!(Artifact::Workflow.source(), "github/main.yml");
    assert_eq!(Artifact::Workflow.destination(), ".github/workflows/main.yml");
    assert_eq!(Artifact::Gemfile.source(), "Gemfile");
    assert_eq!(Artifact::FastlaneBackup.destination(), "fastlane.old");
}
