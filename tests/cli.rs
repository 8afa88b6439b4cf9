use mobile_cicd::cli::{Cli, PlatformChoice, Question, Toggle};
use mobile_cicd::conflict::{decide, may_overwrite, Decision};
use mobile_cicd::error::ProvisionError;
use mobile_cicd::platform::{ignored_platforms, is_valid_selection, Platform};

fn base() -> Cli {
    Cli {
        interactive: false,
        terminal: true,
        destination: Some("proj".to_string()),
        platform: Some(Platform::Ios),
        skip_fastlane: true,
        copy_github_workflow: true,
        uses_cocoapods: true,
        force_copy: true,
    }
}

#[test]
fn platform_expansion_and_names() {
    assert_eq!(Platform::All.as_platforms(), vec![Platform::Android, Platform::Ios]);
    assert_eq!(Platform::Ios.as_platforms(), vec![Platform::Ios]);
    assert_eq!(Platform::Android.name(), "android");
    assert_eq!(Platform::Ios.name(), "ios");
    assert_eq!(Platform::All.name(), "all");
}

#[test]
fn ignored_is_complement() {
    assert_eq!(ignored_platforms(&vec![Platform::Android]), vec![Platform::Ios]);
    assert_eq!(ignored_platforms(&vec![Platform::Ios, Platform::Android]), vec![]);
    assert_eq!(ignored_platforms(&vec![]), vec![Platform::Android, Platform::Ios]);
    assert!(is_valid_selection(&vec![Platform::Ios]));
    assert!(!is_valid_selection(&vec![]));
    assert!(!is_valid_selection(&vec![Platform::All]));
}

#[test]
fn conflict_policy() {
    assert_eq!(may_overwrite(false, false, false), Decision::Proceed);
    assert_eq!(may_overwrite(true, false, false), Decision::Abort);
    assert_eq!(may_overwrite(true, false, true), Decision::Proceed);
    assert_eq!(may_overwrite(true, true, true), Decision::Ask);
    assert_eq!(may_overwrite(true, true, false), Decision::Ask);
    assert_eq!(decide(true), Decision::Proceed);
    assert_eq!(decide(false), Decision::Abort);
}

#[test]
fn non_interactive_reads_flags() {
    let c = base();
    assert!(!c.is_interactive());
    assert!(c.should_force_copy());
    assert_eq!(c.should_copy_fastlane(), Toggle::Value(false));
    assert_eq!(c.should_copy_github_workflow(true), Toggle::Value(true));
    assert_eq!(c.should_configure_cocoapods(), Toggle::Value(true));
    assert_eq!(c.get_platforms(), Ok(PlatformChoice::Given(vec![Platform::Ios])));
}

#[test]
fn interactive_needs_terminal() {
    let mut c = base();
    c.interactive = true;
    c.terminal = false;
    assert!(!c.is_interactive());
    c.terminal = true;
    assert!(c.is_interactive());
    assert_eq!(c.get_platforms(), Ok(PlatformChoice::Ask));
    assert_eq!(c.should_copy_fastlane(), Toggle::Ask(Question::CopyFastlane));
    assert_eq!(
        c.should_copy_github_workflow(false),
        Toggle::Ask(Question::CopyWorkflow { exists: false })
    );
    assert_eq!(c.should_configure_cocoapods(), Toggle::Ask(Question::AddCocoapods));
}

#[test]
fn missing_platform_is_an_error() {
    let mut c = base();
    c.platform = None;
    assert_eq!(c.get_platforms(), Err(ProvisionError::MissingRequiredArgument));
}

#[test]
fn question_texts_and_defaults() {
    assert_eq!(Question::OverwriteGemfile.prompt(), "File 'Gemfile' already exists, overwrite it?");
    assert!(Question::OverwriteGemfile.default_answer());
    assert!(Question::CopyFastlane.default_answer());
    assert!(!Question::AddCocoapods.default_answer());
    assert_eq!(
        Question::BackupFastlane { replace: true }.prompt(),
        "Found an existing backup, do you want to replace it with a new one?"
    );
    assert_eq!(
        Question::CopyWorkflow { exists: true }.prompt(),
        "Replace existing GitHub main.yml workflow?"
    );
}

#[test]
fn new_keeps_flags() {
    let c = Cli::new(true, None, Some(Platform::All), false, true, false, true);
    assert!(c.interactive);
    assert_eq!(c.platform, Some(Platform::All));
    assert!(c.copy_github_workflow);
    assert!(c.force_copy);
    assert!(!c.skip_fastlane);
}

#[test]
fn error_messages() {
    assert_eq!(ProvisionError::DownloadFailed.message(), "Failed to download repository");
    assert_eq!(ProvisionError::FileConflict.message(), "File exists but couldn't overwrite it");
}
