use vstd::prelude::*;
use vstd::string::*;
use crate::cli::{
    Cli, Question, Toggle, cocoapods_toggle, fastlane_toggle, interactive_of, workflow_toggle,
};
use crate::conflict::{Decision, may_overwrite, overwrite_policy};
use crate::error::ProvisionError;
use crate::platform::{
    Platform, expand, ignored_of, ignored_platforms, includes, is_valid_selection,
    lemma_ignored_is_complement, valid_selection,
};

verus! {

/// What `str::trim` gives for a text: the text without leading and trailing white space.
pub uninterp spec fn trimmed(s: Seq<char>) -> Seq<char>;

/// Relies on str::trim: the text without leading and trailing white space,
/// which depends on the text alone.
#[verifier::external_body]
fn trim(s: &str) -> (r: String)
    ensures
        r@ == trimmed(s@),
{
    s.trim().to_string()
}

/// A version identifier, once trimmed: usable unless empty.
pub fn check_version(trimmed_text: String) -> (r: Result<String, ProvisionError>)
    ensures
        trimmed_text@.len() > 0 ==> (r matches Ok(v) && v@ == trimmed_text@),
        trimmed_text@.len() == 0 ==> r == Err::<String, ProvisionError>(
            ProvisionError::VersionResolutionFailed,
        ),
{
    if trimmed_text.unicode_len() == 0 {
        Err(ProvisionError::VersionResolutionFailed)
    } else {
        Ok(trimmed_text)
    }
}

/// The template version named by the text that the version location served.
pub fn resolve_version(text: &str) -> (r: Result<String, ProvisionError>)
    ensures
        trimmed(text@).len() > 0 ==> (r matches Ok(v) && v@ == trimmed(text@)),
        trimmed(text@).len() == 0 ==> r == Err::<String, ProvisionError>(
            ProvisionError::VersionResolutionFailed,
        ),
{
    check_version(trim(text))
}

/// A file or directory that a run may write in the project.
#[derive(Debug, Clone, Copy, PartialEq, Eq, Structural)]
pub enum Artifact {
    /// The build-automation wrapper script.
    Wrapper,
    /// The runtime-version file.
    RubyVersion,
    /// The dependency manifest.
    Gemfile,
    /// The fastlane configuration directory.
    FastlaneDir,
    /// The backup of the fastlane configuration directory.
    FastlaneBackup,
    Appfile,
    Fastfile,
    /// The CI workflow file.
    Workflow,
}

/// Where an artifact stands in the template, relative to its root.
pub open spec fn source_path(a: Artifact) -> Seq<char> {
    match a {
        Artifact::Workflow => "github/main.yml"@,
        _ => destination_path(a),
    }
}

/// Where an artifact stands in the project, relative to its root.
pub open spec fn destination_path(a: Artifact) -> Seq<char> {
    match a {
        Artifact::Wrapper => "fastlanew"@,
        Artifact::RubyVersion => ".ruby-version"@,
        Artifact::Gemfile => "Gemfile"@,
        Artifact::FastlaneDir => "fastlane"@,
        Artifact::FastlaneBackup => "fastlane.old"@,
        Artifact::Appfile => "fastlane/Appfile"@,
        Artifact::Fastfile => "fastlane/Fastfile"@,
        Artifact::Workflow => ".github/workflows/main.yml"@,
    }
}

impl Artifact {
    pub fn destination(&self) -> (r: String)
        ensures
            r@ == destination_path(*self),
    {
        match self {
            Artifact::Wrapper => String::from_str("fastlanew"),
            Artifact::RubyVersion => String::from_str(".ruby-version"),
            Artifact::Gemfile => String::from_str("Gemfile"),
            Artifact::FastlaneDir => String::from_str("fastlane"),
            Artifact::FastlaneBackup => String::from_str("fastlane.old"),
            Artifact::Appfile => String::from_str("fastlane/Appfile"),
            Artifact::Fastfile => String::from_str("fastlane/Fastfile"),
            Artifact::Workflow => String::from_str(".github/workflows/main.yml"),
        }
    }

    pub fn source(&self) -> (r: String)
        ensures
            r@ == source_path(*self),
    {
        match self {
            Artifact::Workflow => String::from_str("github/main.yml"),
            _ => self.destination(),
        }
    }
}

/// Where a run stands: the action it last asked for, whose outcome it awaits.
#[derive(Debug, Clone, Copy, PartialEq, Eq, Structural)]
pub enum Stage {
    Idle,
    FetchingVersion,
    Cloning,
    SelectingPlatforms,
    CopyingWrapper,
    CopyingRubyVersion,
    CheckingGemfile,
    ConfirmingGemfile,
    CopyingGemfile,
    ConfirmingFastlane,
    CheckingFastlane,
    CheckingBackup,
    ConfirmingBackup,
    BackingUp,
    ReplacingFastlane,
    /// Stripping the regions of the `i`-th ignored platform from the Appfile
    /// (`false`) or the Fastfile (`true`).
    StrippingFastlane(usize, bool),
    CheckingWorkflow,
    ConfirmingWorkflow,
    CopyingWorkflow,
    /// Stripping the regions of the `i`-th ignored platform from the workflow.
    StrippingWorkflow(usize),
    ConfirmingCocoapods,
    AddingCocoapods,
    Finished,
}

/// What a run asks its driver to do next. Paths are those of the artifacts: in
/// the template for a source, in the project otherwise.
#[derive(Debug, Clone, Copy, PartialEq, Eq, Structural)]
pub enum Action {
    /// Fetch the text naming the current template version; answer `Version`.
    FetchVersion,
    /// Check out the template at the resolved version; answer `Done`.
    Clone,
    /// Ask which platforms to configure; answer `Platforms`.
    SelectPlatforms,
    /// Ask a question; answer `Answer`.
    Confirm(Question),
    /// Tell whether an artifact exists in the project; answer `Answer`.
    CheckExists(Artifact),
    /// Copy a file from the template, creating missing directories; answer `Done`.
    Copy(Artifact),
    /// Replace a directory of the project by the template's; answer `Done`.
    Replace(Artifact),
    /// Replace the fastlane backup by a copy of the fastlane directory; answer `Done`.
    Backup,
    /// Remove the regions of a platform from a file; answer `Done`.
    Strip(Artifact, Platform),
    /// Add the Cocoapods dependency to the manifest; answer `Done`.
    AddCocoapods,
    /// The run is complete.
    Succeed,
    /// The run ended early.
    Fail(ProvisionError),
}

/// The outcome of an action, handed back to the run.
#[derive(Debug, Clone)]
pub enum Event {
    Started,
    Version(String),
    Platforms(Vec<Platform>),
    Answer(bool),
    Done,
    Failed,
}

/// The error that a failed action at `stage` ends the run with.
pub open spec fn failure_at(stage: Stage) -> ProvisionError {
    match stage {
        Stage::FetchingVersion => ProvisionError::VersionResolutionFailed,
        Stage::Cloning => ProvisionError::DownloadFailed,
        Stage::SelectingPlatforms | Stage::ConfirmingGemfile | Stage::ConfirmingFastlane
        | Stage::ConfirmingBackup | Stage::ConfirmingWorkflow
        | Stage::ConfirmingCocoapods => ProvisionError::PromptFailure,
        _ => ProvisionError::IoFailure,
    }
}

/// The last step: Cocoapods support, for a selection with iOS.
pub open spec fn cocoapods_start(cli: Cli, selected: Seq<Platform>) -> (Stage, Action) {
    if !selected.contains(Platform::Ios) {
        (Stage::Finished, Action::Succeed)
    } else {
        match cocoapods_toggle(cli) {
            Toggle::Ask(q) => (Stage::ConfirmingCocoapods, Action::Confirm(q)),
            Toggle::Value(true) => (Stage::AddingCocoapods, Action::AddCocoapods),
            Toggle::Value(false) => (Stage::Finished, Action::Succeed),
        }
    }
}

/// The workflow step, unless its flag turns it off.
pub open spec fn workflow_start(cli: Cli, selected: Seq<Platform>) -> (Stage, Action) {
    if interactive_of(cli) || cli.copy_github_workflow {
        (Stage::CheckingWorkflow, Action::CheckExists(Artifact::Workflow))
    } else {
        cocoapods_start(cli, selected)
    }
}

/// The fastlane step, unless it is turned off.
pub open spec fn fastlane_start(cli: Cli, selected: Seq<Platform>) -> (Stage, Action) {
    match fastlane_toggle(cli) {
        Toggle::Ask(q) => (Stage::ConfirmingFastlane, Action::Confirm(q)),
        Toggle::Value(true) => (Stage::CheckingFastlane, Action::CheckExists(Artifact::FastlaneDir)),
        Toggle::Value(false) => workflow_start(cli, selected),
    }
}

/// After the fastlane directory is in place: strip the ignored platforms' regions.
pub open spec fn fastlane_strip_start(cli: Cli, selected: Seq<Platform>) -> (Stage, Action) {
    let ignored = ignored_of(selected);
    if ignored.len() > 0 {
        (Stage::StrippingFastlane(0, false), Action::Strip(Artifact::Appfile, ignored[0]))
    } else {
        workflow_start(cli, selected)
    }
}

/// After the workflow is in place: strip the ignored platforms' regions.
pub open spec fn workflow_strip_start(cli: Cli, selected: Seq<Platform>) -> (Stage, Action) {
    let ignored = ignored_of(selected);
    if ignored.len() > 0 {
        (Stage::StrippingWorkflow(0), Action::Strip(Artifact::Workflow, ignored[0]))
    } else {
        cocoapods_start(cli, selected)
    }
}

/// The stage a run moves to, and the action it asks for, on `event` at `stage`.
/// An event that does not answer the pending action counts as its failure.
pub open spec fn next(cli: Cli, stage: Stage, selected: Seq<Platform>, event: Event) -> (
    Stage,
    Action,
) {
    let fail = (Stage::Finished, Action::Fail(failure_at(stage)));
    let ignored = ignored_of(selected);
    let interactive = interactive_of(cli);
    match stage {
        Stage::Idle => if !interactive && cli.platform is None {
            (Stage::Finished, Action::Fail(ProvisionError::MissingRequiredArgument))
        } else {
            (Stage::FetchingVersion, Action::FetchVersion)
        },
        Stage::FetchingVersion => match event {
            Event::Version(t) => if trimmed(t@).len() > 0 {
                (Stage::Cloning, Action::Clone)
            } else {
                fail
            },
            _ => fail,
        },
        Stage::Cloning => match event {
            Event::Done => if interactive {
                (Stage::SelectingPlatforms, Action::SelectPlatforms)
            } else {
                (Stage::CopyingWrapper, Action::Copy(Artifact::Wrapper))
            },
            _ => fail,
        },
        Stage::SelectingPlatforms => match event {
            Event::Platforms(v) => if valid_selection(v@) {
                (Stage::CopyingWrapper, Action::Copy(Artifact::Wrapper))
            } else {
                fail
            },
            _ => fail,
        },
        Stage::CopyingWrapper => match event {
            Event::Done => (Stage::CopyingRubyVersion, Action::Copy(Artifact::RubyVersion)),
            _ => fail,
        },
        Stage::CopyingRubyVersion => match event {
            Event::Done => (Stage::CheckingGemfile, Action::CheckExists(Artifact::Gemfile)),
            _ => fail,
        },
        Stage::CheckingGemfile => match event {
            Event::Answer(exists) => match overwrite_policy(exists, interactive, cli.force_copy) {
                Decision::Proceed => (Stage::CopyingGemfile, Action::Copy(Artifact::Gemfile)),
                Decision::Ask => (
                    Stage::ConfirmingGemfile,
                    Action::Confirm(Question::OverwriteGemfile),
                ),
                Decision::Abort => (Stage::Finished, Action::Fail(ProvisionError::FileConflict)),
            },
            _ => fail,
        },
        Stage::ConfirmingGemfile => match event {
            Event::Answer(yes) => if yes {
                (Stage::CopyingGemfile, Action::Copy(Artifact::Gemfile))
            } else {
                (Stage::Finished, Action::Fail(ProvisionError::FileConflict))
            },
            _ => fail,
        },
        Stage::CopyingGemfile => match event {
            Event::Done => fastlane_start(cli, selected),
            _ => fail,
        },
        Stage::ConfirmingFastlane => match event {
            Event::Answer(yes) => if yes {
                (Stage::CheckingFastlane, Action::CheckExists(Artifact::FastlaneDir))
            } else {
                workflow_start(cli, selected)
            },
            _ => fail,
        },
        Stage::CheckingFastlane => match event {
            Event::Answer(exists) => if exists && interactive {
                (Stage::CheckingBackup, Action::CheckExists(Artifact::FastlaneBackup))
            } else {
                (Stage::ReplacingFastlane, Action::Replace(Artifact::FastlaneDir))
            },
            _ => fail,
        },
        Stage::CheckingBackup => match event {
            Event::Answer(exists) => (
                Stage::ConfirmingBackup,
                Action::Confirm(Question::BackupFastlane { replace: exists }),
            ),
            _ => fail,
        },
        Stage::ConfirmingBackup => match event {
            Event::Answer(yes) => if yes {
                (Stage::BackingUp, Action::Backup)
            } else {
                (Stage::ReplacingFastlane, Action::Replace(Artifact::FastlaneDir))
            },
            _ => fail,
        },
        Stage::BackingUp => match event {
            Event::Done => (Stage::ReplacingFastlane, Action::Replace(Artifact::FastlaneDir)),
            _ => fail,
        },
        Stage::ReplacingFastlane => match event {
            Event::Done => fastlane_strip_start(cli, selected),
            _ => fail,
        },
        Stage::StrippingFastlane(i, second) => match event {
            Event::Done => if !second {
                (Stage::StrippingFastlane(i, true), Action::Strip(Artifact::Fastfile, ignored[i as int]))
            } else if i + 1 < ignored.len() {
                (
                    Stage::StrippingFastlane((i + 1) as usize, false),
                    Action::Strip(Artifact::Appfile, ignored[i + 1]),
                )
            } else {
                workflow_start(cli, selected)
            },
            _ => fail,
        },
        Stage::CheckingWorkflow => match event {
            Event::Answer(exists) => match workflow_toggle(cli, exists) {
                Toggle::Ask(q) => (Stage::ConfirmingWorkflow, Action::Confirm(q)),
                Toggle::Value(_) => if overwrite_policy(exists, false, cli.force_copy)
                    == Decision::Proceed {
                    (Stage::CopyingWorkflow, Action::Copy(Artifact::Workflow))
                } else {
                    cocoapods_start(cli, selected)
                },
            },
            _ => fail,
        },
        Stage::ConfirmingWorkflow => match event {
            Event::Answer(yes) => if yes {
                (Stage::CopyingWorkflow, Action::Copy(Artifact::Workflow))
            } else {
                cocoapods_start(cli, selected)
            },
            _ => fail,
        },
        Stage::CopyingWorkflow => match event {
            Event::Done => workflow_strip_start(cli, selected),
            _ => fail,
        },
        Stage::StrippingWorkflow(i) => match event {
            Event::Done => if i + 1 < ignored.len() {
                (
                    Stage::StrippingWorkflow((i + 1) as usize),
                    Action::Strip(Artifact::Workflow, ignored[i + 1]),
                )
            } else {
                cocoapods_start(cli, selected)
            },
            _ => fail,
        },
        Stage::ConfirmingCocoapods => match event {
            Event::Answer(yes) => if yes {
                (Stage::AddingCocoapods, Action::AddCocoapods)
            } else {
                (Stage::Finished, Action::Succeed)
            },
            _ => fail,
        },
        Stage::AddingCocoapods => match event {
            Event::Done => (Stage::Finished, Action::Succeed),
            _ => fail,
        },
        Stage::Finished => fail,
    }
}

/// The platforms selected once `event` is handled at `stage`: those of the flag
/// when the run starts without questions, those chosen when the user answers.
pub open spec fn selection_after(cli: Cli, stage: Stage, selected: Seq<Platform>, event: Event) -> Seq<
    Platform,
> {
    match stage {
        Stage::Idle => if !interactive_of(cli) && cli.platform is Some {
            expand(cli.platform->0)
        } else {
            selected
        },
        Stage::SelectingPlatforms => match event {
            Event::Platforms(v) => if valid_selection(v@) {
                v@
            } else {
                selected
            },
            _ => selected,
        },
        _ => selected,
    }
}

/// The version known once `event` is handled at `stage`: a fetched text names
/// the version once trimmed, unless that leaves nothing.
pub open spec fn version_after(stage: Stage, version: Seq<char>, event: Event) -> Seq<char> {
    match stage {
        Stage::FetchingVersion => match event {
            Event::Version(t) => if trimmed(t@).len() > 0 {
                trimmed(t@)
            } else {
                version
            },
            _ => version,
        },
        _ => version,
    }
}

/// One provisioning run, driven by the events its driver hands back.
#[derive(Debug)]
pub struct App {
    pub cli: Cli,
    pub stage: Stage,
    /// The platforms to configure.
    pub selected: Vec<Platform>,
    /// The concrete platforms not selected: their regions are stripped.
    pub ignored: Vec<Platform>,
    /// The template version to check out.
    pub version: String,
}

impl App {
    /// The run's state is consistent: the ignored platforms are those the
    /// selection leaves out, and a stripping stage names one of them.
    pub open spec fn wf(&self) -> bool {
        &&& self.ignored@ == ignored_of(self.selected@)
        &&& match self.stage {
            Stage::StrippingFastlane(i, _) => i < self.ignored@.len(),
            Stage::StrippingWorkflow(i) => i < self.ignored@.len(),
            _ => true,
        }
    }

    pub fn new(cli: Cli) -> (r: App)
        ensures
            r.wf(),
            r.cli == cli,
            r.stage == Stage::Idle,
            r.selected@.len() == 0,
            r.version@.len() == 0,
    {
        let selected: Vec<Platform> = Vec::new();
        let ignored = ignored_platforms(&selected);
        App { cli, stage: Stage::Idle, selected, ignored, version: String::new() }
    }

    pub fn is_finished(&self) -> (r: bool)
        ensures
            r == (self.stage == Stage::Finished),
    {
        match self.stage {
            Stage::Finished => true,
            _ => false,
        }
    }

    fn fail(&mut self, e: ProvisionError) -> (r: Action)
        ensures
            final(self).stage == Stage::Finished,
            final(self).cli == old(self).cli,
            final(self).selected == old(self).selected,
            final(self).ignored == old(self).ignored,
            final(self).version == old(self).version,
            r == Action::Fail(e),
    {
        self.stage = Stage::Finished;
        Action::Fail(e)
    }

    fn failure(&self) -> (r: ProvisionError)
        ensures
            r == failure_at(self.stage),
    {
        match self.stage {
            Stage::FetchingVersion => ProvisionError::VersionResolutionFailed,
            Stage::Cloning => ProvisionError::DownloadFailed,
            Stage::SelectingPlatforms | Stage::ConfirmingGemfile | Stage::ConfirmingFastlane
            | Stage::ConfirmingBackup | Stage::ConfirmingWorkflow
            | Stage::ConfirmingCocoapods => ProvisionError::PromptFailure,
            _ => ProvisionError::IoFailure,
        }
    }

    fn go(&mut self, stage: Stage, a: Action) -> (r: Action)
        ensures
            final(self).stage == stage,
            final(self).cli == old(self).cli,
            final(self).selected == old(self).selected,
            final(self).ignored == old(self).ignored,
            final(self).version == old(self).version,
            r == a,
    {
        self.stage = stage;
        a
    }

    fn start_cocoapods(&mut self) -> (r: Action)
        ensures
            (final(self).stage, r) == cocoapods_start(old(self).cli, old(self).selected@),
            final(self).cli == old(self).cli,
            final(self).selected == old(self).selected,
            final(self).ignored == old(self).ignored,
            final(self).version == old(self).version,
    {
        if !includes(&self.selected, Platform::Ios) {
            return self.go(Stage::Finished, Action::Succeed);
        }
        match self.cli.should_configure_cocoapods() {
            Toggle::Ask(q) => self.go(Stage::ConfirmingCocoapods, Action::Confirm(q)),
            Toggle::Value(true) => self.go(Stage::AddingCocoapods, Action::AddCocoapods),
            Toggle::Value(false) => self.go(Stage::Finished, Action::Succeed),
        }
    }

    fn start_workflow(&mut self) -> (r: Action)
        ensures
            (final(self).stage, r) == workflow_start(old(self).cli, old(self).selected@),
            final(self).cli == old(self).cli,
            final(self).selected == old(self).selected,
            final(self).ignored == old(self).ignored,
            final(self).version == old(self).version,
    {
        if self.cli.is_interactive() || self.cli.copy_github_workflow {
            self.go(Stage::CheckingWorkflow, Action::CheckExists(Artifact::Workflow))
        } else {
            self.start_cocoapods()
        }
    }

    fn start_fastlane(&mut self) -> (r: Action)
        ensures
            (final(self).stage, r) == fastlane_start(old(self).cli, old(self).selected@),
            final(self).cli == old(self).cli,
            final(self).selected == old(self).selected,
            final(self).ignored == old(self).ignored,
            final(self).version == old(self).version,
    {
        match self.cli.should_copy_fastlane() {
            Toggle::Ask(q) => self.go(Stage::ConfirmingFastlane, Action::Confirm(q)),
            Toggle::Value(true) => self.go(
                Stage::CheckingFastlane,
                Action::CheckExists(Artifact::FastlaneDir),
            ),
            Toggle::Value(false) => self.start_workflow(),
        }
    }
}

/// Without a terminal to ask on and without a platform flag, a run fails with a
/// missing argument as its first action, before any network or file work.
pub proof fn lemma_missing_platform_fails_first(cli: Cli, selected: Seq<Platform>, event: Event)
    requires
        !interactive_of(cli),
        cli.platform is None,
    ensures
        next(cli, Stage::Idle, selected, event) == (
            Stage::Finished,
            Action::Fail(ProvisionError::MissingRequiredArgument),
        ),
{
}

/// An existing dependency manifest, in a run that neither asks nor forces, ends
/// the run with a conflict before any fastlane or workflow work.
pub proof fn lemma_manifest_conflict_is_fatal(cli: Cli, selected: Seq<Platform>)
    requires
        !interactive_of(cli),
        !cli.force_copy,
    ensures
        next(cli, Stage::CheckingGemfile, selected, Event::Answer(true)) == (
            Stage::Finished,
            Action::Fail(ProvisionError::FileConflict),
        ),
{
}

/// Declining the backup of the fastlane configuration skips the backup only:
/// the directory is still replaced.
pub proof fn lemma_declined_backup_still_replaces(cli: Cli, selected: Seq<Platform>)
    ensures
        next(cli, Stage::ConfirmingBackup, selected, Event::Answer(false)) == (
            Stage::ReplacingFastlane,
            Action::Replace(Artifact::FastlaneDir),
        ),
{
}

/// A run only ever strips the regions of a platform that was not selected.
pub proof fn lemma_only_ignored_regions_stripped(
    cli: Cli,
    stage: Stage,
    selected: Seq<Platform>,
    event: Event,
    a: Artifact,
    p: Platform,
)
    requires
        match stage {
            Stage::StrippingFastlane(i, _) => i < ignored_of(selected).len(),
            Stage::StrippingWorkflow(i) => i < ignored_of(selected).len(),
            _ => true,
        },
        stage != Stage::Idle,
        stage != Stage::SelectingPlatforms,
        next(cli, stage, selected, event).1 == Action::Strip(a, p),
    ensures
        !selected.contains(p),
        p != Platform::All,
{
    lemma_ignored_is_complement(selected);
    assert(ignored_of(selected).contains(p));
}

impl App {
    /// Hands the outcome of the pending action to the run; returns the next action.
    #[verifier::rlimit(50)]
    pub fn step(&mut self, event: Event) -> (r: Action)
        requires
            old(self).wf(),
            old(self).stage != Stage::Finished,
        ensures
            final(self).wf(),
            final(self).cli == old(self).cli,
            (final(self).stage, r) == next(old(self).cli, old(self).stage, old(self).selected@, event),
            final(self).selected@ == selection_after(
                old(self).cli,
                old(self).stage,
                old(self).selected@,
                event,
            ),
            final(self).version@ == version_after(old(self).stage, old(self).version@, event),
    {
        let interactive = self.cli.is_interactive();
        match self.stage {
            Stage::Idle => {
                if interactive {
                    self.go(Stage::FetchingVersion, Action::FetchVersion)
                } else {
                    match self.cli.platform {
                        Some(p) => {
                            let selected = p.as_platforms();
                            self.ignored = ignored_platforms(&selected);
                            self.selected = selected;
                            self.go(Stage::FetchingVersion, Action::FetchVersion)
                        },
                        None => self.fail(ProvisionError::MissingRequiredArgument),
                    }
                }
            },
            Stage::FetchingVersion => match event {
                Event::Version(t) => match resolve_version(t.as_str()) {
                    Ok(v) => {
                        self.version = v;
                        self.go(Stage::Cloning, Action::Clone)
                    },
                    Err(e) => self.fail(e),
                },
                _ => self.fail(ProvisionError::VersionResolutionFailed),
            },
            Stage::Cloning => match event {
                Event::Done => if interactive {
                    self.go(Stage::SelectingPlatforms, Action::SelectPlatforms)
                } else {
                    self.go(Stage::CopyingWrapper, Action::Copy(Artifact::Wrapper))
                },
                _ => self.fail(ProvisionError::DownloadFailed),
            },
            Stage::SelectingPlatforms => match event {
                Event::Platforms(v) => if is_valid_selection(&v) {
                    self.ignored = ignored_platforms(&v);
                    self.selected = v;
                    self.go(Stage::CopyingWrapper, Action::Copy(Artifact::Wrapper))
                } else {
                    self.fail(ProvisionError::PromptFailure)
                },
                _ => self.fail(ProvisionError::PromptFailure),
            },
            Stage::CopyingWrapper => match event {
                Event::Done => self.go(Stage::CopyingRubyVersion, Action::Copy(Artifact::RubyVersion)),
                _ => self.fail(ProvisionError::IoFailure),
            },
            Stage::CopyingRubyVersion => match event {
                Event::Done => self.go(Stage::CheckingGemfile, Action::CheckExists(Artifact::Gemfile)),
                _ => self.fail(ProvisionError::IoFailure),
            },
            Stage::CheckingGemfile => match event {
                Event::Answer(exists) => match may_overwrite(
                    exists,
                    interactive,
                    self.cli.should_force_copy(),
                ) {
                    Decision::Proceed => self.go(Stage::CopyingGemfile, Action::Copy(Artifact::Gemfile)),
                    Decision::Ask => self.go(
                        Stage::ConfirmingGemfile,
                        Action::Confirm(Question::OverwriteGemfile),
                    ),
                    Decision::Abort => self.fail(ProvisionError::FileConflict),
                },
                _ => self.fail(ProvisionError::IoFailure),
            },
            Stage::ConfirmingGemfile => match event {
                Event::Answer(yes) => if yes {
                    self.go(Stage::CopyingGemfile, Action::Copy(Artifact::Gemfile))
                } else {
                    self.fail(ProvisionError::FileConflict)
                },
                _ => self.fail(ProvisionError::PromptFailure),
            },
            Stage::CopyingGemfile => match event {
                Event::Done => self.start_fastlane(),
                _ => self.fail(ProvisionError::IoFailure),
            },
            Stage::ConfirmingFastlane => match event {
                Event::Answer(yes) => if yes {
                    self.go(Stage::CheckingFastlane, Action::CheckExists(Artifact::FastlaneDir))
                } else {
                    self.start_workflow()
                },
                _ => self.fail(ProvisionError::PromptFailure),
            },
            Stage::CheckingFastlane => match event {
                Event::Answer(exists) => if exists && interactive {
                    self.go(Stage::CheckingBackup, Action::CheckExists(Artifact::FastlaneBackup))
                } else {
                    self.go(Stage::ReplacingFastlane, Action::Replace(Artifact::FastlaneDir))
                },
                _ => self.fail(ProvisionError::IoFailure),
            },
            Stage::CheckingBackup => match event {
                Event::Answer(exists) => self.go(
                    Stage::ConfirmingBackup,
                    Action::Confirm(Question::BackupFastlane { replace: exists }),
                ),
                _ => self.fail(ProvisionError::IoFailure),
            },
            Stage::ConfirmingBackup => match event {
                Event::Answer(yes) => if yes {
                    self.go(Stage::BackingUp, Action::Backup)
                } else {
                    self.go(Stage::ReplacingFastlane, Action::Replace(Artifact::FastlaneDir))
                },
                _ => self.fail(ProvisionError::PromptFailure),
            },
            Stage::BackingUp => match event {
                Event::Done => self.go(Stage::ReplacingFastlane, Action::Replace(Artifact::FastlaneDir)),
                _ => self.fail(ProvisionError::IoFailure),
            },
            Stage::ReplacingFastlane => match event {
                Event::Done => if self.ignored.len() > 0 {
                    let p = self.ignored[0];
                    self.go(Stage::StrippingFastlane(0, false), Action::Strip(Artifact::Appfile, p))
                } else {
                    self.start_workflow()
                },
                _ => self.fail(ProvisionError::IoFailure),
            },
            Stage::StrippingFastlane(i, second) => match event {
                Event::Done => if !second {
                    let p = self.ignored[i];
                    self.go(Stage::StrippingFastlane(i, true), Action::Strip(Artifact::Fastfile, p))
                } else if i + 1 < self.ignored.len() {
                    let p = self.ignored[i + 1];
                    self.go(Stage::StrippingFastlane(i + 1, false), Action::Strip(Artifact::Appfile, p))
                } else {
                    self.start_workflow()
                },
                _ => self.fail(ProvisionError::IoFailure),
            },
            Stage::CheckingWorkflow => match event {
                Event::Answer(exists) => match self.cli.should_copy_github_workflow(exists) {
                    Toggle::Ask(q) => self.go(Stage::ConfirmingWorkflow, Action::Confirm(q)),
                    Toggle::Value(_) => match may_overwrite(exists, false, self.cli.should_force_copy()) {
                        Decision::Proceed => self.go(Stage::CopyingWorkflow, Action::Copy(Artifact::Workflow)),
                        _ => self.start_cocoapods(),
                    },
                },
                _ => self.fail(ProvisionError::IoFailure),
            },
            Stage::ConfirmingWorkflow => match event {
                Event::Answer(yes) => if yes {
                    self.go(Stage::CopyingWorkflow, Action::Copy(Artifact::Workflow))
                } else {
                    self.start_cocoapods()
                },
                _ => self.fail(ProvisionError::PromptFailure),
            },
            Stage::CopyingWorkflow => match event {
                Event::Done => if self.ignored.len() > 0 {
                    let p = self.ignored[0];
                    self.go(Stage::StrippingWorkflow(0), Action::Strip(Artifact::Workflow, p))
                } else {
                    self.start_cocoapods()
                },
                _ => self.fail(ProvisionError::IoFailure),
            },
            Stage::StrippingWorkflow(i) => match event {
                Event::Done => if i + 1 < self.ignored.len() {
                    let p = self.ignored[i + 1];
                    self.go(Stage::StrippingWorkflow(i + 1), Action::Strip(Artifact::Workflow, p))
                } else {
                    self.start_cocoapods()
                },
                _ => self.fail(ProvisionError::IoFailure),
            },
            Stage::ConfirmingCocoapods => match event {
                Event::Answer(yes) => if yes {
                    self.go(Stage::AddingCocoapods, Action::AddCocoapods)
                } else {
                    self.go(Stage::Finished, Action::Succeed)
                },
                _ => self.fail(ProvisionError::PromptFailure),
            },
            Stage::AddingCocoapods => match event {
                Event::Done => self.go(Stage::Finished, Action::Succeed),
                _ => self.fail(ProvisionError::IoFailure),
            },
            Stage::Finished => self.fail(ProvisionError::IoFailure),
        }
    }
}

} // verus!
