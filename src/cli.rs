use vstd::prelude::*;
use vstd::string::*;
use crate::error::ProvisionError;
use crate::platform::{Platform, expand, valid_selection};

verus! {

/// A yes/no question that a run may put to the user.
#[derive(Debug, Clone, Copy, PartialEq, Eq, Structural)]
pub enum Question {
    /// The dependency manifest exists; may it be overwritten?
    OverwriteGemfile,
    /// Should the fastlane configuration be copied?
    CopyFastlane,
    /// Should the existing fastlane configuration be backed up (replacing an
    /// earlier backup, if `replace`)?
    BackupFastlane { replace: bool },
    /// Should the CI workflow be copied (replacing the existing one, if `exists`)?
    CopyWorkflow { exists: bool },
    /// Should Cocoapods support be added?
    AddCocoapods,
}

/// The answer a question takes when the user just confirms.
pub open spec fn default_answer_of(q: Question) -> bool {
    match q {
        Question::OverwriteGemfile | Question::CopyFastlane => true,
        _ => false,
    }
}

/// The text of a question.
pub open spec fn prompt_of(q: Question) -> Seq<char> {
    match q {
        Question::OverwriteGemfile => "File 'Gemfile' already exists, overwrite it?"@,
        Question::CopyFastlane => "Copy fastlane configuration files?"@,
        Question::BackupFastlane { replace } => if replace {
            "Found an existing backup, do you want to replace it with a new one?"@
        } else {
            "Do you want to backup your existing fastlane configuration files?"@
        },
        Question::CopyWorkflow { exists } => if exists {
            "Replace existing GitHub main.yml workflow?"@
        } else {
            "Copy starter main.yml GitHub workflow?"@
        },
        Question::AddCocoapods => "Add support for Cocoapods?"@,
    }
}

impl Question {
    pub fn prompt(&self) -> (r: String)
        ensures
            r@ == prompt_of(*self),
    {
        match self {
            Question::OverwriteGemfile => String::from_str(
                "File 'Gemfile' already exists, overwrite it?",
            ),
            Question::CopyFastlane => String::from_str("Copy fastlane configuration files?"),
            Question::BackupFastlane { replace } => if *replace {
                String::from_str(
                    "Found an existing backup, do you want to replace it with a new one?",
                )
            } else {
                String::from_str("Do you want to backup your existing fastlane configuration files?")
            },
            Question::CopyWorkflow { exists } => if *exists {
                String::from_str("Replace existing GitHub main.yml workflow?")
            } else {
                String::from_str("Copy starter main.yml GitHub workflow?")
            },
            Question::AddCocoapods => String::from_str("Add support for Cocoapods?"),
        }
    }

    pub fn default_answer(&self) -> (r: bool)
        ensures
            r == default_answer_of(*self),
    {
        match self {
            Question::OverwriteGemfile | Question::CopyFastlane => true,
            _ => false,
        }
    }
}

/// A boolean setting: known from the flags, or to be asked.
#[derive(Debug, Clone, Copy, PartialEq, Eq, Structural)]
pub enum Toggle {
    Value(bool),
    Ask(Question),
}

/// The platforms to configure: given by the flags, or to be asked.
#[derive(Debug, Clone, PartialEq, Eq)]
pub enum PlatformChoice {
    Given(Vec<Platform>),
    Ask,
}

/// The configuration of one run.
#[derive(Debug, Clone)]
pub struct Cli {
    /// Interactive mode was requested.
    pub interactive: bool,
    /// Standard input is a terminal.
    pub terminal: bool,
    /// The project directory; the current directory when absent.
    pub destination: Option<String>,
    /// The platforms to configure, when given as a flag.
    pub platform: Option<Platform>,
    /// Do not copy the fastlane configuration.
    pub skip_fastlane: bool,
    /// Copy the CI workflow.
    pub copy_github_workflow: bool,
    /// The project uses Cocoapods.
    pub uses_cocoapods: bool,
    /// Overwrite existing files without asking.
    pub force_copy: bool,
}

/// Questions are asked only when requested and standard input is a terminal.
pub open spec fn interactive_of(cli: Cli) -> bool {
    cli.interactive && cli.terminal
}

/// Whether to copy the fastlane configuration.
pub open spec fn fastlane_toggle(cli: Cli) -> Toggle {
    if interactive_of(cli) {
        Toggle::Ask(Question::CopyFastlane)
    } else {
        Toggle::Value(!cli.skip_fastlane)
    }
}

/// Whether to copy the CI workflow, given whether one exists already.
pub open spec fn workflow_toggle(cli: Cli, already_exists: bool) -> Toggle {
    if interactive_of(cli) {
        Toggle::Ask(Question::CopyWorkflow { exists: already_exists })
    } else {
        Toggle::Value(cli.copy_github_workflow)
    }
}

/// Whether to add Cocoapods support.
pub open spec fn cocoapods_toggle(cli: Cli) -> Toggle {
    if interactive_of(cli) {
        Toggle::Ask(Question::AddCocoapods)
    } else {
        Toggle::Value(cli.uses_cocoapods)
    }
}

/// Relies on atty::is, for standard input: whether it is attached to a terminal.
/// The answer depends on how the process was started; nothing is promised of it.
#[verifier::external_body]
fn stdin_is_terminal() -> bool {
    atty::is(atty::Stream::Stdin)
}

impl Cli {
    /// The configuration from the given flags; whether standard input is a
    /// terminal is looked up once, here.
    pub fn new(
        interactive: bool,
        destination: Option<String>,
        platform: Option<Platform>,
        skip_fastlane: bool,
        copy_github_workflow: bool,
        uses_cocoapods: bool,
        force_copy: bool,
    ) -> (r: Cli)
        ensures
            r.interactive == interactive,
            r.destination == destination,
            r.platform == platform,
            r.skip_fastlane == skip_fastlane,
            r.copy_github_workflow == copy_github_workflow,
            r.uses_cocoapods == uses_cocoapods,
            r.force_copy == force_copy,
    {
        let terminal = stdin_is_terminal();
        Cli {
            interactive,
            terminal,
            destination,
            platform,
            skip_fastlane,
            copy_github_workflow,
            uses_cocoapods,
            force_copy,
        }
    }

    pub fn is_interactive(&self) -> (r: bool)
        ensures
            r == interactive_of(*self),
    {
        self.interactive && self.terminal
    }

    pub fn should_force_copy(&self) -> (r: bool)
        ensures
            r == self.force_copy,
    {
        self.force_copy
    }

    /// The platforms to configure: asked in an interactive run, else those of the
    /// platform flag; without that flag the run cannot go on.
    pub fn get_platforms(&self) -> (r: Result<PlatformChoice, ProvisionError>)
        ensures
            interactive_of(*self) ==> r == Ok::<PlatformChoice, ProvisionError>(PlatformChoice::Ask),
            !interactive_of(*self) && self.platform is None ==> r == Err::<
                PlatformChoice,
                ProvisionError,
            >(ProvisionError::MissingRequiredArgument),
            !interactive_of(*self) && self.platform is Some ==> (match r {
                Ok(PlatformChoice::Given(v)) => v@ == expand(self.platform->0) && valid_selection(
                    v@,
                ),
                _ => false,
            }),
    {
        if self.is_interactive() {
            Ok(PlatformChoice::Ask)
        } else {
            match self.platform {
                Some(p) => Ok(PlatformChoice::Given(p.as_platforms())),
                None => Err(ProvisionError::MissingRequiredArgument),
            }
        }
    }

    pub fn should_copy_fastlane(&self) -> (r: Toggle)
        ensures
            r == fastlane_toggle(*self),
    {
        if self.is_interactive() {
            Toggle::Ask(Question::CopyFastlane)
        } else {
            Toggle::Value(!self.skip_fastlane)
        }
    }

    pub fn should_copy_github_workflow(&self, already_exists: bool) -> (r: Toggle)
        ensures
            r == workflow_toggle(*self, already_exists),
    {
        if self.is_interactive() {
            Toggle::Ask(Question::CopyWorkflow { exists: already_exists })
        } else {
            Toggle::Value(self.copy_github_workflow)
        }
    }

    pub fn should_configure_cocoapods(&self) -> (r: Toggle)
        ensures
            r == cocoapods_toggle(*self),
    {
        if self.is_interactive() {
            Toggle::Ask(Question::AddCocoapods)
        } else {
            Toggle::Value(self.uses_cocoapods)
        }
    }
}

} // verus!
