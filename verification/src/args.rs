//! The commands of the command line and their arguments.

use crate::text::same;
use vstd::prelude::*;

verus! {

/// The command line as a whole.
#[derive(Debug, Clone, PartialEq, Eq)]
pub struct Cli {
    /// The subcommand to execute.
    pub command: Commands,
}

/// Subcommands of the command line.
#[derive(Debug, Clone, PartialEq, Eq)]
pub enum Commands {
    /// Create a new Rust project with best-practice defaults.
    New(NewArgs),
    /// Initialise an existing directory with a Rust project.
    Init(InitArgs),
    /// List all available project templates.
    ListTemplates,
    /// Generate shell completion scripts.
    Completions(CompletionsArgs),
    /// Diagnose common project issues and misconfigurations.
    Doctor,
}

/// Arguments for the 'new' command.
#[derive(Debug, Clone, PartialEq, Eq)]
pub struct NewArgs {
    /// Name of the new project (directory will be created).
    pub name: String,
    /// Create a binary application (default if neither is specified).
    pub bin: bool,
    /// Create a library crate.
    pub lib: bool,
    /// Rust edition to use (default: 2021).
    pub edition: String,
    /// License to apply.
    pub license: String,
    /// Initialise a Git repository.
    pub git: bool,
    /// Target directory (defaults to the project name in the current directory).
    pub path: Option<String>,
    /// Accept all defaults without prompting.
    pub yes: bool,
}

/// Arguments for the 'init' command.
#[derive(Debug, Clone, PartialEq, Eq)]
pub struct InitArgs {
    /// Create a binary application (default if neither is specified).
    pub bin: bool,
    /// Create a library crate.
    pub lib: bool,
    /// Name of the project (defaults to directory name).
    pub name: Option<String>,
    /// Rust edition to use (default: 2021).
    pub edition: String,
    /// License to apply.
    pub license: String,
    /// Initialise a Git repository.
    pub git: bool,
    /// Target directory (defaults to the current directory).
    pub path: String,
    /// Accept all defaults without prompting.
    pub yes: bool,
}

/// Arguments for the 'completions' command.
#[derive(Debug, Clone, PartialEq, Eq)]
pub struct CompletionsArgs {
    /// The shell to generate completions for.
    pub shell: Shell,
    /// Output file path (optional, defaults to stdout).
    pub output: Option<String>,
}

/// Supported shells for completions.
#[derive(Debug, Clone, Copy, PartialEq, Eq, Structural)]
pub enum Shell {
    /// Bash.
    Bash,
    /// Zsh.
    Zsh,
    /// Fish.
    Fish,
    /// PowerShell.
    Powershell,
    /// Elvish.
    Elvish,
}

impl Shell {
    /// The name of the shell on the command line.
    pub open spec fn name_text(self) -> Seq<char> {
        match self {
            Shell::Bash => "bash"@,
            Shell::Zsh => "zsh"@,
            Shell::Fish => "fish"@,
            Shell::Powershell => "powershell"@,
            Shell::Elvish => "elvish"@,
        }
    }

    /// The name of the shell on the command line.
    pub fn name(&self) -> (text: &'static str)
        ensures
            text@ == self.name_text(),
    {
        match self {
            Shell::Bash => "bash",
            Shell::Zsh => "zsh",
            Shell::Fish => "fish",
            Shell::Powershell => "powershell",
            Shell::Elvish => "elvish",
        }
    }
}

/// Whether `val` names a Rust edition.
pub open spec fn is_edition(val: Seq<char>) -> bool {
    val == "2015"@ || val == "2018"@ || val == "2021"@ || val == "2024"@
}

/// Whether `val` names a license that the generator offers.
pub open spec fn is_license(val: Seq<char>) -> bool {
    val == "MIT"@ || val == "Apache-2.0"@ || val == "MIT OR Apache-2.0"@
}

/// Accepts the editions 2015, 2018, 2021 and 2024 and rejects anything else.
pub fn validate_edition(val: &str) -> (checked: Result<String, String>)
    ensures
        match checked {
            Ok(edition) => is_edition(val@) && edition@ == val@,
            Err(reason) => !is_edition(val@) && reason@
                == "Invalid edition: must be one of 2015, 2018, 2021, 2024"@,
        },
{
    if same(val, "2015") || same(val, "2018") || same(val, "2021") || same(val, "2024") {
        Ok(val.to_owned())
    } else {
        Err("Invalid edition: must be one of 2015, 2018, 2021, 2024".to_owned())
    }
}

/// Accepts the licenses `MIT`, `Apache-2.0` and `MIT OR Apache-2.0` and
/// rejects anything else.
pub fn validate_license(val: &str) -> (checked: Result<String, String>)
    ensures
        match checked {
            Ok(license) => is_license(val@) && license@ == val@,
            Err(reason) => !is_license(val@) && reason@
                == "Invalid license: must be MIT, Apache-2.0, or MIT OR Apache-2.0"@,
        },
{
    if same(val, "MIT") || same(val, "Apache-2.0") || same(val, "MIT OR Apache-2.0") {
        Ok(val.to_owned())
    } else {
        Err("Invalid license: must be MIT, Apache-2.0, or MIT OR Apache-2.0".to_owned())
    }
}

} // verus!
