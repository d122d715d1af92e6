//! The commands as the command line gives them, and where each shell's
//! completion script is installed.

use vstd::prelude::*;
use crate::resolve::{join, join_path, ScopeOptions};

verus! {

/// The shells that completion scripts are generated for.
#[derive(Clone, Copy, Debug, PartialEq, Eq, Structural)]
pub enum ShellKind {
    Bash,
    Elvish,
    Fish,
    PowerShell,
    Zsh,
}

/// The shell a completion command is for.
#[derive(Clone, Copy, Debug, PartialEq, Eq, Structural)]
pub struct ShellOptions {
    pub shell: ShellKind,
}

/// The completion-script commands.
#[derive(Clone, Copy, Debug, PartialEq, Eq, Structural)]
pub enum AutoCompleteSubCommand {
    Install { shell: ShellOptions },
    Reinstall { shell: ShellOptions },
    Remove { shell: ShellOptions },
    Output { shell: ShellOptions },
}

/// A command with its options.
#[derive(Clone, Debug, PartialEq, Eq)]
pub enum SubCommand {
    AutoComplete { sub_command: AutoCompleteSubCommand },
    Init { scope: ScopeOptions },
    Create { scope: ScopeOptions },
    Remove { scope: ScopeOptions },
    Undo { scope: ScopeOptions },
    Redo { scope: ScopeOptions },
    Build { binary: Option<String>, scope: ScopeOptions },
    Clean { scope: ScopeOptions },
    Run { binary: Option<String>, args: Vec<String>, scope: ScopeOptions },
    Rebuild { binary: Option<String>, scope: ScopeOptions },
    SetValue { key: String, value: String, scope: ScopeOptions },
    UnsetValue { key: String, scope: ScopeOptions },
}

/// A parsed command line.
#[derive(Clone, Debug, PartialEq, Eq)]
pub struct Cli {
    sub_command: SubCommand,
}

impl Cli {
    pub fn new(sub_command: SubCommand) -> (r: Cli)
        ensures
            r.command() == sub_command,
    {
        Cli { sub_command }
    }

    pub closed spec fn command(&self) -> SubCommand {
        self.sub_command
    }

    pub fn sub_command(&self) -> (r: &SubCommand)
        ensures
            *r == self.command(),
    {
        &self.sub_command
    }

    pub fn sub_command_mut(&mut self) -> (r: &mut SubCommand)
        ensures
            *r == old(self).command(),
            final(self).command() == *final(r),
    {
        &mut self.sub_command
    }
}

/// The directory a shell loads completion scripts from.
pub open spec fn script_dir(shell: ShellKind) -> Seq<char> {
    match shell {
        ShellKind::Bash => "/etc/bash_completion.d"@,
        ShellKind::Zsh => "/usr/local/share/zsh/site-functions"@,
        ShellKind::Fish => "/usr/share/fish/vendor_completions.d"@,
        ShellKind::PowerShell => "/usr/local/share/powershell/Modules/"@,
        ShellKind::Elvish => "/usr/share/elvish/lib/"@,
    }
}

/// The name of a program's completion script for a shell.
pub open spec fn script_name(shell: ShellKind, app: Seq<char>) -> Seq<char> {
    match shell {
        ShellKind::Bash => app,
        ShellKind::Zsh => "_"@ + app,
        ShellKind::Fish => app + ".fish"@,
        ShellKind::PowerShell => app + ".ps1"@,
        ShellKind::Elvish => "_"@ + app + ".elv"@,
    }
}

/// The name the shell goes by in messages.
pub open spec fn shell_name(shell: ShellKind) -> Seq<char> {
    match shell {
        ShellKind::Bash => "bash"@,
        ShellKind::Zsh => "zsh"@,
        ShellKind::Fish => "fish"@,
        ShellKind::PowerShell => "powershell"@,
        ShellKind::Elvish => "elvish"@,
    }
}

/// What to tell the user once a script is installed at `path`.
pub open spec fn installed_info(shell: ShellKind, path: Seq<char>) -> Seq<char> {
    match shell {
        ShellKind::PowerShell => "Please run 'Import-Module \""@ + path + "\"' in powershell"@,
        ShellKind::Elvish => "Please reset elvish, or run 'elvish \""@ + path
            + "\"', \n\tFor more information, see https://github.com/zzamboni/elvish-completions."@,
        _ => "Please reset "@ + shell_name(shell) + ", or run 'source \""@ + path + "\"' in "@
            + shell_name(shell),
    }
}

impl ShellKind {
    pub fn name(&self) -> (r: String)
        ensures
            r@ == shell_name(*self),
    {
        match self {
            ShellKind::Bash => String::from_str("bash"),
            ShellKind::Zsh => String::from_str("zsh"),
            ShellKind::Fish => String::from_str("fish"),
            ShellKind::PowerShell => String::from_str("powershell"),
            ShellKind::Elvish => String::from_str("elvish"),
        }
    }
}

impl ShellOptions {
    /// The directory the shell loads completion scripts from.
    pub fn config_dir(&self) -> (r: String)
        ensures
            r@ == script_dir(self.shell),
    {
        match self.shell {
            ShellKind::Bash => String::from_str("/etc/bash_completion.d"),
            ShellKind::Zsh => String::from_str("/usr/local/share/zsh/site-functions"),
            ShellKind::Fish => String::from_str("/usr/share/fish/vendor_completions.d"),
            ShellKind::PowerShell => String::from_str("/usr/local/share/powershell/Modules/"),
            ShellKind::Elvish => String::from_str("/usr/share/elvish/lib/"),
        }
    }

    /// The file name of program `app_name`'s completion script.
    pub fn config_file_name(&self, app_name: &String) -> (r: String)
        ensures
            r@ == script_name(self.shell, app_name@),
    {
        match self.shell {
            ShellKind::Bash => app_name.clone(),
            ShellKind::Zsh => String::from_str("_").concat(app_name.as_str()),
            ShellKind::Fish => app_name.clone().concat(".fish"),
            ShellKind::PowerShell => app_name.clone().concat(".ps1"),
            ShellKind::Elvish => String::from_str("_").concat(app_name.as_str()).concat(".elv"),
        }
    }

    /// Where program `app_name`'s completion script is installed.
    pub fn config_file_path(&self, app_name: &String) -> (r: String)
        ensures
            r@ == join(script_dir(self.shell), script_name(self.shell, app_name@)),
    {
        join_path(&self.config_dir(), &self.config_file_name(app_name))
    }

    /// What to tell the user once the script is installed at `path`.
    pub fn show_installed_info(&self, path: &String) -> (r: String)
        ensures
            r@ == installed_info(self.shell, path@),
    {
        match self.shell {
            ShellKind::PowerShell => String::from_str("Please run 'Import-Module \"").concat(
                path.as_str(),
            ).concat("\"' in powershell"),
            ShellKind::Elvish => String::from_str("Please reset elvish, or run 'elvish \"").concat(
                path.as_str(),
            ).concat(
                "\"', \n\tFor more information, see https://github.com/zzamboni/elvish-completions.",
            ),
            _ => {
                let name = self.shell.name();
                String::from_str("Please reset ").concat(name.as_str()).concat(
                    ", or run 'source \"",
                ).concat(path.as_str()).concat("\"' in ").concat(name.as_str())
            },
        }
    }
}

/// What a completion-script command does, given whether the script is
/// already installed.
#[derive(Clone, Copy, Debug, PartialEq, Eq, Structural)]
pub enum ScriptAction {
    /// Write the script to standard output.
    Print,
    /// Write a new script file.
    Create,
    /// Leave the installed script as it is, with a warning.
    KeepInstalled,
    /// Delete the installed script and write it anew.
    Replace,
    /// Delete the installed script.
    Delete,
    /// Report that no script is installed; the command fails.
    NotInstalled,
}

pub fn script_action(command: &AutoCompleteSubCommand, installed: bool) -> (r: ScriptAction)
    ensures
        r == match *command {
            AutoCompleteSubCommand::Output { .. } => ScriptAction::Print,
            AutoCompleteSubCommand::Install { .. } => if installed {
                ScriptAction::KeepInstalled
            } else {
                ScriptAction::Create
            },
            AutoCompleteSubCommand::Reinstall { .. } => if installed {
                ScriptAction::Replace
            } else {
                ScriptAction::NotInstalled
            },
            AutoCompleteSubCommand::Remove { .. } => if installed {
                ScriptAction::Delete
            } else {
                ScriptAction::NotInstalled
            },
        },
{
    match command {
        AutoCompleteSubCommand::Output { .. } => ScriptAction::Print,
        AutoCompleteSubCommand::Install { .. } => if installed {
            ScriptAction::KeepInstalled
        } else {
            ScriptAction::Create
        },
        AutoCompleteSubCommand::Reinstall { .. } => if installed {
            ScriptAction::Replace
        } else {
            ScriptAction::NotInstalled
        },
        AutoCompleteSubCommand::Remove { .. } => if installed {
            ScriptAction::Delete
        } else {
            ScriptAction::NotInstalled
        },
    }
}

} // verus!
