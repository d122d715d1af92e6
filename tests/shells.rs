use abuild::app_config_dir;
use abuild::cli::{
    script_action, AutoCompleteSubCommand, Cli, ScriptAction, ShellKind, ShellOptions, SubCommand,
};
use abuild::resolve::ScopeOptions;

fn s(x: &str) -> String {
    x.to_string()
}

#[test]
fn completion_scripts_go_where_each_shell_looks() {
    let app = s("abuild");
    let bash = ShellOptions { shell: ShellKind::Bash };
    assert_eq!(bash.config_file_path(&app), "/etc/bash_completion.d/abuild");
    let zsh = ShellOptions { shell: ShellKind::Zsh };
    assert_eq!(zsh.config_file_path(&app), "/usr/local/share/zsh/site-functions/_abuild");
    let fish = ShellOptions { shell: ShellKind::Fish };
    assert_eq!(fish.config_file_name(&app), "abuild.fish");
    let ps = ShellOptions { shell: ShellKind::PowerShell };
    assert_eq!(ps.config_file_path(&app), "/usr/local/share/powershell/Modules/abuild.ps1");
    let elvish = ShellOptions { shell: ShellKind::Elvish };
    assert_eq!(elvish.config_dir(), "/usr/share/elvish/lib/");
    assert_eq!(elvish.config_file_path(&app), "/usr/share/elvish/lib/_abuild.elv");
}

#[test]
fn installed_info_per_shell() {
    let ps = ShellOptions { shell: ShellKind::PowerShell };
    assert_eq!(
        ps.show_installed_info(&s("/m/a.ps1")),
        "Please run 'Import-Module \"/m/a.ps1\"' in powershell"
    );
    let zsh = ShellOptions { shell: ShellKind::Zsh };
    assert_eq!(
        zsh.show_installed_info(&s("/z/_a")),
        "Please reset zsh, or run 'source \"/z/_a\"' in zsh"
    );
    assert_eq!(ShellKind::PowerShell.name(), "powershell");
}

#[test]
fn script_commands_depend_on_what_is_installed() {
    let shell = ShellOptions { shell: ShellKind::Bash };
    let install = AutoCompleteSubCommand::Install { shell };
    assert_eq!(script_action(&install, false), ScriptAction::Create);
    assert_eq!(script_action(&install, true), ScriptAction::KeepInstalled);
    let reinstall = AutoCompleteSubCommand::Reinstall { shell };
    assert_eq!(script_action(&reinstall, true), ScriptAction::Replace);
    assert_eq!(script_action(&reinstall, false), ScriptAction::NotInstalled);
    let remove = AutoCompleteSubCommand::Remove { shell };
    assert_eq!(script_action(&remove, true), ScriptAction::Delete);
    assert_eq!(script_action(&remove, false), ScriptAction::NotInstalled);
    assert_eq!(script_action(&AutoCompleteSubCommand::Output { shell }, false), ScriptAction::Print);
}

#[test]
fn the_command_line_holds_its_command() {
    let mut cli = Cli::new(SubCommand::Undo { scope: ScopeOptions::default() });
    assert_eq!(cli.sub_command(), &SubCommand::Undo { scope: ScopeOptions::default() });
    *cli.sub_command_mut() = SubCommand::Clean { scope: ScopeOptions::default() };
    assert_eq!(cli.sub_command(), &SubCommand::Clean { scope: ScopeOptions::default() });
}

#[test]
fn the_config_directory_is_hidden_under_the_scope() {
    assert_eq!(app_config_dir("abuild"), "./.abuild");
}
