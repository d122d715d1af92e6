//! The Rust toolchain installer as an installable application: its install
//! options, the command line that runs its installer script, and what a run
//! of that script yields.

use vstd::prelude::*;
use crate::apps::{AppInfo, AppLicense, AppPath};
use crate::resolve::{join, join_path};
use crate::text::{format_signed, signed_decimal};

verus! {

/// Why an operation on the installer failed.
#[derive(Clone, Debug, PartialEq, Eq)]
pub enum Error {
    Unsupported(String),
    IOError(String),
    TaskJoinError(String),
    InnerError(String),
    /// The installer script exited without success.
    Failed { exit_code: Option<i32>, stdin: String, stdout: String, stderr: String },
    FailedToGetHomeDir,
    RequestError(String),
}

/// An installed toolchain installer and the directory it lives in.
#[derive(Clone, Debug, PartialEq, Eq)]
pub struct Rustup {
    home_path: String,
}

/// The toolchain installed by default.
#[derive(Clone, Copy, Debug, PartialEq, Eq, Structural)]
pub enum Toolchain {
    Stable,
    Beta,
    Nightly,
    /// No toolchain at all.
    NoToolchain,
}

/// The platform that toolchains are installed for by default.
#[derive(Clone, Debug, PartialEq, Eq)]
pub enum HostTriple {
    /// The platform the installer runs on.
    Host,
    /// e.g. x86_64-unknown-linux-gnu
    Target(String),
}

/// Which components come with a toolchain.
#[derive(Clone, Copy, Debug, PartialEq, Eq, Structural)]
pub enum Profile {
    Minimal,
    Default,
    Complete,
}

/// Install options chosen one by one.
#[derive(Clone, Debug, PartialEq, Eq)]
pub struct InstallCustomInfo {
    pub default_host_triple: HostTriple,
    pub default_toolchain: Toolchain,
    pub profile: Profile,
    /// Whether the installer adds its directory to `PATH`.
    pub modify_path_variable: bool,
}

/// How to install.
#[derive(Clone, Debug, PartialEq, Eq)]
pub enum InstallInfo {
    Default,
    Custom(InstallCustomInfo),
}

pub open spec fn toolchain_name(t: Toolchain) -> Seq<char> {
    match t {
        Toolchain::Stable => "stable"@,
        Toolchain::Beta => "beta"@,
        Toolchain::Nightly => "nightly"@,
        Toolchain::NoToolchain => "none"@,
    }
}

pub open spec fn host_name(h: HostTriple) -> Seq<char> {
    match h {
        HostTriple::Host => "host"@,
        HostTriple::Target(t) => t@,
    }
}

pub open spec fn profile_name(p: Profile) -> Seq<char> {
    match p {
        Profile::Minimal => "minimal"@,
        Profile::Default => "default"@,
        Profile::Complete => "complete"@,
    }
}

fn literal_is(s: &str, lit: &str) -> (r: bool)
    ensures
        r == (s@ == lit@),
{
    String::from_str(s) == String::from_str(lit)
}

impl Default for Toolchain {
    fn default() -> (r: Toolchain)
        ensures
            r == Toolchain::Stable,
    {
        Toolchain::Stable
    }
}

impl Toolchain {
    pub fn to_text(&self) -> (r: String)
        ensures
            r@ == toolchain_name(*self),
    {
        match self {
            Toolchain::Stable => String::from_str("stable"),
            Toolchain::Beta => String::from_str("beta"),
            Toolchain::Nightly => String::from_str("nightly"),
            Toolchain::NoToolchain => String::from_str("none"),
        }
    }

    /// The toolchain with name `s`, if any.
    pub fn parse(s: &str) -> (r: Result<Toolchain, ()>)
        ensures
            match r {
                Ok(t) => toolchain_name(t) == s@,
                Err(()) => forall|t: Toolchain| toolchain_name(t) != s@,
            },
    {
        if literal_is(s, "stable") {
            Ok(Toolchain::Stable)
        } else if literal_is(s, "beta") {
            Ok(Toolchain::Beta)
        } else if literal_is(s, "nightly") {
            Ok(Toolchain::Nightly)
        } else if literal_is(s, "none") {
            Ok(Toolchain::NoToolchain)
        } else {
            Err(())
        }
    }
}

impl std::str::FromStr for Toolchain {
    type Err = ();

    fn from_str(s: &str) -> (r: Result<Toolchain, ()>)
        ensures
            match r {
                Ok(t) => toolchain_name(t) == s@,
                Err(()) => forall|t: Toolchain| toolchain_name(t) != s@,
            },
    {
        Toolchain::parse(s)
    }
}

impl Default for HostTriple {
    fn default() -> (r: HostTriple)
        ensures
            r == HostTriple::Host,
    {
        HostTriple::Host
    }
}

impl HostTriple {
    pub fn to_text(&self) -> (r: String)
        ensures
            r@ == host_name(*self),
    {
        match self {
            HostTriple::Host => String::from_str("host"),
            HostTriple::Target(t) => t.clone(),
        }
    }

    /// `host` is the running platform; any other name is a target triple.
    pub fn parse(s: &str) -> (r: Result<HostTriple, ()>)
        ensures
            s@ == "host"@ ==> r == Ok::<HostTriple, ()>(HostTriple::Host),
            s@ != "host"@ ==> r is Ok && r->Ok_0 is Target && host_name(r->Ok_0) == s@,
    {
        if literal_is(s, "host") {
            Ok(HostTriple::Host)
        } else {
            Ok(HostTriple::Target(String::from_str(s)))
        }
    }
}

impl std::str::FromStr for HostTriple {
    type Err = ();

    fn from_str(s: &str) -> (r: Result<HostTriple, ()>)
        ensures
            s@ == "host"@ ==> r == Ok::<HostTriple, ()>(HostTriple::Host),
            s@ != "host"@ ==> r is Ok && r->Ok_0 is Target && host_name(r->Ok_0) == s@,
    {
        HostTriple::parse(s)
    }
}

impl Default for Profile {
    fn default() -> (r: Profile)
        ensures
            r == Profile::Default,
    {
        Profile::Default
    }
}

impl Profile {
    pub fn to_text(&self) -> (r: String)
        ensures
            r@ == profile_name(*self),
    {
        match self {
            Profile::Minimal => String::from_str("minimal"),
            Profile::Default => String::from_str("default"),
            Profile::Complete => String::from_str("complete"),
        }
    }

    /// The profile with name `s`, if any.
    pub fn parse(s: &str) -> (r: Result<Profile, ()>)
        ensures
            match r {
                Ok(p) => profile_name(p) == s@,
                Err(()) => forall|p: Profile| profile_name(p) != s@,
            },
    {
        if literal_is(s, "minimal") {
            Ok(Profile::Minimal)
        } else if literal_is(s, "default") {
            Ok(Profile::Default)
        } else if literal_is(s, "complete") {
            Ok(Profile::Complete)
        } else {
            Err(())
        }
    }
}

impl std::str::FromStr for Profile {
    type Err = ();

    fn from_str(s: &str) -> (r: Result<Profile, ()>)
        ensures
            match r {
                Ok(p) => profile_name(p) == s@,
                Err(()) => forall|p: Profile| profile_name(p) != s@,
            },
    {
        Profile::parse(s)
    }
}

impl Default for InstallCustomInfo {
    fn default() -> (r: InstallCustomInfo)
        ensures
            r.default_host_triple == HostTriple::Host,
            r.default_toolchain == Toolchain::Stable,
            r.profile == Profile::Default,
            r.modify_path_variable,
    {
        InstallCustomInfo {
            default_host_triple: HostTriple::Host,
            default_toolchain: Toolchain::Stable,
            profile: Profile::Default,
            modify_path_variable: true,
        }
    }
}

impl Default for InstallInfo {
    fn default() -> (r: InstallInfo)
        ensures
            r == InstallInfo::Default,
    {
        InstallInfo::Default
    }
}

/// Where the installer script is kept once downloaded.
pub const INSTALLER_SCRIPT: &'static str = "./cache/rustup-init.sh";

/// The shell command that runs the installer script with `info`.
pub open spec fn install_command_text(info: InstallInfo) -> Seq<char> {
    match info {
        InstallInfo::Default => INSTALLER_SCRIPT@ + " -y"@,
        InstallInfo::Custom(c) => INSTALLER_SCRIPT@ + " -y --default-host-triple='"@ + host_name(
            c.default_host_triple,
        ) + "' --default-toolchain='"@ + toolchain_name(c.default_toolchain) + "' --profile='"@
            + profile_name(c.profile) + "'"@ + if c.modify_path_variable {
            " --modify-path"@
        } else {
            ""@
        },
    }
}

pub fn install_command(info: &InstallInfo) -> (r: String)
    ensures
        r@ == install_command_text(*info),
{
    let script = String::from_str(INSTALLER_SCRIPT);
    match info {
        InstallInfo::Default => script.concat(" -y"),
        InstallInfo::Custom(c) => {
            let host = c.default_host_triple.to_text();
            let toolchain = c.default_toolchain.to_text();
            let profile = c.profile.to_text();
            let tail = if c.modify_path_variable {
                " --modify-path"
            } else {
                ""
            };
            script.concat(" -y --default-host-triple='").concat(host.as_str()).concat(
                "' --default-toolchain='",
            ).concat(toolchain.as_str()).concat("' --profile='").concat(profile.as_str()).concat(
                "'",
            ).concat(tail)
        },
    }
}

/// The directory the installer is recorded under, below the home
/// directory.
pub const CONFIG_DIR_NAME: &'static str = ".config";

impl Rustup {
    pub closed spec fn home(&self) -> Seq<char> {
        self.home_path@
    }

    pub fn new(home_path: String) -> (r: Rustup)
        ensures
            r.home() == home_path@,
    {
        Rustup { home_path }
    }

    /// What a run of the installer script yields: on success the installer
    /// under the user's home directory, which must be known; else the
    /// script's failure with its output.
    pub fn install_outcome(
        success: bool,
        exit_code: Option<i32>,
        home_dir: Option<String>,
        stdout: String,
        stderr: String,
    ) -> (r: Result<Rustup, Error>)
        ensures
            success && home_dir is Some ==> r is Ok && r->Ok_0.home() == join(
                home_dir->Some_0@,
                CONFIG_DIR_NAME@,
            ),
            success && home_dir is None ==> r == Err::<Rustup, Error>(Error::FailedToGetHomeDir),
            !success ==> (match r {
                Err(Error::Failed { exit_code: c, stdin: i, stdout: o, stderr: e }) => c == exit_code
                    && i@.len() == 0 && o == stdout && e == stderr,
                _ => false,
            }),
    {
        if success {
            match home_dir {
                Some(h) => Ok(Rustup { home_path: join_path(&h, &String::from_str(CONFIG_DIR_NAME)) }),
                None => Err(Error::FailedToGetHomeDir),
            }
        } else {
            Err(Error::Failed { exit_code, stdin: String::new(), stdout, stderr })
        }
    }
}

impl Default for Rustup {
    fn default() -> (r: Rustup)
        ensures
            r.home() == Seq::<char>::empty(),
    {
        Rustup { home_path: String::new() }
    }
}

/// `l` is the choice between two licenses given by their texts `a` and `b`.
pub open spec fn is_either_text(l: AppLicense, a: Seq<char>, b: Seq<char>) -> bool {
    match l {
        AppLicense::Or(x, y) => match (*x, *y) {
            (AppLicense::Text(s), AppLicense::Text(t)) => s@ == a && t@ == b,
            _ => false,
        },
        _ => false,
    }
}

/// `r` reports that `what` is not supported.
pub open spec fn is_unsupported(r: Result<String, Error>, what: Seq<char>) -> bool {
    match r {
        Err(Error::Unsupported(m)) => m@ == what,
        _ => false,
    }
}

/// How a failed script's exit code reads.
pub open spec fn exit_code_text(code: Option<i32>) -> Seq<char> {
    match code {
        Some(c) => signed_decimal(c as int),
        None => "unknown"@,
    }
}

/// How an error reads.
pub open spec fn error_text(e: Error) -> Seq<char> {
    match e {
        Error::Unsupported(m) => "Unsupported: "@ + m@,
        Error::IOError(m) => "IO error: "@ + m@,
        Error::TaskJoinError(m) => "Task join error: "@ + m@,
        Error::InnerError(m) => "Inner error: "@ + m@,
        Error::Failed { exit_code, stdin, stdout, stderr } => "Failed:\n - exit status: "@
            + exit_code_text(exit_code) + "\n - stdin:\n"@ + stdin@ + "\n\n - stdout:\n"@ + stdout@
            + "\n\n - stderr:\n"@ + stderr@,
        Error::FailedToGetHomeDir => "failed to get HOME dir"@,
        Error::RequestError(m) => "request error: "@ + m@,
    }
}

impl Error {
    pub fn to_text(&self) -> (r: String)
        ensures
            r@ == error_text(*self),
    {
        match self {
            Error::Unsupported(m) => String::from_str("Unsupported: ").concat(m.as_str()),
            Error::IOError(m) => String::from_str("IO error: ").concat(m.as_str()),
            Error::TaskJoinError(m) => String::from_str("Task join error: ").concat(m.as_str()),
            Error::InnerError(m) => String::from_str("Inner error: ").concat(m.as_str()),
            Error::Failed { exit_code, stdin, stdout, stderr } => {
                let code = match exit_code {
                    Some(c) => format_signed(*c as i128),
                    None => String::from_str("unknown"),
                };
                String::from_str("Failed:\n - exit status: ").concat(code.as_str()).concat(
                    "\n - stdin:\n",
                ).concat(stdin.as_str()).concat("\n\n - stdout:\n").concat(stdout.as_str()).concat(
                    "\n\n - stderr:\n",
                ).concat(stderr.as_str())
            },
            Error::FailedToGetHomeDir => String::from_str("failed to get HOME dir"),
            Error::RequestError(m) => String::from_str("request error: ").concat(m.as_str()),
        }
    }
}

impl AppInfo for Rustup {
    type Error = Error;

    fn name(&self) -> (r: String)
        ensures
            r@ == "rustup"@,
    {
        String::from_str("rustup")
    }

    fn license(&self) -> (r: Result<AppLicense, Error>)
        ensures
            r is Ok && is_either_text(r->Ok_0, "Apache"@, "MIT"@),
    {
        Ok(
            AppLicense::Or(
                Box::new(AppLicense::Text(String::from_str("Apache"))),
                Box::new(AppLicense::Text(String::from_str("MIT"))),
            ),
        )
    }

    fn description(&self) -> (r: Result<String, Error>)
        ensures
            is_unsupported(r, "description"@),
    {
        Err(Error::Unsupported(String::from_str("description")))
    }

    fn documentation(&self) -> (r: Result<String, Error>)
        ensures
            r is Ok && r->Ok_0@ == "https://rust-lang.github.io/rustup/"@,
    {
        Ok(String::from_str("https://rust-lang.github.io/rustup/"))
    }

    fn homepage(&self) -> (r: Result<String, Error>)
        ensures
            r is Ok && r->Ok_0@ == "https://rustup.rs"@,
    {
        Ok(String::from_str("https://rustup.rs"))
    }

    fn repository(&self) -> (r: Result<String, Error>)
        ensures
            r is Ok && r->Ok_0@ == "https://github.com/rust-lang/rustup/"@,
    {
        Ok(String::from_str("https://github.com/rust-lang/rustup/"))
    }

    fn version(&self) -> (r: Result<String, Error>)
        ensures
            is_unsupported(r, "version"@),
    {
        Err(Error::Unsupported(String::from_str("version")))
    }
}

impl AppPath for Rustup {
    type Error = Error;

    fn home_path(&self) -> (r: Result<String, Error>)
        ensures
            r is Ok && r->Ok_0@ == self.home(),
    {
        Ok(self.home_path.clone())
    }

    fn bin_path(&self) -> (r: Result<String, Error>)
        ensures
            r is Ok && r->Ok_0@ == join(self.home(), "bin"@),
    {
        Ok(join_path(&self.home_path, &String::from_str("bin")))
    }
}

} // verus!
