use abuild::apps::{AppInfo, AppLicense, AppPath};
use abuild::rustup::{
    install_command, Error, HostTriple, InstallCustomInfo, InstallInfo, Profile, Rustup, Toolchain,
};

fn s(x: &str) -> String {
    x.to_string()
}

#[test]
fn licenses_read_as_text() {
    let l = AppLicense::Or(
        Box::new(AppLicense::Text(s("Apache"))),
        Box::new(AppLicense::Text(s("MIT"))),
    );
    assert_eq!(l.to_text(), "Apache or MIT");
    assert_eq!(AppLicense::default().to_text(), "Unknown");
    assert_eq!(AppLicense::File(s("LICENSE")).to_text(), "\"LICENSE\"");
    assert_eq!(AppLicense::File(s("a\"b")).to_text(), "\"a\\\"b\"");
    assert_eq!(AppLicense::File(s("it's")).to_text(), "\"it's\"");
    assert_eq!(l.clone(), l);
}

#[test]
fn names_round_trip() {
    for t in [Toolchain::Stable, Toolchain::Beta, Toolchain::Nightly, Toolchain::NoToolchain] {
        assert_eq!(t.to_text().parse::<Toolchain>(), Ok(t));
    }
    for p in [Profile::Minimal, Profile::Default, Profile::Complete] {
        assert_eq!(Profile::parse(&p.to_text()), Ok(p));
    }
    assert_eq!(Toolchain::NoToolchain.to_text(), "none");
    assert_eq!("Stable".parse::<Toolchain>(), Err(()));
    assert_eq!("full".parse::<Profile>(), Err(()));
    assert_eq!("host".parse::<HostTriple>(), Ok(HostTriple::Host));
    assert_eq!(
        "x86_64-unknown-linux-gnu".parse::<HostTriple>(),
        Ok(HostTriple::Target(s("x86_64-unknown-linux-gnu")))
    );
    assert_eq!(Toolchain::default(), Toolchain::Stable);
    assert_eq!(Profile::default(), Profile::Default);
}

#[test]
fn the_installer_command_line() {
    assert_eq!(install_command(&InstallInfo::default()), "./cache/rustup-init.sh -y");
    assert_eq!(
        install_command(&InstallInfo::Custom(InstallCustomInfo::default())),
        "./cache/rustup-init.sh -y --default-host-triple='host' --default-toolchain='stable' \
         --profile='default' --modify-path"
    );
    let custom = InstallCustomInfo {
        default_host_triple: HostTriple::Target(s("aarch64-apple-darwin")),
        default_toolchain: Toolchain::Nightly,
        profile: Profile::Minimal,
        modify_path_variable: false,
    };
    assert_eq!(
        install_command(&InstallInfo::Custom(custom)),
        "./cache/rustup-init.sh -y --default-host-triple='aarch64-apple-darwin' \
         --default-toolchain='nightly' --profile='minimal'"
    );
}

#[test]
fn what_an_install_run_yields() {
    let ok = Rustup::install_outcome(true, Some(0), Some(s("/home/u")), s("out"), s("err")).unwrap();
    assert_eq!(ok.home_path(), Ok(s("/home/u/.config")));
    assert_eq!(ok.bin_path(), Ok(s("/home/u/.config/bin")));
    assert_eq!(
        Rustup::install_outcome(true, Some(0), None, s(""), s("")),
        Err(Error::FailedToGetHomeDir)
    );
    assert_eq!(
        Rustup::install_outcome(false, Some(1), Some(s("/h")), s("o"), s("e")),
        Err(Error::Failed { exit_code: Some(1), stdin: s(""), stdout: s("o"), stderr: s("e") })
    );
}

#[test]
fn errors_read_as_text() {
    assert_eq!(Error::Unsupported(s("version")).to_text(), "Unsupported: version");
    assert_eq!(Error::FailedToGetHomeDir.to_text(), "failed to get HOME dir");
    assert_eq!(Error::RequestError(s("timeout")).to_text(), "request error: timeout");
    let failed = Error::Failed { exit_code: Some(-2), stdin: s(""), stdout: s("o"), stderr: s("e") };
    assert_eq!(
        failed.to_text(),
        "Failed:\n - exit status: -2\n - stdin:\n\n\n - stdout:\no\n\n - stderr:\ne"
    );
    let unknown = Error::Failed { exit_code: None, stdin: s(""), stdout: s(""), stderr: s("") };
    assert!(unknown.to_text().starts_with("Failed:\n - exit status: unknown\n"));
}

#[test]
fn what_is_known_about_the_installer() {
    let r = Rustup::new(s("/h/.cargo/"));
    assert_eq!(r.name(), "rustup");
    assert_eq!(r.license().unwrap().to_text(), "Apache or MIT");
    assert_eq!(r.homepage(), Ok(s("https://rustup.rs")));
    assert_eq!(r.documentation(), Ok(s("https://rust-lang.github.io/rustup/")));
    assert_eq!(r.repository(), Ok(s("https://github.com/rust-lang/rustup/")));
    assert_eq!(r.version(), Err(Error::Unsupported(s("version"))));
    assert_eq!(r.description(), Err(Error::Unsupported(s("description"))));
    assert_eq!(r.bin_path(), Ok(s("/h/.cargo/bin")));
    assert_eq!(Rustup::default().bin_path(), Ok(s("bin")));
}
