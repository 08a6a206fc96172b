use kodegen_bundler::cli::cargo_build_args;
use kodegen_bundler::cli::choose_route;
use kodegen_bundler::cli::command_step;
use kodegen_bundler::cli::cross_compile_target;
use kodegen_bundler::cli::expected_binary_path;
use kodegen_bundler::cli::missing_output_error;
use kodegen_bundler::cli::package_settings_of;
use kodegen_bundler::cli::release_directory;
use kodegen_bundler::cli::signal_of_route;
use kodegen_bundler::cli::validate_args;
use kodegen_bundler::cli::Args;
use kodegen_bundler::cli::BuildRoute;
use kodegen_bundler::cli::CommandPhase;
use kodegen_bundler::cli::CommandSignal;
use kodegen_bundler::cli::CommandStep;
use kodegen_bundler::error::BundlerError;
use kodegen_bundler::error::CliError;
use kodegen_bundler::metadata::discover_bundle_assets;
use kodegen_bundler::metadata::linux_icon_file_names;
use kodegen_bundler::metadata::load_manifest;
use kodegen_bundler::metadata::AssetPresence;
use kodegen_bundler::metadata::ManifestFields;
use kodegen_bundler::package::PackageType;
use kodegen_bundler::settings::bundle::BundleSettings;
use kodegen_bundler::source::clone_args;
use kodegen_bundler::source::resolve_local;
use kodegen_bundler::source::RepositorySource;

fn args(source: &str, platform: &str) -> Args {
    Args { source: source.into(), platform: platform.into(), output_binary: "/out/app.bin".into() }
}

fn invalid(e: BundlerError) -> String {
    match e {
        BundlerError::Cli(CliError::InvalidArguments { reason }) => reason,
        other => panic!("unexpected error: {:?}", other),
    }
}

fn fields() -> ManifestFields {
    ManifestFields {
        has_package: true,
        name: Some("kodegen".into()),
        description: Some("A tool".into()),
        version: Some("0.1.0".into()),
        authors: vec!["A".into(), "B".into()],
        license: Some("MIT".into()),
        homepage: None,
        repository: Some("https://github.com/cyrup-ai/kodegen".into()),
        first_bin_name: None,
        bundle_settings: BundleSettings::default(),
    }
}

#[test]
fn arguments_are_validated() {
    for platform in ["deb", "rpm", "dmg", "macos-bundle", "nsis", "appimage"] {
        assert_eq!(args(".", platform).validate(), Ok(()));
        assert_eq!(validate_args(&args(".", platform)), Ok(()));
    }
    assert_eq!(args("", "deb").validate(), Err("Source cannot be empty".to_string()));
    assert_eq!(
        args(".", "exe").validate(),
        Err("Invalid platform: exe. Valid platforms: deb, rpm, dmg, macos-bundle, nsis, appimage".to_string())
    );
    assert!(args(".", "DEB").validate().is_err());
    assert!(args(".", "").validate().is_err());
    assert_eq!(args("", "bogus").validate(), Err("Source cannot be empty".to_string()));
}

#[test]
fn routes_are_chosen_by_host_and_package_type() {
    assert_eq!(choose_route(&args(".", "deb"), false, "linux").unwrap(), BuildRoute::Native(PackageType::Deb));
    assert_eq!(choose_route(&args(".", "deb"), false, "macos").unwrap(), BuildRoute::Container(PackageType::Deb));
    assert_eq!(choose_route(&args(".", "deb"), true, "macos").unwrap(), BuildRoute::Native(PackageType::Deb));
    assert_eq!(choose_route(&args(".", "nsis"), false, "linux").unwrap(), BuildRoute::Container(PackageType::Exe));
    assert_eq!(choose_route(&args(".", "nsis"), true, "linux").unwrap(), BuildRoute::Native(PackageType::Exe));
    assert_eq!(
        choose_route(&args(".", "macos-bundle"), false, "macos").unwrap(),
        BuildRoute::Native(PackageType::MacOsBundle)
    );
    assert_eq!(invalid(choose_route(&args("", "deb"), false, "linux").unwrap_err()), "Source cannot be empty");
    assert!(invalid(choose_route(&args(".", "msi"), false, "linux").unwrap_err()).starts_with("Invalid platform: msi."));
    let route = choose_route(&args(".", "dmg"), false, "linux");
    assert_eq!(signal_of_route(&route), CommandSignal::RouteContainer);
    let route = choose_route(&args(".", "dmg"), false, "macos");
    assert_eq!(signal_of_route(&route), CommandSignal::RouteNative);
    let route = choose_route(&args(".", "?"), false, "macos");
    assert_eq!(signal_of_route(&route), CommandSignal::Refused);
}

fn run_command(signals: &[CommandSignal]) -> Vec<CommandStep> {
    let mut phase = CommandPhase::Start;
    let mut steps = Vec::new();
    for signal in signals {
        let (next, step) = command_step(phase, *signal);
        phase = next;
        steps.push(step);
    }
    assert_eq!(phase, CommandPhase::Finished);
    steps
}

#[test]
fn the_container_route_ends_with_zero_only_for_an_existing_artifact() {
    let ok = CommandSignal::StepSucceeded;
    assert_eq!(
        run_command(&[CommandSignal::RouteContainer, ok, ok, CommandSignal::OutputPresent]),
        vec![CommandStep::EnsureImage, CommandStep::RunContainer, CommandStep::VerifyOutput, CommandStep::Exit(0)]
    );
    assert_eq!(
        run_command(&[CommandSignal::RouteContainer, ok, ok, CommandSignal::OutputAbsent]),
        vec![CommandStep::EnsureImage, CommandStep::RunContainer, CommandStep::VerifyOutput, CommandStep::Fail]
    );
    assert_eq!(
        run_command(&[CommandSignal::RouteContainer, CommandSignal::StepFailed]),
        vec![CommandStep::EnsureImage, CommandStep::Fail]
    );
}

#[test]
fn the_native_route_moves_and_verifies_the_artifact() {
    let ok = CommandSignal::StepSucceeded;
    assert_eq!(
        run_command(&[CommandSignal::RouteNative, ok, ok, ok, ok, ok, ok, CommandSignal::OutputPresent]),
        vec![
            CommandStep::ResolveSource,
            CommandStep::LoadManifest,
            CommandStep::Compile,
            CommandStep::LocateBinary,
            CommandStep::Bundle,
            CommandStep::MoveArtifact,
            CommandStep::VerifyOutput,
            CommandStep::Exit(0),
        ]
    );
    assert_eq!(
        run_command(&[CommandSignal::RouteNative, ok, ok, ok, ok, CommandSignal::NothingProduced]),
        vec![
            CommandStep::ResolveSource,
            CommandStep::LoadManifest,
            CommandStep::Compile,
            CommandStep::LocateBinary,
            CommandStep::Bundle,
            CommandStep::Exit(1),
        ]
    );
    assert_eq!(run_command(&[CommandSignal::Refused]), vec![CommandStep::Fail]);
}

#[test]
fn exit_zero_is_reached_from_verification_alone() {
    let phases = [
        CommandPhase::Start,
        CommandPhase::EnsuringImage,
        CommandPhase::RunningContainer,
        CommandPhase::ResolvingSource,
        CommandPhase::LoadingManifest,
        CommandPhase::Compiling,
        CommandPhase::LocatingBinary,
        CommandPhase::Bundling,
        CommandPhase::Moving,
        CommandPhase::Verifying,
        CommandPhase::Finished,
    ];
    let signals = [
        CommandSignal::RouteContainer,
        CommandSignal::RouteNative,
        CommandSignal::Refused,
        CommandSignal::StepSucceeded,
        CommandSignal::StepFailed,
        CommandSignal::NothingProduced,
        CommandSignal::OutputPresent,
        CommandSignal::OutputAbsent,
    ];
    for phase in phases {
        for signal in signals {
            let (_, step) = command_step(phase, signal);
            if step == CommandStep::Exit(0) {
                assert_eq!((phase, signal), (CommandPhase::Verifying, CommandSignal::OutputPresent));
            }
        }
    }
}

#[test]
fn compiling_and_locating_the_binary() {
    assert_eq!(cross_compile_target(PackageType::Exe, "linux"), Some("x86_64-pc-windows-gnu"));
    assert_eq!(cross_compile_target(PackageType::Exe, "windows"), None);
    assert_eq!(cross_compile_target(PackageType::Deb, "linux"), None);
    assert_eq!(cargo_build_args("app", None), vec!["build", "--release", "--bin", "app"]);
    assert_eq!(
        cargo_build_args("app", Some("x86_64-pc-windows-gnu")),
        vec!["build", "--release", "--bin", "app", "--target", "x86_64-pc-windows-gnu"]
    );
    assert_eq!(release_directory("/repo", None), "/repo/target/release");
    assert_eq!(release_directory("/repo", Some("t")), "/repo/target/t/release");
    assert_eq!(expected_binary_path("/repo", "app", None), "/repo/target/release/app");
    assert_eq!(
        expected_binary_path("/repo", "app", Some("x86_64-pc-windows-gnu")),
        "/repo/target/x86_64-pc-windows-gnu/release/app.exe"
    );
}

#[test]
fn a_missing_output_is_reported() {
    match missing_output_error(false, "/out/a.deb") {
        BundlerError::Cli(CliError::ExecutionFailed { command, reason }) => {
            assert_eq!(command, "verify output");
            assert_eq!(reason, "Move reported success but file does not exist at /out/a.deb");
        }
        other => panic!("unexpected error: {:?}", other),
    }
    match missing_output_error(true, "/out/a.deb") {
        BundlerError::Cli(CliError::ExecutionFailed { command, reason }) => {
            assert_eq!(command, "docker container bundle");
            assert_eq!(reason, "Container bundling completed but artifact not found at /out/a.deb");
        }
        other => panic!("unexpected error: {:?}", other),
    }
}

#[test]
fn sources_are_told_apart() {
    match RepositorySource::parse("cyrup-ai/kodegen").unwrap() {
        RepositorySource::GitHub { org, repo } => {
            assert_eq!(org, "cyrup-ai");
            assert_eq!(repo, "kodegen");
        }
        other => panic!("unexpected source: {:?}", other),
    }
    for local in [".", "./a/b", "/abs/path", "a/b/c", "plain", "", "../x/y"] {
        match RepositorySource::parse(local).unwrap() {
            RepositorySource::Local(path) => assert_eq!(path, local),
            other => panic!("unexpected source for {}: {:?}", local, other),
        }
    }
    for url in ["https://github.com/user/repo", "http://example.com/x.git"] {
        match RepositorySource::parse(url).unwrap() {
            RepositorySource::GitHubUrl(address) => assert_eq!(address, url),
            other => panic!("unexpected source for {}: {:?}", url, other),
        }
    }
    assert!(matches!(RepositorySource::parse("ssh://host/repo").unwrap(), RepositorySource::Local(_)));
    assert!(matches!(RepositorySource::parse("a/").unwrap(), RepositorySource::GitHub { .. }));
}

#[test]
fn clone_addresses() {
    let source = RepositorySource::parse("cyrup-ai/kodegen").unwrap();
    assert_eq!(source.clone_url(), Some("https://github.com/cyrup-ai/kodegen.git".to_string()));
    let source = RepositorySource::parse("https://github.com/u/r").unwrap();
    assert_eq!(source.clone_url(), Some("https://github.com/u/r".to_string()));
    assert_eq!(RepositorySource::parse(".").unwrap().clone_url(), None);
    assert_eq!(clone_args("https://x/y.git", "/tmp/d"), vec!["clone", "--depth=1", "https://x/y.git", "/tmp/d"]);
}

#[test]
fn local_sources_are_resolved_through_their_manifest() {
    assert_eq!(resolve_local("/r", true, true, Some("https://g/r".into())).unwrap(), "https://g/r");
    assert_eq!(invalid(resolve_local("/r", false, true, Some("u".into())).unwrap_err()), "Path does not exist: /r");
    assert_eq!(
        invalid(resolve_local("/r", true, false, Some("u".into())).unwrap_err()),
        "Cargo.toml not found at /r/Cargo.toml"
    );
    assert_eq!(
        invalid(resolve_local("/r", true, true, None).unwrap_err()),
        "No repository field in Cargo.toml at /r/Cargo.toml. Bundler requires a GitHub repository URL to clone from."
    );
}

#[test]
fn manifests_need_name_and_version() {
    let manifest = load_manifest(fields()).unwrap();
    assert_eq!(manifest.metadata.name, "kodegen");
    assert_eq!(manifest.metadata.version, "0.1.0");
    assert_eq!(manifest.metadata.description, "A tool");
    assert_eq!(manifest.metadata.authors, vec!["A", "B"]);
    assert_eq!(manifest.metadata.license.as_deref(), Some("MIT"));
    assert_eq!(manifest.metadata.homepage, None);
    assert_eq!(manifest.binary_name, "kodegen");
    let mut f = fields();
    f.description = None;
    f.first_bin_name = Some("kg".into());
    let manifest = load_manifest(f).unwrap();
    assert_eq!(manifest.metadata.description, "Rust application");
    assert_eq!(manifest.binary_name, "kg");
    let mut f = fields();
    f.has_package = false;
    assert_eq!(invalid(load_manifest(f).unwrap_err()), "No [package] section in Cargo.toml");
    let mut f = fields();
    f.name = None;
    f.version = None;
    assert_eq!(invalid(load_manifest(f).unwrap_err()), "Missing 'name' in [package]");
    let mut f = fields();
    f.version = None;
    assert_eq!(invalid(load_manifest(f).unwrap_err()), "Missing 'version' in [package]");
}

#[test]
fn package_settings_come_from_the_manifest() {
    let mut f = fields();
    f.homepage = Some("https://example.com".into());
    f.first_bin_name = Some("kg".into());
    let manifest = load_manifest(f).unwrap();
    let package = package_settings_of(&manifest);
    assert_eq!(package.product_name, "kodegen");
    assert_eq!(package.version, "0.1.0");
    assert_eq!(package.description, "A tool");
    assert_eq!(package.homepage.as_deref(), Some("https://example.com"));
    assert_eq!(package.authors, Some(vec!["A".to_string(), "B".to_string()]));
    assert_eq!(package.default_run.as_deref(), Some("kg"));
}

#[test]
fn assets_are_entered_where_they_exist() {
    let mut settings = BundleSettings::default();
    let mut png = vec![false; 10];
    png[0] = true;
    png[3] = true;
    png[9] = true;
    let present = AssetPresence { assets_dir: true, icns: true, ico: true, png, entitlements: true };
    discover_bundle_assets("/pkg", &present, &mut settings).unwrap();
    assert_eq!(settings.icns.as_deref(), Some("/pkg/assets/img/icon.icns"));
    assert_eq!(settings.ico.as_deref(), Some("/pkg/assets/img/icon.ico"));
    assert_eq!(settings.windows.nsis.installer_icon.as_deref(), Some("/pkg/assets/img/icon.ico"));
    assert_eq!(
        settings.icon,
        Some(vec![
            "/pkg/assets/img/icon_16x16.png".to_string(),
            "/pkg/assets/img/icon_32x32@2x.png".to_string(),
            "/pkg/assets/img/icon_512x512@2x.png".to_string(),
        ])
    );
    assert_eq!(settings.macos.entitlements.as_deref(), Some("/pkg/assets/entitlements.plist"));
}

#[test]
fn assets_that_do_not_exist_change_nothing() {
    let mut settings = BundleSettings::default();
    settings.icns = Some("/custom.icns".into());
    settings.icon = Some(vec!["/custom.png".into()]);
    let present = AssetPresence { assets_dir: true, icns: false, ico: false, png: vec![], entitlements: false };
    discover_bundle_assets("/pkg", &present, &mut settings).unwrap();
    assert_eq!(settings.icns.as_deref(), Some("/custom.icns"));
    assert_eq!(settings.icon, Some(vec!["/custom.png".to_string()]));
    assert_eq!(settings.ico, None);
    assert_eq!(settings.macos.entitlements, None);
    let absent = AssetPresence { assets_dir: false, icns: true, ico: true, png: vec![true; 10], entitlements: true };
    discover_bundle_assets("/pkg", &absent, &mut settings).unwrap();
    assert_eq!(settings.icns.as_deref(), Some("/custom.icns"));
    assert_eq!(settings.ico, None);
    assert_eq!(linux_icon_file_names().len(), 10);
    assert_eq!(linux_icon_file_names()[5], "icon_128x128@2x.png");
}

#[test]
fn error_texts() {
    let e = BundlerError::Cli(CliError::ExecutionFailed { command: "git clone".into(), reason: "denied".into() });
    assert_eq!(e.message(), "CLI error: Command execution failed: git clone - denied");
    assert_eq!(CliError::InvalidArguments { reason: "x".into() }.message(), "Invalid arguments: x");
    assert_eq!(CliError::MissingArgument { argument: "--source".into() }.message(), "Missing required argument: --source");
    assert_eq!(
        CliError::ConflictingArguments { arguments: vec!["-a".into(), "-b".into()] }.message(),
        "Conflicting arguments: -a, -b"
    );
    assert_eq!(BundlerError::Io("gone".into()).message(), "IO error: gone");
    assert_eq!(BundlerError::Json("bad".into()).message(), "JSON error: bad");
    assert_eq!(BundlerError::Toml("bad".into()).message(), "TOML error: bad");
    assert_eq!(BundlerError::Anyhow("plain".into()).message(), "plain");
    assert!(e.is_recoverable());
    assert_eq!(e.recovery_suggestions(), vec!["Check the error message above for specific details"]);
}

#[test]
fn producer_error_texts() {
    let text = |e: kodegen_bundler::error::ProducerError| e.message();
    assert_eq!(text(kodegen_bundler::error::ProducerError::IoError("gone".into())), "I/O error: gone");
    assert_eq!(text(kodegen_bundler::error::ProducerError::GenericError("plain".into())), "plain");
    assert_eq!(text(kodegen_bundler::error::ProducerError::ArchError("x".into())), "Architecture error: x");
    assert_eq!(
        text(kodegen_bundler::error::ProducerError::CommandFailed { command: "makensis".into(), error: "absent".into() }),
        "Failed to run makensis: absent"
    );
    assert_eq!(
        text(kodegen_bundler::error::ProducerError::BinaryParse("bad magic".into())),
        "failed to parse binary: bad magic"
    );
    assert_eq!(
        text(kodegen_bundler::error::ProducerError::DependencyResolution("Dylib not found: /x".into())),
        "Dylib not found: /x"
    );
    let wrapped = BundlerError::Bundler(kodegen_bundler::error::ProducerError::IconPathError);
    assert_eq!(wrapped.message(), "Bundler error: No icon paths configured");
}
