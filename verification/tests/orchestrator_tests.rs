use kodegen_bundler::error::ProducerError;
use kodegen_bundler::orchestrator::assemble_artifact;
use kodegen_bundler::orchestrator::determine_platform_types;
use kodegen_bundler::orchestrator::is_supported_on;
use kodegen_bundler::orchestrator::produced_size;
use kodegen_bundler::orchestrator::BundleRun;
use kodegen_bundler::orchestrator::BundleStep;
use kodegen_bundler::orchestrator::Bundler;
use kodegen_bundler::orchestrator::HostOs;
use kodegen_bundler::package::PackageType;
use kodegen_bundler::settings::builder::SettingsBuilder;
use kodegen_bundler::settings::bundle::BundleBinary;
use kodegen_bundler::settings::config::Settings;
use kodegen_bundler::settings::package::PackageSettings;

const DIGEST: &str = "ba7816bf8f01cfea414140de5dae2223b00361a396177a9cb410ff61f20015ad";

fn settings(types: Option<Vec<PackageType>>) -> Settings {
    let builder = SettingsBuilder::new()
        .project_out_directory("target/release")
        .package_settings(PackageSettings {
            product_name: "app".into(),
            version: "1.0.0".into(),
            description: "An app".into(),
            homepage: None,
            authors: None,
            default_run: None,
        })
        .binaries(vec![BundleBinary::new("app".into(), true)]);
    let builder = match types {
        Some(t) => builder.package_types(t),
        None => builder,
    };
    builder.build("x86_64-unknown-linux-gnu").unwrap()
}

fn produced(run: &mut BundleRun) -> Vec<PackageType> {
    let mut attempts = Vec::new();
    loop {
        match run.next_step() {
            BundleStep::Produce(t) => {
                attempts.push(t);
                let path = format!("target/release/bundle/x/app.{}", attempts.len());
                run.record_success(vec![path], &vec![Some(2048)], DIGEST.to_string()).unwrap();
            }
            BundleStep::Finished => return attempts,
            other => panic!("unexpected step: {:?}", other),
        }
    }
}

#[test]
fn linux_defaults_without_windows_compiler() {
    assert_eq!(
        determine_platform_types(None, HostOs::Linux, false),
        vec![PackageType::Deb, PackageType::Rpm, PackageType::AppImage]
    );
    let mut run = Bundler::new(settings(None)).bundle(HostOs::Linux, false);
    assert_eq!(produced(&mut run), vec![PackageType::Deb, PackageType::Rpm, PackageType::AppImage]);
}

#[test]
fn other_defaults() {
    assert_eq!(
        determine_platform_types(None, HostOs::Linux, true),
        vec![PackageType::Deb, PackageType::Rpm, PackageType::AppImage, PackageType::Exe]
    );
    assert_eq!(
        determine_platform_types(None, HostOs::MacOs, true),
        vec![PackageType::MacOsBundle, PackageType::Dmg]
    );
    assert_eq!(determine_platform_types(None, HostOs::Other, true), vec![]);
}

#[test]
fn requested_types_are_taken_in_their_order() {
    let wanted = vec![PackageType::AppImage, PackageType::Deb, PackageType::Deb];
    assert_eq!(determine_platform_types(Some(&wanted), HostOs::MacOs, false), wanted);
    let mut run = Bundler::new(settings(Some(wanted.clone()))).bundle(HostOs::Linux, true);
    assert_eq!(produced(&mut run), wanted);
    let mut run = Bundler::new(settings(None)).bundle_types(&vec![PackageType::Rpm], HostOs::Linux);
    assert_eq!(produced(&mut run), vec![PackageType::Rpm]);
}

#[test]
fn deb_on_linux_gives_one_artifact() {
    let bundler = Bundler::new(settings(Some(vec![PackageType::Deb])));
    assert_eq!(bundler.settings().product_name(), "app");
    let mut run = bundler.bundle(HostOs::Linux, false);
    assert!(matches!(run.next_step(), BundleStep::Produce(PackageType::Deb)));
    let paths = vec!["target/release/bundle/deb/app_1.0.0_amd64.deb".to_string()];
    run.record_success(paths, &vec![Some(4096)], DIGEST.to_string()).unwrap();
    assert!(matches!(run.next_step(), BundleStep::Finished));
    let artifacts = run.finish().unwrap();
    assert_eq!(artifacts.len(), 1);
    assert_eq!(artifacts[0].package_type, PackageType::Deb);
    assert_eq!(artifacts[0].paths.len(), 1);
    assert!(artifacts[0].paths[0].ends_with(".deb"));
    assert!(artifacts[0].size > 0);
    assert_eq!(artifacts[0].size, 4096);
    assert_eq!(artifacts[0].checksum.len(), 64);
    assert!(artifacts[0].checksum.chars().all(|c| c.is_ascii_digit() || ('a'..='f').contains(&c)));
}

#[test]
fn sizes_of_all_paths_are_summed() {
    let artifact = assemble_artifact(
        PackageType::MacOsBundle,
        vec!["a.app".to_string(), "a.app.tar.gz".to_string(), "a.sig".to_string()],
        &vec![Some(1000), Some(0), Some(24)],
        DIGEST.to_string(),
    )
    .unwrap();
    assert_eq!(artifact.size, 1024);
    assert_eq!(artifact.paths, vec!["a.app", "a.app.tar.gz", "a.sig"]);
    assert_eq!(artifact.checksum, DIGEST);
    assert_eq!(artifact.package_type, PackageType::MacOsBundle);
}

#[test]
fn success_without_paths_is_a_bundler_bug() {
    match assemble_artifact(PackageType::Rpm, vec![], &vec![], DIGEST.to_string()) {
        Err(ProducerError::NoOutputPaths(PackageType::Rpm)) => {}
        other => panic!("unexpected result: {:?}", other),
    }
    assert_eq!(
        ProducerError::NoOutputPaths(PackageType::Rpm).message(),
        "Platform bundler for rpm returned no paths - this indicates a bundler bug"
    );
}

#[test]
fn a_returned_path_that_is_not_on_disk_is_detected() {
    let paths = vec!["a.deb".to_string(), "b.deb".to_string()];
    match produced_size(PackageType::Deb, &paths, &vec![Some(5), None]) {
        Err(ProducerError::IoError(text)) => assert_eq!(text, "reading artifact metadata: b.deb"),
        other => panic!("unexpected result: {:?}", other),
    }
    assert!(matches!(produced_size(PackageType::Deb, &paths, &vec![Some(5)]), Err(ProducerError::IoError(_))));
    assert_eq!(produced_size(PackageType::Deb, &paths, &vec![Some(5), Some(6)]).unwrap(), 11);
}

#[test]
fn sizes_beyond_64_bits_are_refused() {
    let paths = vec!["a".to_string(), "b".to_string()];
    assert!(matches!(
        produced_size(PackageType::Deb, &paths, &vec![Some(u64::MAX), Some(1)]),
        Err(ProducerError::GenericError(_))
    ));
    assert_eq!(produced_size(PackageType::Deb, &paths, &vec![Some(u64::MAX), Some(0)]).unwrap(), u64::MAX);
}

#[test]
fn a_producer_failure_ends_the_run_without_a_partial_list() {
    let mut run = BundleRun::new(vec![PackageType::Deb, PackageType::Rpm, PackageType::AppImage], HostOs::Linux);
    assert!(matches!(run.next_step(), BundleStep::Produce(PackageType::Deb)));
    run.record_success(vec!["a.deb".into()], &vec![Some(1)], DIGEST.into()).unwrap();
    assert!(matches!(run.next_step(), BundleStep::Produce(PackageType::Rpm)));
    run.record_failure();
    assert!(matches!(run.next_step(), BundleStep::Aborted));
    assert!(matches!(run.next_step(), BundleStep::Aborted));
    assert!(run.finish().is_none());
}

#[test]
fn a_record_that_cannot_be_made_ends_the_run() {
    let mut run = BundleRun::new(vec![PackageType::Deb, PackageType::Rpm], HostOs::Linux);
    assert!(matches!(run.next_step(), BundleStep::Produce(PackageType::Deb)));
    assert!(matches!(
        run.record_success(vec![], &vec![], DIGEST.into()),
        Err(ProducerError::NoOutputPaths(PackageType::Deb))
    ));
    assert!(matches!(run.next_step(), BundleStep::Aborted));
    assert!(run.finish().is_none());
}

#[test]
fn an_unfinished_run_gives_nothing() {
    let mut run = BundleRun::new(vec![PackageType::Deb, PackageType::Rpm], HostOs::Linux);
    assert!(matches!(run.next_step(), BundleStep::Produce(PackageType::Deb)));
    run.record_success(vec!["a.deb".into()], &vec![Some(1)], DIGEST.into()).unwrap();
    assert!(run.finish().is_none());
    assert_eq!(BundleRun::new(vec![], HostOs::Other).finish().unwrap().len(), 0);
}

#[test]
fn unsupported_package_types_fail_the_run() {
    let mut run = BundleRun::new(vec![PackageType::Deb, PackageType::Dmg, PackageType::Rpm], HostOs::Linux);
    assert!(matches!(run.next_step(), BundleStep::Produce(PackageType::Deb)));
    run.record_success(vec!["a.deb".into()], &vec![Some(1)], DIGEST.into()).unwrap();
    match run.next_step() {
        BundleStep::Fail(ProducerError::UnsupportedPackageType(PackageType::Dmg)) => {}
        other => panic!("unexpected step: {:?}", other),
    }
    assert!(matches!(run.next_step(), BundleStep::Aborted));
    assert_eq!(
        ProducerError::UnsupportedPackageType(PackageType::Dmg).message(),
        "Package type dmg not supported on this platform"
    );
}

#[test]
fn hosts_and_their_producers() {
    for t in [PackageType::Deb, PackageType::Rpm, PackageType::AppImage, PackageType::Exe] {
        assert!(is_supported_on(t, HostOs::Linux));
        assert!(!is_supported_on(t, HostOs::MacOs));
        assert!(!is_supported_on(t, HostOs::Other));
    }
    for t in [PackageType::MacOsBundle, PackageType::Dmg] {
        assert!(!is_supported_on(t, HostOs::Linux));
        assert!(is_supported_on(t, HostOs::MacOs));
        assert!(!is_supported_on(t, HostOs::Other));
    }
}

#[test]
fn a_refused_record_says_what_was_wrong() {
    let mut run = BundleRun::new(vec![PackageType::Rpm, PackageType::Deb], HostOs::Linux);
    assert!(matches!(run.next_step(), BundleStep::Produce(PackageType::Rpm)));
    match run.record_success(vec![], &vec![], DIGEST.into()) {
        Err(ProducerError::NoOutputPaths(t)) => assert_eq!(t, PackageType::Rpm),
        other => panic!("unexpected result: {:?}", other),
    }
    let mut run = BundleRun::new(vec![PackageType::Deb], HostOs::Linux);
    assert!(matches!(run.next_step(), BundleStep::Produce(PackageType::Deb)));
    match run.record_success(vec!["a.deb".into(), "b.deb".into()], &vec![Some(1), None], DIGEST.into()) {
        Err(ProducerError::IoError(text)) => assert_eq!(text, "reading artifact metadata: b.deb"),
        other => panic!("unexpected result: {:?}", other),
    }
    let mut run = BundleRun::new(vec![PackageType::Deb], HostOs::Linux);
    assert!(matches!(run.next_step(), BundleStep::Produce(PackageType::Deb)));
    match run.record_success(vec!["a.deb".into(), "b.deb".into()], &vec![Some(1)], DIGEST.into()) {
        Err(ProducerError::IoError(text)) => assert_eq!(text, "reading artifact metadata: sizes are missing"),
        other => panic!("unexpected result: {:?}", other),
    }
    let mut run = BundleRun::new(vec![PackageType::Deb], HostOs::Linux);
    assert!(matches!(run.next_step(), BundleStep::Produce(PackageType::Deb)));
    match run.record_success(vec!["a.deb".into(), "b.deb".into()], &vec![Some(u64::MAX), Some(1)], DIGEST.into()) {
        Err(ProducerError::GenericError(text)) => assert_eq!(text, "artifact sizes exceed 64 bits"),
        other => panic!("unexpected result: {:?}", other),
    }
    let mut run = BundleRun::new(vec![], HostOs::Linux);
    match run.record_success(vec!["a.deb".into()], &vec![Some(1)], DIGEST.into()) {
        Err(ProducerError::GenericError(text)) => assert_eq!(text, "no package type is being produced"),
        other => panic!("unexpected result: {:?}", other),
    }
}
