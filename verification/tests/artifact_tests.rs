use kodegen_bundler::docker::artifact_manager::bundle_directory;
use kodegen_bundler::docker::artifact_manager::entry_is_artifact;
use kodegen_bundler::docker::artifact_manager::verify_artifacts;
use kodegen_bundler::docker::artifact_manager::ArtifactManager;
use kodegen_bundler::docker::artifact_manager::DirEntryInfo;
use kodegen_bundler::docker::artifact_manager::DirectoryListing;
use kodegen_bundler::error::BundlerError;
use kodegen_bundler::error::CliError;
use kodegen_bundler::package::PackageType;

fn parts(e: BundlerError) -> (String, String) {
    match e {
        BundlerError::Cli(CliError::ExecutionFailed { command, reason }) => (command, reason),
        other => panic!("unexpected error: {:?}", other),
    }
}

fn file(path: &str, size: u64) -> DirEntryInfo {
    DirEntryInfo { path: path.to_string(), is_file: true, is_symlink: false, is_dir: false, size }
}

fn dir(path: &str) -> DirEntryInfo {
    DirEntryInfo { path: path.to_string(), is_file: false, is_symlink: false, is_dir: true, size: 4096 }
}

fn link(path: &str, size: u64) -> DirEntryInfo {
    DirEntryInfo { path: path.to_string(), is_file: false, is_symlink: true, is_dir: false, size }
}

fn manager() -> ArtifactManager {
    ArtifactManager::new("/ws".to_string())
}

#[test]
fn bundle_directory_lies_below_release_bundle() {
    assert_eq!(bundle_directory("/tmp/t", PackageType::Deb), "/tmp/t/release/bundle/deb");
    assert_eq!(bundle_directory("/tmp/t/", PackageType::AppImage), "/tmp/t/release/bundle/appimage");
    assert_eq!(bundle_directory("", PackageType::Exe), "release/bundle/nsis");
    assert_eq!(bundle_directory("t", PackageType::MacOsBundle), "t/release/bundle/macos-bundle");
}

#[test]
fn artifacts_are_regular_files_of_plausible_size_with_the_right_extension() {
    let listing = DirectoryListing::Entries(vec![
        file("/t/release/bundle/deb/app_1.0_amd64.deb", 2048),
        file("/t/release/bundle/deb/tiny.deb", 1023),
        file("/t/release/bundle/deb/exact.DEB", 1024),
        file("/t/release/bundle/deb/app.rpm", 5000),
        file("/t/release/bundle/deb/noext", 5000),
        dir("/t/release/bundle/deb/dir.deb"),
        link("/t/release/bundle/deb/link.deb", 5000),
        file("/t/release/bundle/deb/.deb", 5000),
    ]);
    let found = manager().discover_artifacts("/t", PackageType::Deb, &listing).unwrap();
    assert_eq!(found, vec!["/t/release/bundle/deb/app_1.0_amd64.deb", "/t/release/bundle/deb/exact.DEB"]);
}

#[test]
fn each_platform_has_its_extension() {
    let cases = [
        (PackageType::Deb, "a.deb"),
        (PackageType::Rpm, "a.rpm"),
        (PackageType::AppImage, "a.AppImage"),
        (PackageType::AppImage, "a"),
        (PackageType::Exe, "a-setup.exe"),
        (PackageType::Dmg, "a.dmg"),
        (PackageType::MacOsBundle, "a.app"),
    ];
    for (platform, name) in cases {
        assert!(entry_is_artifact(&file(name, 1024), platform), "{} {:?}", name, platform);
        assert!(!entry_is_artifact(&file(name, 1023), platform));
        assert!(!entry_is_artifact(&link(name, 4096), platform));
        assert!(!entry_is_artifact(&dir(name), platform));
    }
    assert!(!entry_is_artifact(&file("a.deb", 4096), PackageType::Rpm));
    assert!(!entry_is_artifact(&file("a", 4096), PackageType::Deb));
    assert!(!entry_is_artifact(&file("a.deb", 4096), PackageType::AppImage));
    assert!(!entry_is_artifact(&file("a.deb.sig", 4096), PackageType::Deb));
}

#[test]
fn a_symlink_to_a_regular_file_is_no_artifact() {
    let entry = DirEntryInfo { path: "a.deb".into(), is_file: true, is_symlink: true, is_dir: false, size: 4096 };
    assert!(!entry_is_artifact(&entry, PackageType::Deb));
}

#[test]
fn missing_directory_is_reported() {
    let (command, reason) =
        parts(manager().discover_artifacts("/t", PackageType::Rpm, &DirectoryListing::Missing).unwrap_err());
    assert_eq!(command, "find bundle directory");
    assert_eq!(
        reason,
        "Bundle directory not found: /t/release/bundle/rpm\nExpected artifacts from container build"
    );
}

#[test]
fn unreadable_directory_is_reported() {
    let listing = DirectoryListing::Unreadable("Permission denied".to_string());
    let (command, reason) = parts(manager().discover_artifacts("/t", PackageType::Rpm, &listing).unwrap_err());
    assert_eq!(command, "read bundle directory");
    assert_eq!(reason, "Failed to read /t/release/bundle/rpm: Permission denied");
}

#[test]
fn no_artifacts_error_lists_what_is_there() {
    let listing = DirectoryListing::Entries(vec![
        file("/t/release/bundle/deb/notes.txt", 12),
        dir("/t/release/bundle/deb/tmp"),
        file("/t/release/bundle/deb/app.deb", 100),
    ]);
    let (command, reason) = parts(manager().discover_artifacts("/t", PackageType::Deb, &listing).unwrap_err());
    assert_eq!(command, "find artifacts");
    assert_eq!(
        reason,
        "No artifact files found matching expected patterns in:\n\
         /t/release/bundle/deb\n\
         \n\
         Directory contents:\n\
         \x20 [FILE] notes.txt (12 bytes)\n\
         \x20 [DIR]  tmp\n\
         \x20 [FILE] app.deb (100 bytes)\n\
         \n\
         Expected artifacts like:\n\
         • deb.deb (Debian package)\n\
         • deb.rpm (RedHat package)\n\
         • deb.AppImage (AppImage bundle)\n\
         etc."
    );
}

#[test]
fn empty_directory_gets_its_own_report() {
    let listing = DirectoryListing::Entries(vec![]);
    let (command, reason) = parts(manager().discover_artifacts("/t", PackageType::Dmg, &listing).unwrap_err());
    assert_eq!(command, "find artifacts");
    assert_eq!(
        reason,
        "Bundle directory is empty or inaccessible:\n\
         /t/release/bundle/dmg\n\
         \n\
         Possible causes:\n\
         • Bundle command failed silently inside container\n\
         • Incorrect output directory path\n\
         • Permission issues\n\
         \n\
         Check container logs:\n\
         docker ps -a | head -2"
    );
}

#[test]
fn unreadable_listing_is_shown_in_the_report() {
    let listing = DirectoryListing::Unreadable("gone".to_string());
    let (_, reason) = parts(manager().format_no_artifacts_error("/d", PackageType::Deb, &listing));
    assert!(reason.contains("Directory contents:\n[Cannot read directory: gone]\n"));
}

#[test]
fn relocation_is_one_rename_where_rename_replaces() {
    let artifacts = vec!["/tmp/t/release/bundle/deb/app.deb".to_string(), "/elsewhere/x.deb".to_string()];
    let plan = manager().move_artifacts_to_final(&artifacts, "/tmp/t", PackageType::Deb, true, Some(true));
    assert_eq!(plan.create_dir.as_deref(), Some("/ws/target/release/bundle"));
    assert_eq!(plan.remove_first, None);
    assert_eq!(plan.rename_from, "/tmp/t/release/bundle/deb");
    assert_eq!(plan.rename_to, "/ws/target/release/bundle/deb");
    assert_eq!(plan.final_paths, vec!["/ws/target/release/bundle/deb/app.deb", "/elsewhere/x.deb"]);
}

#[test]
fn relocation_removes_a_stale_destination_where_rename_does_not_replace() {
    let artifacts = vec![];
    let plan = manager().move_artifacts_to_final(&artifacts, "/tmp/t", PackageType::Rpm, false, Some(true));
    assert_eq!(plan.remove_first.as_deref(), Some("/ws/target/release/bundle/rpm"));
    let plan = manager().move_artifacts_to_final(&artifacts, "/tmp/t", PackageType::Rpm, false, Some(false));
    assert_eq!(plan.remove_first, None);
    let plan = manager().move_artifacts_to_final(&artifacts, "/tmp/t", PackageType::Rpm, false, None);
    assert_eq!(plan.remove_first, None);
    assert!(plan.final_paths.is_empty());
}

#[test]
fn relocated_paths_keep_what_lies_outside_the_temporary_directory() {
    let m = manager();
    assert_eq!(m.relocated("/tmp/t", "/tmp/t/release/a.deb"), "/ws/target/release/a.deb");
    assert_eq!(m.relocated("/tmp/t", "/tmp/t"), "/ws/target/");
    assert_eq!(m.relocated("/tmp/t", "/tmp/tt/a.deb"), "/tmp/tt/a.deb");
    assert_eq!(m.relocated("/tmp/t/", "/tmp/t/a.deb"), "/ws/target/a.deb");
}

#[test]
fn artifacts_are_verified_before_they_are_handed_on() {
    let artifacts = vec!["/a.deb".to_string(), "/b.deb".to_string(), "/c.deb".to_string()];
    assert!(verify_artifacts(&artifacts, &vec![true, true, true]).is_ok());
    assert!(verify_artifacts(&vec![], &vec![]).is_ok());
    let (command, reason) = parts(verify_artifacts(&artifacts, &vec![true, false, false]).unwrap_err());
    assert_eq!(command, "verify artifacts");
    assert_eq!(reason, "Artifact not found: /b.deb");
    let (_, reason) = parts(verify_artifacts(&artifacts, &vec![true]).unwrap_err());
    assert_eq!(reason, "Artifact checks do not match the artifacts");
}

#[test]
fn each_file_of_the_renamed_directory_is_where_the_plan_says() {
    let platforms = [
        PackageType::Deb,
        PackageType::Rpm,
        PackageType::AppImage,
        PackageType::MacOsBundle,
        PackageType::Dmg,
        PackageType::Exe,
    ];
    for platform in platforms {
        for temp in ["/tmp/t", "/tmp/t/", "rel"] {
            let from = bundle_directory(temp, platform);
            let names = ["app.bin", "sub/dir/file", "a b"];
            let artifacts: Vec<String> = names.iter().map(|n| format!("{}/{}", from, n)).collect();
            let plan = manager().move_artifacts_to_final(&artifacts, temp, platform, true, None);
            assert_eq!(plan.rename_from, from);
            let expected: Vec<String> = names.iter().map(|n| format!("{}/{}", plan.rename_to, n)).collect();
            assert_eq!(plan.final_paths, expected);
        }
    }
}
