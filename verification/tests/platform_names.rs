use kodegen_bundler::error::BundlerError;
use kodegen_bundler::error::CliError;
use kodegen_bundler::package::needs_docker;
use kodegen_bundler::package::parse_platform_string;
use kodegen_bundler::package::platform_display_name;
use kodegen_bundler::package::platform_type_to_string;
use kodegen_bundler::package::required_os_for_package;
use kodegen_bundler::package::PackageType;

const ALL: [PackageType; 6] = [
    PackageType::Deb,
    PackageType::Rpm,
    PackageType::AppImage,
    PackageType::MacOsBundle,
    PackageType::Dmg,
    PackageType::Exe,
];

#[test]
fn test_parse_platform_string() {
    assert!(matches!(
        parse_platform_string("deb").unwrap(),
        PackageType::Deb
    ));
    assert!(matches!(
        parse_platform_string("DMG").unwrap(),
        PackageType::Dmg
    ));
    assert!(matches!(
        parse_platform_string("macos-bundle").unwrap(),
        PackageType::MacOsBundle
    ));
    assert!(matches!(
        parse_platform_string("app").unwrap(),
        PackageType::MacOsBundle
    ));
    assert!(matches!(
        parse_platform_string("exe").unwrap(),
        PackageType::Exe
    ));
    assert!(matches!(
        parse_platform_string("exe").unwrap(),
        PackageType::Exe
    ));
    assert!(parse_platform_string("invalid").is_err());
}

#[test]
fn platform_names_read_back_as_their_type() {
    for t in ALL {
        assert_eq!(parse_platform_string(platform_type_to_string(t)).unwrap(), t);
    }
}

#[test]
fn platform_names_are_exact() {
    assert_eq!(platform_type_to_string(PackageType::Deb), "deb");
    assert_eq!(platform_type_to_string(PackageType::Rpm), "rpm");
    assert_eq!(platform_type_to_string(PackageType::AppImage), "appimage");
    assert_eq!(platform_type_to_string(PackageType::MacOsBundle), "macos-bundle");
    assert_eq!(platform_type_to_string(PackageType::Dmg), "dmg");
    assert_eq!(platform_type_to_string(PackageType::Exe), "nsis");
}

#[test]
fn platform_parsing_ignores_ascii_case_and_accepts_nsis() {
    assert_eq!(parse_platform_string("RPM").unwrap(), PackageType::Rpm);
    assert_eq!(parse_platform_string("AppImage").unwrap(), PackageType::AppImage);
    assert_eq!(parse_platform_string("NSIS").unwrap(), PackageType::Exe);
    assert!(parse_platform_string("").is_err());
    assert!(parse_platform_string("deb ").is_err());
}

#[test]
fn unsupported_platform_error_names_the_input() {
    match parse_platform_string("Invalid") {
        Err(BundlerError::Cli(CliError::InvalidArguments { reason })) => {
            assert_eq!(
                reason,
                "Unsupported platform 'Invalid'. Valid: deb, rpm, appimage, dmg, nsis"
            );
        }
        other => panic!("unexpected result: {:?}", other),
    }
}

#[test]
fn display_names_and_required_systems() {
    assert_eq!(platform_display_name(&PackageType::Deb), "Debian Package (.deb)");
    assert_eq!(platform_display_name(&PackageType::Rpm), "RedHat Package (.rpm)");
    assert_eq!(platform_display_name(&PackageType::AppImage), "Linux AppImage");
    assert_eq!(platform_display_name(&PackageType::Dmg), "macOS Disk Image (.dmg)");
    assert_eq!(
        platform_display_name(&PackageType::MacOsBundle),
        "macOS Application Bundle (.app)"
    );
    assert_eq!(
        platform_display_name(&PackageType::Exe),
        "Windows NSIS Installer (.exe)"
    );
    assert_eq!(required_os_for_package(&PackageType::Deb), "linux");
    assert_eq!(required_os_for_package(&PackageType::Rpm), "linux");
    assert_eq!(required_os_for_package(&PackageType::AppImage), "linux");
    assert_eq!(required_os_for_package(&PackageType::Dmg), "macos");
    assert_eq!(required_os_for_package(&PackageType::MacOsBundle), "macos");
    assert_eq!(required_os_for_package(&PackageType::Exe), "windows");
}

#[test]
fn container_is_needed_only_across_systems_and_outside_containers() {
    assert!(!needs_docker(&PackageType::Deb, false, "linux"));
    assert!(needs_docker(&PackageType::Deb, false, "macos"));
    assert!(!needs_docker(&PackageType::Deb, true, "macos"));
    assert!(needs_docker(&PackageType::Dmg, false, "linux"));
    assert!(!needs_docker(&PackageType::Dmg, false, "macos"));
    assert!(needs_docker(&PackageType::Exe, false, "linux"));
    assert!(!needs_docker(&PackageType::Exe, true, "linux"));
}

#[test]
fn containers_are_detected() {
    let check = kodegen_bundler::package::running_in_container;
    assert!(check(true, None, false));
    assert!(check(true, Some("0::/"), false));
    assert!(check(false, Some("12:pids:/docker/abc"), false));
    assert!(check(false, Some("0::/buildkit/x"), false));
    assert!(!check(false, Some("0::/init.scope"), true));
    assert!(check(false, None, true));
    assert!(!check(false, None, false));
}
