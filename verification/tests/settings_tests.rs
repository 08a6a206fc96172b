use kodegen_bundler::error::ProducerError;
use kodegen_bundler::package::PackageType;
use kodegen_bundler::settings::arch::Arch;
use kodegen_bundler::settings::builder::SettingsBuilder;
use kodegen_bundler::settings::bundle::BundleBinary;
use kodegen_bundler::settings::bundle::BundleSettings;
use kodegen_bundler::settings::bundle::CategorySettings;
use kodegen_bundler::settings::config::Settings;
use kodegen_bundler::settings::linux::AppImageSettings;
use kodegen_bundler::settings::linux::DebianSettings;
use kodegen_bundler::settings::linux::RpmSettings;
use kodegen_bundler::settings::macos::DmgSettings;
use kodegen_bundler::settings::macos::MacOsSettings;
use kodegen_bundler::settings::package::PackageSettings;
use kodegen_bundler::settings::windows::NsisSettings;
use kodegen_bundler::settings::windows::WindowsSettings;
use kodegen_bundler::settings::windows::WixSettings;

fn package() -> PackageSettings {
    PackageSettings {
        product_name: "MyApp".into(),
        version: "1.0.0".into(),
        description: "My application".into(),
        homepage: Some("https://example.com".into()),
        authors: Some(vec!["A <a@example.com>".into()]),
        default_run: Some("myapp".into()),
    }
}

fn with_target(target: &str) -> Settings {
    SettingsBuilder::new()
        .project_out_directory("target/release")
        .package_settings(package())
        .target(target.to_string())
        .build("ignored")
        .unwrap()
}

#[test]
fn builder_keeps_what_it_is_given() {
    let settings = SettingsBuilder::new()
        .project_out_directory("target/release")
        .package_settings(package())
        .binaries(vec![BundleBinary::new("myapp".into(), true), BundleBinary::new("tool".into(), false)])
        .package_types(vec![PackageType::Deb, PackageType::AppImage])
        .target("aarch64-unknown-linux-gnu".into())
        .build("x86_64")
        .unwrap();
    assert_eq!(settings.product_name(), "MyApp");
    assert_eq!(settings.version_string(), "1.0.0");
    assert_eq!(settings.description(), "My application");
    assert_eq!(settings.project_out_directory(), "target/release");
    assert_eq!(settings.homepage(), Some("https://example.com"));
    assert_eq!(settings.authors().unwrap(), &vec!["A <a@example.com>".to_string()]);
    assert_eq!(settings.binaries().len(), 2);
    assert_eq!(settings.binaries()[1].name(), "tool");
    assert_eq!(settings.package_types().unwrap(), &vec![PackageType::Deb, PackageType::AppImage]);
    assert_eq!(settings.binary_arch(), Arch::AArch64);
    assert_eq!(settings.binary_path(&settings.binaries()[0]), "target/release/myapp");
    assert!(settings.bundle_settings().identifier.is_none());
}

#[test]
fn builder_requires_package_and_output_directory() {
    match SettingsBuilder::new().project_out_directory("t").build("x86_64") {
        Err(ProducerError::GenericError(text)) => assert_eq!(text, "package_settings is required"),
        other => panic!("unexpected result: {:?}", other),
    }
    match SettingsBuilder::new().package_settings(package()).build("x86_64") {
        Err(ProducerError::GenericError(text)) => assert_eq!(text, "project_out_directory is required"),
        other => panic!("unexpected result: {:?}", other),
    }
    match SettingsBuilder::default().build("x86_64") {
        Err(ProducerError::GenericError(text)) => assert_eq!(text, "package_settings is required"),
        other => panic!("unexpected result: {:?}", other),
    }
}

#[test]
fn builder_falls_back_to_the_host_target() {
    let settings =
        SettingsBuilder::new().project_out_directory("t").package_settings(package()).build("riscv64").unwrap();
    assert_eq!(settings.binary_arch(), Arch::Riscv64);
    assert!(settings.package_types().is_none());
    assert!(settings.binaries().is_empty());
}

#[test]
fn architecture_follows_the_target_triple() {
    assert_eq!(with_target("x86_64-unknown-linux-gnu").binary_arch(), Arch::X86_64);
    assert_eq!(with_target("i686-pc-windows-msvc").binary_arch(), Arch::X86);
    assert_eq!(with_target("i386-apple-ios").binary_arch(), Arch::X86);
    assert_eq!(with_target("aarch64-apple-darwin").binary_arch(), Arch::AArch64);
    assert_eq!(with_target("armv7-unknown-linux-gnueabihf").binary_arch(), Arch::Armhf);
    assert_eq!(with_target("arm-unknown-linux-gnueabi").binary_arch(), Arch::Armel);
    assert_eq!(with_target("riscv64gc-unknown-linux-gnu").binary_arch(), Arch::Riscv64);
    assert_eq!(with_target("wasm32-unknown-unknown").binary_arch(), Arch::X86_64);
    assert_eq!(with_target("").binary_arch(), Arch::X86_64);
    assert_eq!(with_target("hf").binary_arch(), Arch::X86_64);
}

#[test]
fn icon_files_need_configured_icons() {
    assert!(matches!(with_target("x86_64").icon_files(), Err(ProducerError::IconPathError)));
    let mut bundle = BundleSettings::default();
    bundle.icon = Some(vec!["a.png".into()]);
    let settings = SettingsBuilder::new()
        .project_out_directory("t")
        .package_settings(package())
        .bundle_settings(bundle)
        .build("x86_64")
        .unwrap();
    assert_eq!(settings.icon_files().unwrap(), &vec!["a.png".to_string()]);
    assert_eq!(ProducerError::IconPathError.message(), "No icon paths configured");
}

#[test]
fn bundle_binary_accessors() {
    let mut binary = BundleBinary::new("app".into(), false);
    assert_eq!(binary.name(), "app");
    assert!(!binary.main());
    assert_eq!(binary.src_path(), None);
    binary.set_main(true);
    binary.set_name("other".into());
    assert!(binary.main());
    assert_eq!(binary.name(), "other");
    let binary = binary.set_src_path(Some("src/main.rs".into()));
    assert_eq!(binary.src_path(), Some(&"src/main.rs".to_string()));
    assert_eq!(binary.name(), "other");
    let binary = BundleBinary::with_path("x".into(), true, Some("src/x.rs".into()));
    assert_eq!(binary.src_path().unwrap(), "src/x.rs");
    assert!(binary.main());
    let binary = binary.set_src_path(None);
    assert_eq!(binary.src_path(), None);
}

#[test]
fn defaults_are_empty_but_for_the_rpm_release() {
    let rpm = RpmSettings::default();
    assert_eq!(rpm.release, "1");
    assert_eq!(rpm.epoch, 0);
    assert!(rpm.depends.is_none() && rpm.files.is_empty() && rpm.compression.is_none());
    let deb = DebianSettings::default();
    assert!(deb.depends.is_none() && deb.files.is_empty() && deb.section.is_none());
    let appimage = AppImageSettings::default();
    assert!(appimage.files.is_empty() && !appimage.bundle_media_framework && !appimage.bundle_xdg_open);
    let macos = MacOsSettings::default();
    assert!(macos.signing_identity.is_none() && !macos.skip_notarization && !macos.skip_stapling);
    let dmg = DmgSettings::default();
    assert!(dmg.background.is_none() && dmg.window_size.is_none());
    let windows = WindowsSettings::default();
    assert!(windows.cert_path.is_none() && windows.nsis.compression.is_none());
    let wix = WixSettings::default();
    assert!(wix.language.is_empty() && !wix.skip_webview_install);
    let nsis = NsisSettings::default();
    assert!(nsis.template.is_none() && nsis.languages.is_none());
    let category = CategorySettings::default();
    assert!(category.linux.is_none() && category.macos.is_none() && category.windows.is_none());
    let bundle = BundleSettings::default();
    assert!(bundle.icon.is_none() && bundle.category.is_none());
    assert_eq!(bundle.rpm.release, "1");
    let package = PackageSettings::default();
    assert!(package.product_name.is_empty() && package.homepage.is_none());
}

#[test]
fn a_binary_has_the_executable_extension_on_a_windows_host() {
    let settings = SettingsBuilder::new()
        .project_out_directory("target/release")
        .package_settings(package())
        .binaries(vec![BundleBinary::new("myapp".to_string(), true), BundleBinary::new("tool.bin".to_string(), false)])
        .build("x86_64")
        .unwrap();
    assert_eq!(settings.binary_path_on(&settings.binaries()[0], false), "target/release/myapp");
    assert_eq!(settings.binary_path_on(&settings.binaries()[0], true), "target/release/myapp.exe");
    assert_eq!(settings.binary_path_on(&settings.binaries()[1], true), "target/release/tool.exe");
    assert_eq!(settings.binary_path_on(&settings.binaries()[1], false), "target/release/tool.bin");
}
