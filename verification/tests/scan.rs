use base64::Engine;
use birchvault::launcher::{
    icon_data_url, swap_red_and_blue,
    compute_file_hash, counts_as_dev_build, counts_as_installed, describe, describe_installed,
    descends_for_dev_builds, descends_for_installers, is_installer, scan_folder, AppStatus,
    DevBuild, Installer,
};
use sha2::Digest;

fn installer(id: &str, path: &str) -> Installer {
    Installer { app_id: id.to_string(), path: path.to_string() }
}

fn dev(id: &str, file: &str, path: &str, hash: &str) -> DevBuild {
    DevBuild { app_id: id.to_string(), file_name: file.to_string(), path: path.to_string(), size: 2_000_000, hash: hash.to_string() }
}

#[test]
fn fingerprint_is_the_hash_of_the_beginning_and_the_size() {
    let data = b"hello world";
    let mut h = sha2::Sha256::new();
    h.update(data);
    h.update(11u64.to_le_bytes());
    assert_eq!(compute_file_hash(data, 11), format!("{:x}", h.finalize()));
    let mut h = sha2::Sha256::new();
    h.update(0x0102030405060708u64.to_le_bytes());
    assert_eq!(compute_file_hash(b"", 0x0102030405060708), format!("{:x}", h.finalize()));
    assert_ne!(compute_file_hash(data, 11), compute_file_hash(data, 12));
    assert_eq!(compute_file_hash(b"", 0).len(), 64);
    let mut h = sha2::Sha256::new();
    h.update(u64::MAX.to_le_bytes());
    assert_eq!(compute_file_hash(b"", u64::MAX), format!("{:x}", h.finalize()));
}

#[test]
fn installer_search_enters_only_some_directories() {
    for name in ["bundle", "nsis", "release", "target", "src-tauri", "birch-host", "birch"] {
        assert!(descends_for_installers(name, 0), "{}", name);
        assert!(descends_for_installers(name, 9), "{}", name);
        assert!(!descends_for_installers(name, 10), "{}", name);
    }
    for name in ["node_modules", ".git", "deps", "debug", ".cargo", "src", "apps", "", "Bundle"] {
        assert!(!descends_for_installers(name, 0), "{}", name);
    }
}

#[test]
fn dev_build_search_enters_all_but_some_directories() {
    for name in ["src", "apps", "target", "release", "anything", ""] {
        assert!(descends_for_dev_builds(name, 0), "{}", name);
        assert!(descends_for_dev_builds(name, 11), "{}", name);
        assert!(!descends_for_dev_builds(name, 12), "{}", name);
    }
    for name in ["node_modules", ".git", "deps", "build", "incremental", ".fingerprint", "bundle", "debug", ".cargo"] {
        assert!(!descends_for_dev_builds(name, 0), "{}", name);
    }
}

#[test]
fn installers_are_known_by_their_names() {
    assert!(is_installer("Birch Host_0.1.0_x64-setup"));
    assert!(is_installer("BirchVault-Installer"));
    assert!(is_installer("SETUP"));
    assert!(!is_installer("Birch Launcher_0.1.0_x64-setup"));
    assert!(!is_installer("birch-host"));
}

#[test]
fn dev_builds_lie_directly_in_a_release_folder() {
    assert!(counts_as_dev_build("birch-host", "C:\\p\\src-tauri\\target\\release\\birch-host.exe", 1_000_000));
    assert!(counts_as_dev_build("birch-host", "/p/Target/Release/birch-host.exe", 5_000_000));
    assert!(!counts_as_dev_build("birch-host", "C:\\p\\target\\release\\birch-host.exe", 999_999));
    assert!(!counts_as_dev_build("birch-host", "C:\\p\\target\\release\\deps\\birch-host.exe", 5_000_000));
    assert!(!counts_as_dev_build("birch-host", "/p/target/release/x/birch-host.exe", 5_000_000));
    assert!(!counts_as_dev_build("birch-host", "C:\\p\\target\\debug\\birch-host.exe", 5_000_000));
    assert!(!counts_as_dev_build("birch-host-setup", "C:\\p\\target\\release\\birch-host-setup.exe", 5_000_000));
    assert!(!counts_as_dev_build("installer", "C:\\p\\target\\release\\installer.exe", 5_000_000));
    assert!(!counts_as_dev_build("Birch Launcher", "C:\\p\\target\\release\\Birch Launcher.exe", 5_000_000));
    // the backslash form is looked for first
    assert!(!counts_as_dev_build("a", "x/target/release/a.exe and target\\release\\b\\a.exe", 5_000_000));
}

#[test]
fn installed_apps_live_in_birch_folders() {
    assert!(counts_as_installed("Birch Host", "birch-host", 1_000_000));
    assert!(counts_as_installed("my BIRCH stuff", "tool", 9_000_000));
    assert!(!counts_as_installed("Other", "birch-host", 9_000_000));
    assert!(!counts_as_installed("Birch", "BirchLauncher", 9_000_000));
    assert!(!counts_as_installed("Birch", "birch-host", 999_999));
}

#[test]
fn describing_a_program() {
    let a = describe("birch-host", "C:\\x.exe", 7, AppStatus::DevBuild, None);
    assert_eq!(a.name, "birch-host");
    assert_eq!(a.display_name, "Birch Host");
    assert_eq!(a.icon_color, "#6366f1");
    assert_eq!(a.path, "C:\\x.exe");
    assert_eq!(a.size, 7);
    assert_eq!(a.status, AppStatus::DevBuild);
    assert_eq!(a.installer_path, None);
    assert!(!a.update_available);
    let i = describe_installed("Birch Dev", "C:\\d.exe", 9, "h".to_string());
    assert_eq!(i.app_id, "birch-dev");
    assert_eq!(i.hash, "h");
    assert_eq!(i.app.status, AppStatus::Installed);
    assert_eq!(i.app.display_name, "Birch Dev");
}

#[test]
fn scan_merges_installed_installers_and_builds() {
    let installed = vec![
        describe_installed("birch-host", "C:\\Program Files\\Birch Host\\birch-host.exe", 3_000_000, "h1".to_string()),
        describe_installed("birch-dev", "C:\\Program Files\\Birch Dev\\birch-dev.exe", 3_000_000, "same".to_string()),
        describe_installed("zeta-tool", "C:\\Program Files\\Birch\\zeta-tool.exe", 3_000_000, "".to_string()),
    ];
    let installers = vec![
        installer("birch-host", "C:\\p\\bundle\\nsis\\Birch Host_0.2.0_x64-setup.exe"),
        installer("birchvault-desktop", "C:\\p\\bundle\\nsis\\BirchVault_0.1.0_x64-setup.exe"),
        installer("alpha-app", "C:\\p\\bundle\\nsis\\alpha-app-setup.exe"),
        installer("alpha-app", "C:\\p\\other\\alpha-app-setup.exe"),
    ];
    let builds = vec![
        dev("birch-host", "birch-host", "C:\\p\\target\\release\\birch-host.exe", "h2"),
        dev("birch-dev", "birch-dev", "C:\\p\\target\\release\\birch-dev.exe", "same"),
        dev("zeta-tool", "zeta-tool", "C:\\p\\target\\release\\zeta-tool.exe", "z"),
        dev("birchvault-desktop", "birchvault-desktop", "C:\\p\\target\\release\\birchvault-desktop.exe", "v"),
        dev("my-new-tool", "my-new-tool", "C:\\p\\target\\release\\my-new-tool.exe", "n"),
    ];
    let apps = scan_folder(&installed, &installers, &builds);
    let got: Vec<(&str, AppStatus, bool, Option<&str>, &str)> = apps
        .iter()
        .map(|a| (a.display_name.as_str(), a.status, a.update_available, a.installer_path.as_deref(), a.path.as_str()))
        .collect();
    assert_eq!(
        got,
        vec![
            ("Alpha App", AppStatus::InstallerAvailable, false, Some("C:\\p\\bundle\\nsis\\alpha-app-setup.exe"), ""),
            ("Birch Dev", AppStatus::Installed, false, None, "C:\\Program Files\\Birch Dev\\birch-dev.exe"),
            ("Birch Host", AppStatus::Installed, true, Some("C:\\p\\bundle\\nsis\\Birch Host_0.2.0_x64-setup.exe"), "C:\\Program Files\\Birch Host\\birch-host.exe"),
            ("BirchVault", AppStatus::InstallerAvailable, false, Some("C:\\p\\bundle\\nsis\\BirchVault_0.1.0_x64-setup.exe"), "C:\\p\\target\\release\\birchvault-desktop.exe"),
            ("My New Tool", AppStatus::DevBuild, false, None, "C:\\p\\target\\release\\my-new-tool.exe"),
            ("Zeta Tool", AppStatus::Installed, false, None, "C:\\Program Files\\Birch\\zeta-tool.exe"),
        ]
    );
    assert_eq!(apps[0].name, "alpha-app");
    assert_eq!(apps[0].size, 0);
    assert_eq!(apps[3].size, 2_000_000);
}

#[test]
fn an_update_without_installer_is_still_noted() {
    let installed = vec![describe_installed("birch-host", "C:\\i.exe", 3_000_000, "h1".to_string())];
    let builds = vec![dev("birch-host", "birch-host", "C:\\d.exe", "h2")];
    let apps = scan_folder(&installed, &vec![], &builds);
    assert_eq!(apps.len(), 1);
    assert!(apps[0].update_available);
    assert_eq!(apps[0].installer_path, None);
    let builds = vec![dev("birch-host", "birch-host", "C:\\d.exe", "")];
    assert!(!scan_folder(&installed, &vec![], &builds)[0].update_available);
    assert!(scan_folder(&vec![], &vec![], &vec![]).is_empty());
}

#[test]
fn names_are_ordered_without_regard_to_case() {
    let builds = vec![
        dev("b", "beta", "p", ""),
        dev("a", "Alpha", "p", ""),
        dev("c", "alpha-2", "p", ""),
        dev("d", "Gamma", "p", ""),
    ];
    let names: Vec<String> = scan_folder(&vec![], &vec![], &builds).into_iter().map(|a| a.display_name).collect();
    assert_eq!(names, vec!["Alpha", "Alpha 2", "Beta", "Gamma"]);
}

#[test]
fn red_and_blue_change_places_in_full_pixels() {
    let mut p = vec![1, 2, 3, 4, 5, 6, 7, 8, 9, 10];
    swap_red_and_blue(&mut p);
    assert_eq!(p, vec![3, 2, 1, 4, 7, 6, 5, 8, 9, 10]);
    let mut empty: Vec<u8> = vec![];
    swap_red_and_blue(&mut empty);
    assert!(empty.is_empty());
    let mut short = vec![1, 2, 3];
    swap_red_and_blue(&mut short);
    assert_eq!(short, vec![1, 2, 3]);
}

#[test]
fn an_icon_becomes_a_png_in_a_data_address() {
    let mut pixels = vec![0u8; 48 * 48 * 4];
    // the first pixel is pure blue, opaque
    pixels[0] = 255;
    pixels[3] = 255;
    let url = icon_data_url(pixels).unwrap();
    let encoded = url.strip_prefix("data:image/png;base64,").unwrap();
    let png = base64::engine::general_purpose::STANDARD.decode(encoded).unwrap();
    assert_eq!(&png[..8], &[0x89, b'P', b'N', b'G', 0x0d, 0x0a, 0x1a, 0x0a]);
    let picture = image::load_from_memory(&png).unwrap().to_rgba8();
    assert_eq!((picture.width(), picture.height()), (48, 48));
    assert_eq!(picture.get_pixel(0, 0).0, [0, 0, 255, 255]);
    assert_eq!(picture.get_pixel(1, 0).0, [0, 0, 0, 0]);
    assert_eq!(icon_data_url(vec![0u8; 10]).unwrap_err(), "Failed to create image");
}
