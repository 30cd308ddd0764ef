use birchvault::launcher::{
    dialog_kind, get_app_id, get_display_name, get_icon_color, is_birch_launcher, machine_id,
    msi_path, show_input_dialog, DialogKind,
};
use birchvault::remote::{build_github_runs_request, github_error, HttpMethod};
use birchvault::system_info::{affinity_mask, max_cores, recommended_cores, ProcessPriority};
use birchvault::text::{contains, ends_with, find_from, matches_at, replace_char, starts_with};

#[test]
fn known_apps_are_shown_under_their_names() {
    assert_eq!(get_display_name("birch-dev"), "Birch Dev");
    assert_eq!(get_display_name("Birch-Host_1.2.0"), "Birch Host");
    assert_eq!(get_display_name("birchvault-desktop"), "BirchVault");
    assert_eq!(get_display_name("my-birchvault-beta"), "BirchVault");
    assert_eq!(get_display_name("BIRCH-LAUNCHER"), "Birch Launcher");
}

#[test]
fn other_names_become_titles() {
    assert_eq!(get_display_name("my-cool-app"), "My Cool App");
    assert_eq!(get_display_name("app"), "App");
    assert_eq!(get_display_name(""), "");
    assert_eq!(get_display_name("a--b"), "A  B");
    assert_eq!(get_display_name("-x"), " X");
    assert_eq!(get_display_name("x-"), "X ");
    assert_eq!(get_display_name("ALREADY-Upper"), "ALREADY Upper");
    assert_eq!(get_display_name("écran-ßeta"), "Écran SSeta");
    assert_eq!(get_display_name("birch dev"), "Birch dev");
}

#[test]
fn icon_colors_follow_the_known_apps() {
    assert_eq!(get_icon_color("birch-dev"), "#10b981");
    assert_eq!(get_icon_color("Birch-Host"), "#6366f1");
    assert_eq!(get_icon_color("birchvault-desktop-x64"), "#8b5cf6");
    assert_eq!(get_icon_color("birch-launcher"), "#f59e0b");
    assert_eq!(get_icon_color("birchvault"), "#8b5cf6");
    assert_eq!(get_icon_color("something else"), "#f59e0b");
}

#[test]
fn the_launcher_knows_itself() {
    assert!(is_birch_launcher("Birch Launcher"));
    assert!(is_birch_launcher("birch-launcher"));
    assert!(is_birch_launcher("BirchLauncher"));
    assert!(!is_birch_launcher("birch_launcher"));
    assert!(!is_birch_launcher("birch-launcher-setup"));
    assert!(!is_birch_launcher(""));
}

#[test]
fn app_ids_are_normalized_or_known() {
    assert_eq!(get_app_id("Birch Dev"), "birch-dev");
    assert_eq!(get_app_id("birch_host_0.1.0_x64-setup"), "birch-host");
    assert_eq!(get_app_id("BirchVault Desktop"), "birchvault-desktop");
    assert_eq!(get_app_id("birchvault"), "birchvault");
    assert_eq!(get_app_id("Birch Launcher"), "birch-launcher");
    assert_eq!(get_app_id("My Other_App"), "my-other-app");
    assert_eq!(get_app_id(""), "");
}

#[test]
fn core_recommendations() {
    let cases = [(0, 1, 1), (1, 1, 1), (2, 1, 1), (3, 1, 2), (4, 2, 3), (8, 4, 6), (15, 7, 11), (16, 8, 12), (64, 32, 48)];
    for (cores, rec, max) in cases {
        assert_eq!(recommended_cores(cores), rec, "{}", cores);
        assert_eq!(max_cores(cores), max, "{}", cores);
    }
    assert_eq!(max_cores(usize::MAX), usize::MAX / 4 * 3 + 2);
    assert_eq!(ProcessPriority::default(), ProcessPriority::Normal);
}

#[test]
fn affinity_masks() {
    assert_eq!(affinity_mask(0), Some(0));
    assert_eq!(affinity_mask(1), Some(1));
    assert_eq!(affinity_mask(4), Some(15));
    assert_eq!(affinity_mask(usize::BITS as usize - 1), Some(usize::MAX >> 1));
    assert_eq!(affinity_mask(usize::BITS as usize), None);
    assert_eq!(affinity_mask(1000), None);
}

#[test]
fn text_search_is_bytewise() {
    assert!(contains("hello world", "lo w"));
    assert!(contains("hello", ""));
    assert!(contains("", ""));
    assert!(!contains("", "a"));
    assert!(!contains("hello", "hellos"));
    assert!(contains("naïve café", "ïve"));
    assert!(starts_with("Worker_2025", "Worker_"));
    assert!(!starts_with("worker_2025", "Worker_"));
    assert!(starts_with("x", ""));
    assert!(ends_with("a.log", ".log"));
    assert!(!ends_with("a.log", "a.lo"));
    assert!(!ends_with("g", ".log"));
    assert!(matches_at(b"abcabc", b"abc", 3));
    assert!(!matches_at(b"abcabc", b"abc", 4));
    assert!(matches_at(b"abc", b"", 3));
    assert!(!matches_at(b"abc", b"", 4));
    assert_eq!(find_from(b"abcabc", b"bc", 0), Some(1));
    assert_eq!(find_from(b"abcabc", b"bc", 2), Some(4));
    assert_eq!(find_from(b"abcabc", b"bc", 5), None);
    assert_eq!(find_from(b"abc", b"", 3), Some(3));
    assert_eq!(find_from(b"abc", b"", 4), None);
    assert_eq!(find_from(b"ab", b"abc", 0), None);
}

#[test]
fn replacing_a_character() {
    assert_eq!(replace_char("a b c", ' ', '-', "-"), "a-b-c");
    assert_eq!(replace_char("", ' ', '-', "-"), "");
    assert_eq!(replace_char("é_é", '_', ' ', " "), "é é");
    assert_eq!(replace_char("none", 'x', 'y', "y"), "none");
}

#[test]
fn dialogs() {
    assert_eq!(dialog_kind(&Some("error".to_string())), DialogKind::Error);
    assert_eq!(dialog_kind(&Some("warning".to_string())), DialogKind::Warning);
    assert_eq!(dialog_kind(&Some("Error".to_string())), DialogKind::Info);
    assert_eq!(dialog_kind(&None), DialogKind::Info);
    assert_eq!(show_input_dialog("t", "m", &None, Some(true)), Err("INPUT_REQUIRED".to_string()));
}

#[test]
fn machine_ids_and_msi_paths() {
    assert_eq!(machine_id("host", "1234"), "host_1234");
    assert_eq!(machine_id("", ""), "_");
    assert_eq!(msi_path("C:\\b\\Birch Host_0.1.0_x64-setup.exe"), "C:\\b\\Birch Host_0.1.0_x64_en-US.msi");
    assert_eq!(msi_path("C:\\b\\tool-setup.exe"), "C:\\b\\tool_en-US.msi");
    assert_eq!(msi_path("C:\\b\\tool.exe"), "C:\\b\\tool.exe");
}

#[test]
fn github_runs_request() {
    let r = build_github_runs_request("octo", "repo", &Some("tok".to_string()));
    assert_eq!(r.method, HttpMethod::Get);
    assert_eq!(r.url, "https://api.github.com/repos/octo/repo/actions/runs?per_page=10");
    let h: Vec<(String, String)> = r.headers.iter().map(|h| (h.name.clone(), h.value.clone())).collect();
    assert_eq!(
        h,
        vec![
            ("User-Agent".to_string(), "Runner-Manager".to_string()),
            ("Accept".to_string(), "application/vnd.github+json".to_string()),
            ("Authorization".to_string(), "Bearer tok".to_string()),
        ]
    );
    assert_eq!(build_github_runs_request("o", "r", &None).headers.len(), 2);
    assert_eq!(github_error("403 Forbidden"), "GitHub API error: 403 Forbidden");
}
