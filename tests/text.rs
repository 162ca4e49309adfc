use realm_downloader::job::{job_folder, FetchStep, JobSpec, GAME_APP_ID};
use realm_downloader::log::LogLine;
use realm_downloader::text::{decimal, is_blank, is_white_space, remove_spaces, signed_decimal};

#[test]
fn decimal_writes_digits() {
    assert_eq!(decimal(0), "0");
    assert_eq!(decimal(7), "7");
    assert_eq!(decimal(359550), "359550");
    assert_eq!(decimal(u64::MAX), "18446744073709551615");
}

#[test]
fn signed_decimal_writes_sign() {
    assert_eq!(signed_decimal(-1), "-1");
    assert_eq!(signed_decimal(0), "0");
    assert_eq!(signed_decimal(i64::MIN), "-9223372036854775808");
}

#[test]
fn spaces_are_removed() {
    assert_eq!(remove_spaces("Collision Point"), "CollisionPoint");
    assert_eq!(remove_spaces(" a b  c "), "abc");
    assert_eq!(remove_spaces(""), "");
}

#[test]
fn job_folder_joins_year_and_name() {
    assert_eq!(job_folder("Y9S4", "Collision Point"), "Y9S4_CollisionPoint");
    assert_eq!(job_folder("Y5S4", "Neon Dawn (HM)"), "Y5S4_NeonDawn(HM)");
}

#[test]
fn blank_names() {
    assert!(is_blank(""));
    assert!(is_blank(" \t\n\u{3000}"));
    assert!(!is_blank(" x "));
    assert!(is_white_space('\u{a0}'));
    assert!(!is_white_space('a'));
}

fn spec(password: &str) -> JobSpec {
    JobSpec {
        name: "Grim Sky".to_string(),
        source: "Grim Sky".to_string(),
        year: "Y3S3".to_string(),
        app_id: GAME_APP_ID,
        steps: vec![FetchStep { depot: 377237, manifest: "5562094852451837435".to_string() }],
        crack_folder: "Y1SX-Y6S2".to_string(),
        username: "player".to_string(),
        password: password.to_string(),
        max_downloads: 25,
        textures: false,
    }
}

#[test]
fn fetch_args_without_password() {
    let args = spec("").fetch_args(0, "Resources/DepotDownloader.dll", "Downloads/Y3S3_GrimSky");
    assert_eq!(
        args,
        vec![
            "Resources/DepotDownloader.dll", "-app", "359550", "-depot", "377237", "-manifest",
            "5562094852451837435", "-username", "player", "-remember-password", "-dir",
            "Downloads/Y3S3_GrimSky", "-validate", "-max-downloads", "25",
        ]
    );
}

#[test]
fn fetch_args_with_password() {
    let args = spec("pw").fetch_args(0, "tool", "dir");
    assert_eq!(args.len(), 17);
    assert_eq!(args[15], "-password");
    assert_eq!(args[16], "pw");
}

#[test]
fn line_texts() {
    let l = LogLine::Downloading { depot: 377238, manifest: "42".to_string() };
    assert_eq!(l.text(), "Downloading depot 377238 with manifest 42...");
    assert_eq!(LogLine::DepotDone { depot: 5 }.text(), "Successfully downloaded depot 5");
    assert_eq!(LogLine::Hint { textures: true }.text(), "4K textures are now available in your game directory");
    assert_eq!(LogLine::Hint { textures: false }.text(), "You can now launch the game using RainbowSix.bat");
    assert_eq!(LogLine::Tool { text: "raw".to_string() }.text(), "raw");
    assert_eq!(l.duplicate(), l);
}
