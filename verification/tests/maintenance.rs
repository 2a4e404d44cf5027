use steam_box::maintenance::{
    get_default_repair_files, network_error_message, parse_error_message, repair_download_url,
    repair_file_list, repair_report, session_info, status_info, steam_not_found_message,
    wipe_precheck, wipe_response, RepairFile, SteamSummary,
};
use steam_box::session::SessionData;
use steam_box::steam::SteamError;
use steam_box::text::push_decimal;

#[test]
fn default_repair_files() {
    let files = get_default_repair_files();
    assert_eq!(files.len(), 2);
    assert_eq!(files[0].name, "steam_api.dll");
    assert_eq!(files[1].name, "steam_api64.dll");
    assert!(files.iter().all(|f| f.url.is_none()));
}

#[test]
fn repair_file_sources() {
    assert_eq!(repair_file_list(None).len(), 2);
    assert_eq!(repair_file_list(Some(None)).len(), 0);
    let listed = vec![RepairFile { name: "x.dll".to_string(), url: Some("https://h/x".to_string()) }];
    let files = repair_file_list(Some(Some(listed)));
    assert_eq!(files.len(), 1);
    assert_eq!(repair_download_url("https://api", &files[0]), "https://h/x");
    let plain = RepairFile { name: "y.dll".to_string(), url: None };
    assert_eq!(repair_download_url("https://api", &plain), "https://api/dl/y.dll");
}

#[test]
fn repair_reports() {
    let r = repair_report(&vec![true, false, true]);
    assert!(r.success);
    assert_eq!(r.files_written, 2);
    assert_eq!(r.message, "Repaired 2 files");
    let none = repair_report(&vec![false, false]);
    assert!(!none.success);
    assert_eq!(none.message, "Repaired 0 files");
}

#[test]
fn decimal_numerals() {
    let mut s = String::from("n=");
    push_decimal(&mut s, 1234);
    assert_eq!(s, "n=1234");
    let mut z = String::new();
    push_decimal(&mut z, 0);
    assert_eq!(z, "0");
    let mut m = String::new();
    push_decimal(&mut m, usize::MAX);
    assert_eq!(m, usize::MAX.to_string());
}

#[test]
fn wipe_answers() {
    assert_eq!(wipe_precheck(" ").unwrap().message, "AppID cannot be empty");
    assert!(wipe_precheck("1").is_none());
    let w = wipe_response("730", &Ok(true));
    assert!(w.success);
    assert_eq!(w.message, "Game 730 wiped successfully");
    let w = wipe_response("730", &Ok(false));
    assert!(!w.success);
    assert_eq!(w.message, "Game 730 not found in local files");
    let w = wipe_response("730", &Err(SteamError::Io("denied".to_string())));
    assert!(!w.success);
    assert_eq!(w.message, "Wipe failed: IO error: denied");
}

#[test]
fn error_messages() {
    assert_eq!(steam_not_found_message(&SteamError::NotFound), "Steam not found: Steam installation not found");
    assert_eq!(network_error_message("refused"), "Network error: refused");
    assert_eq!(parse_error_message("eof"), "Parse error: eof");
}

fn session(expiry: &str) -> Option<SessionData> {
    Some(SessionData {
        cdk: "CDK".to_string(),
        expiry: expiry.to_string(),
        activated_at: "2025-01-01T00:00:00+00:00".to_string(),
    })
}

#[test]
fn session_answers() {
    let none = session_info(&None, 0);
    assert!(!none.active && none.expiry.is_none() && none.cdk.is_none());
    let s = session_info(&session("2026-12-31"), 1_798_761_598);
    assert!(s.active);
    assert_eq!(s.expiry, Some("2026-12-31".to_string()));
    assert_eq!(s.cdk, Some("CDK".to_string()));
    assert!(!session_info(&session("2026-12-31"), 1_798_761_599).active);
    assert!(session_info(&session("someday"), 1_798_761_599).active);
}

#[test]
fn status_answers() {
    let st = status_info(
        &session("2026-12-31"),
        0,
        &Some(SteamSummary { path: "/s".to_string(), game_count: Some(4) }),
        Some(12),
    );
    assert!(st.activated);
    assert_eq!(st.expiry, Some("2026-12-31".to_string()));
    assert_eq!(st.game_count, 4);
    assert_eq!(st.steam_path, Some("/s".to_string()));
    assert_eq!(st.depot_keys, 12);
    let bare = status_info(&None, 0, &Some(SteamSummary { path: "/s".to_string(), game_count: None }), None);
    assert!(!bare.activated);
    assert_eq!(bare.game_count, 0);
    assert_eq!(bare.depot_keys, 0);
    let nothing = status_info(&None, 0, &None, None);
    assert_eq!(nothing.steam_path, None);
}
