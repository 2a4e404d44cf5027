//! Decisions of the repair, wipe, session and status commands.

use crate::session::{session_is_active, spec_session_active, SessionData};
use crate::steam::SteamError;
use crate::text::{concat, concat3, decimal, is_blank, opt_view, push_decimal, trim_chars};
use vstd::prelude::*;

verus! {

/// Result of removing the Lua file of a game.
#[derive(Debug, PartialEq)]
pub struct WipeResponse {
    pub success: bool,
    pub message: String,
}

/// Result of a repair.
#[derive(Debug, PartialEq)]
pub struct RepairResponse {
    pub success: bool,
    pub message: String,
    pub files_written: usize,
}

/// Whether a valid session exists, with its expiry and CDK.
#[derive(Debug, PartialEq)]
pub struct SessionInfo {
    pub active: bool,
    pub expiry: Option<String>,
    pub cdk: Option<String>,
}

/// Composite status shown by the user interface.
#[derive(Debug, PartialEq)]
pub struct StatusInfo {
    pub activated: bool,
    pub expiry: Option<String>,
    pub game_count: usize,
    pub steam_path: Option<String>,
    pub depot_keys: usize,
}

/// A file that a repair downloads into the Steam directory, from `url` when
/// the manifest gives one.
#[derive(Debug, PartialEq)]
pub struct RepairFile {
    pub name: String,
    pub url: Option<String>,
}

/// "Steam not found: {error}".
pub fn steam_not_found_message(e: &SteamError) -> (m: String)
    ensures
        m@ == "Steam not found: "@ + e.spec_message(),
{
    let detail = e.message();
    concat("Steam not found: ", detail.as_str())
}

/// "Network error: {detail}".
pub fn network_error_message(detail: &str) -> (m: String)
    ensures
        m@ == "Network error: "@ + detail@,
{
    concat("Network error: ", detail)
}

/// "Parse error: {detail}".
pub fn parse_error_message(detail: &str) -> (m: String)
    ensures
        m@ == "Parse error: "@ + detail@,
{
    concat("Parse error: ", detail)
}

// ─── Repair ────────────────────────────────────────────────────────────

/// The view of a repair file: its name and its URL.
pub open spec fn repair_view(f: RepairFile) -> (Seq<char>, Option<Seq<char>>) {
    (f.name@, opt_view(f.url))
}

/// The views of a list of repair files.
pub open spec fn repair_views(files: Seq<RepairFile>) -> Seq<(Seq<char>, Option<Seq<char>>)> {
    files.map_values(|f: RepairFile| repair_view(f))
}

/// The files repaired when the service gives no usable manifest:
/// `steam_api.dll` and `steam_api64.dll`, from the service.
pub open spec fn spec_default_repair_files() -> Seq<(Seq<char>, Option<Seq<char>>)> {
    seq![("steam_api.dll"@, None), ("steam_api64.dll"@, None)]
}

/// The files repaired when the service gives no usable manifest.
pub fn get_default_repair_files() -> (files: Vec<RepairFile>)
    ensures
        repair_views(files@) == spec_default_repair_files(),
{
    let mut files: Vec<RepairFile> = Vec::new();
    files.push(RepairFile { name: String::from_str("steam_api.dll"), url: None });
    files.push(RepairFile { name: String::from_str("steam_api64.dll"), url: None });
    proof {
        assert(repair_views(files@) =~= spec_default_repair_files());
    }
    files
}

/// The files to repair: those of the manifest (none when it lists no files),
/// or the default ones when the manifest could not be fetched or read.
pub fn repair_file_list(manifest: Option<Option<Vec<RepairFile>>>) -> (files: Vec<RepairFile>)
    ensures
        manifest is None ==> repair_views(files@) == spec_default_repair_files(),
        manifest matches Some(listed) ==> (match listed {
            Some(v) => files@ == v@,
            None => files@.len() == 0,
        }),
{
    match manifest {
        Some(listed) => match listed {
            Some(v) => v,
            None => Vec::new(),
        },
        None => get_default_repair_files(),
    }
}

/// Where a repair file is downloaded from: its URL, else `{api_base}/dl/{name}`.
pub fn repair_download_url(api_base: &str, file: &RepairFile) -> (url: String)
    ensures
        file.url is Some ==> url@ == file.url->0@,
        file.url is None ==> url@ == api_base@ + "/dl/"@ + file.name@,
{
    match &file.url {
        Some(u) => u.clone(),
        None => concat3(api_base, "/dl/", file.name.as_str()),
    }
}

/// How many entries of a list are true.
pub open spec fn count_true(s: Seq<bool>) -> nat
    decreases s.len(),
{
    if s.len() == 0 {
        0
    } else {
        count_true(s.drop_last()) + if s.last() {
            1nat
        } else {
            0nat
        }
    }
}

/// Report on a repair from whether each file was written: it succeeds when at
/// least one file was written.
pub fn repair_report(written: &Vec<bool>) -> (resp: RepairResponse)
    ensures
        resp.files_written == count_true(written@),
        resp.success <==> resp.files_written > 0,
        resp.message@ == "Repaired "@ + decimal(resp.files_written as nat) + " files"@,
{
    let n = written.len();
    let mut count: usize = 0;
    let mut i: usize = 0;
    while i < n
        invariant
            n == written@.len(),
            i <= n,
            count == count_true(written@.take(i as int)),
            count <= i,
        decreases n - i,
    {
        proof {
            assert(written@.take(i as int + 1).drop_last() =~= written@.take(i as int));
        }
        if written[i] {
            count = count + 1;
        }
        i = i + 1;
    }
    proof {
        assert(written@.take(n as int) =~= written@);
    }
    let mut message = String::from_str("Repaired ");
    push_decimal(&mut message, count);
    message.append(" files");
    RepairResponse { success: count > 0, message, files_written: count }
}

// ─── Wipe ──────────────────────────────────────────────────────────────

/// Refuse a blank AppID before touching any file.
pub fn wipe_precheck(appid: &str) -> (r: Option<WipeResponse>)
    ensures
        r is Some <==> trim_chars(appid@).len() == 0,
        r matches Some(resp) ==> !resp.success && resp.message@ == "AppID cannot be empty"@,
{
    if is_blank(appid) {
        Some(WipeResponse { success: false, message: String::from_str("AppID cannot be empty") })
    } else {
        None
    }
}

/// The answer to a wipe from the outcome of removing the Lua file: removed,
/// absent, or failed.
pub fn wipe_response(appid: &str, removed: &Result<bool, SteamError>) -> (resp: WipeResponse)
    ensures
        removed matches Ok(true) ==> resp.success && resp.message@ == "Game "@ + appid@
            + " wiped successfully"@,
        removed matches Ok(false) ==> !resp.success && resp.message@ == "Game "@ + appid@
            + " not found in local files"@,
        removed matches Err(e) ==> !resp.success && resp.message@ == "Wipe failed: "@
            + e.spec_message(),
{
    match removed {
        Ok(true) => WipeResponse {
            success: true,
            message: concat3("Game ", appid, " wiped successfully"),
        },
        Ok(false) => WipeResponse {
            success: false,
            message: concat3("Game ", appid, " not found in local files"),
        },
        Err(e) => {
            let detail = e.message();
            WipeResponse { success: false, message: concat("Wipe failed: ", detail.as_str()) }
        },
    }
}

// ─── Session and status ────────────────────────────────────────────────

/// What the user interface shows of the saved session at Unix time `now`:
/// nothing when there is none (or it could not be opened).
pub fn session_info(session: &Option<SessionData>, now: i64) -> (info: SessionInfo)
    ensures
        session is None ==> !info.active && info.expiry is None && info.cdk is None,
        session matches Some(s) ==> info.active == spec_session_active(s.expiry@, now as int)
            && opt_view(info.expiry) == Some(s.expiry@) && opt_view(info.cdk) == Some(s.cdk@),
{
    match session {
        Some(s) => SessionInfo {
            active: session_is_active(s.expiry.as_str(), now),
            expiry: Some(s.expiry.clone()),
            cdk: Some(s.cdk.clone()),
        },
        None => SessionInfo { active: false, expiry: None, cdk: None },
    }
}

/// What was found of the Steam installation: its path, and the number of Lua
/// game files when the plugin directory could be listed.
pub struct SteamSummary {
    pub path: String,
    pub game_count: Option<usize>,
}

/// The composite status: the saved session at Unix time `now`, the Steam
/// installation if found, and the number of depot keys the service reported.
pub fn status_info(
    session: &Option<SessionData>,
    now: i64,
    steam: &Option<SteamSummary>,
    depot_keys: Option<usize>,
) -> (info: StatusInfo)
    ensures
        session is None ==> !info.activated && info.expiry is None,
        session matches Some(s) ==> info.activated == spec_session_active(s.expiry@, now as int)
            && opt_view(info.expiry) == Some(s.expiry@),
        steam is None ==> info.game_count == 0 && info.steam_path is None,
        steam matches Some(st) ==> info.game_count == (match st.game_count {
            Some(c) => c,
            None => 0,
        }) && opt_view(info.steam_path) == Some(st.path@),
        info.depot_keys == (match depot_keys {
            Some(k) => k,
            None => 0,
        }),
{
    let (activated, expiry) = match session {
        Some(s) => (session_is_active(s.expiry.as_str(), now), Some(s.expiry.clone())),
        None => (false, None),
    };
    let (game_count, steam_path) = match steam {
        Some(st) => (st.game_count.unwrap_or(0), Some(st.path.clone())),
        None => (0, None),
    };
    StatusInfo { activated, expiry, game_count, steam_path, depot_keys: depot_keys.unwrap_or(0) }
}

} // verus!
