//! Redeeming codes at the Steam Box service: reading its answer, decoding the
//! Lua payload it carries, and the decisions of activation and unlocking.

use crate::text::{
    clone_opt, concat, concat3, is_blank, opt_view, trim_chars, utf8_error_text, utf8_to_string, views,
};
use base64::Engine;
use vstd::prelude::*;
use vstd::utf8::{decode_utf8, valid_utf8};

verus! {

/// The answer of the service to a redeem request. Every field may be absent.
#[derive(Debug)]
pub struct ApiRedeemResponse {
    pub success: Option<bool>,
    pub ok: Option<bool>,
    pub lua: Option<String>,
    pub lua_b64: Option<String>,
    pub expiry: Option<String>,
    pub name: Option<String>,
    pub appid: Option<String>,
    pub message: Option<String>,
    pub error: Option<String>,
}

/// The body of a redeem request.
#[derive(Debug, PartialEq)]
pub struct RedeemRequest {
    pub cdk: String,
    pub machine: String,
}

/// Result of activating a CDK.
#[derive(Debug, PartialEq)]
pub struct ActivateResponse {
    pub success: bool,
    pub message: String,
    pub expiry: Option<String>,
}

/// Result of unlocking one game.
#[derive(Debug, PartialEq)]
pub struct SingleUnlockResponse {
    pub success: bool,
    pub name: Option<String>,
    pub message: String,
}

/// Progress report of unlocking every game.
#[derive(Debug, PartialEq)]
pub struct UnlockProgress {
    pub total: usize,
    pub written: usize,
    pub skipped: usize,
    pub errors: Vec<String>,
}

/// The service accepted the code: `success` or `ok` is set and true.
pub open spec fn spec_redeem_succeeded(api: ApiRedeemResponse) -> bool {
    api.success == Some(true) || api.ok == Some(true)
}

/// Acceptance depends only on the `success` and `ok` flags: a code is accepted
/// exactly when one of them is set and true, and two answers with the same
/// flags are accepted alike, whatever their message, error, payload or other
/// fields.
pub proof fn lemma_acceptance_reads_only_flags(a: ApiRedeemResponse, b: ApiRedeemResponse)
    ensures
        spec_redeem_succeeded(a) == (a.success == Some(true) || a.ok == Some(true)),
        a.success == b.success && a.ok == b.ok ==> spec_redeem_succeeded(a)
            == spec_redeem_succeeded(b),
{
}

/// Whether the service accepted the code.
pub fn redeem_succeeded(api: &ApiRedeemResponse) -> (accepted: bool)
    ensures
        accepted == spec_redeem_succeeded(*api),
        accepted == (api.success == Some(true) || api.ok == Some(true)),
{
    api.success.unwrap_or(false) || api.ok.unwrap_or(false)
}

/// The Base64 text of the Lua payload: `lua_b64`, else `lua`.
pub open spec fn spec_payload_text(api: ApiRedeemResponse) -> Option<Seq<char>> {
    if api.lua_b64 is Some {
        opt_view(api.lua_b64)
    } else {
        opt_view(api.lua)
    }
}

/// The Base64 text of the Lua payload, if the answer carries one.
pub fn payload_text(api: &ApiRedeemResponse) -> (text: Option<String>)
    ensures
        opt_view(text) == spec_payload_text(*api),
        api.lua_b64 is Some ==> opt_view(text) == opt_view(api.lua_b64),
        api.lua_b64 is None ==> opt_view(text) == opt_view(api.lua),
{
    match &api.lua_b64 {
        Some(t) => Some(t.clone()),
        None => clone_opt(&api.lua),
    }
}

/// What the standard Base64 engine (alphabet `A–Z a–z 0–9 + /`, padded)
/// decodes from the UTF-8 bytes of `text`: the bytes, or the text of its error.
pub uninterp spec fn base64_standard_decode(text: Seq<char>) -> Result<Seq<u8>, Seq<char>>;

/// Calls `base64::engine::general_purpose::STANDARD.decode`; an error is
/// rendered with its `Display` text. Claimed: the outcome is the one named by
/// `base64_standard_decode`.
#[verifier::external_body]
pub(crate) fn base64_decode(text: &str) -> (r: Result<Vec<u8>, String>)
    ensures
        r matches Ok(bytes) ==> (base64_standard_decode(text@) matches Ok(b) && b == bytes@),
        r matches Err(m) ==> (base64_standard_decode(text@) matches Err(e) && e == m@),
{
    match base64::engine::general_purpose::STANDARD.decode(text) {
        Ok(bytes) => Ok(bytes),
        Err(e) => Err(e.to_string()),
    }
}

/// A decoded Lua payload, or why it could not be decoded.
#[derive(Debug, PartialEq)]
pub enum LuaPayload {
    Script(String),
    BadBase64(String),
    BadUtf8(String),
}

/// The Lua script encoded in Base64 `text`, or the error of the failing step.
pub open spec fn decodes_to_script(text: Seq<char>, p: LuaPayload) -> bool {
    match base64_standard_decode(text) {
        Err(e) => p matches LuaPayload::BadBase64(m) && m@ == e,
        Ok(bytes) => if valid_utf8(bytes) {
            p matches LuaPayload::Script(s) && s@ == decode_utf8(bytes)
        } else {
            p matches LuaPayload::BadUtf8(m) && m@ == utf8_error_text(bytes)
        },
    }
}

/// Decode a Base64 Lua payload into the script text.
pub fn decode_lua_payload(text: &str) -> (p: LuaPayload)
    ensures
        decodes_to_script(text@, p),
{
    match base64_decode(text) {
        Err(e) => LuaPayload::BadBase64(e),
        Ok(bytes) => match utf8_to_string(bytes) {
            Ok(s) => LuaPayload::Script(s),
            Err(e) => LuaPayload::BadUtf8(e),
        },
    }
}

/// The message of a refused code: `message`, else `error`, else `fallback`.
pub open spec fn spec_refusal_message(api: ApiRedeemResponse, fallback: Seq<char>) -> Seq<char> {
    if api.message is Some {
        api.message->0@
    } else if api.error is Some {
        api.error->0@
    } else {
        fallback
    }
}

fn refusal_message(api: &ApiRedeemResponse, fallback: &str) -> (m: String)
    ensures
        m@ == spec_refusal_message(*api, fallback@),
{
    match &api.message {
        Some(m) => m.clone(),
        None => match &api.error {
            Some(e) => e.clone(),
            None => String::from_str(fallback),
        },
    }
}

/// "Server returned status {status}".
pub fn server_status_message(status: &str) -> (m: String)
    ensures
        m@ == "Server returned status "@ + status@,
{
    concat("Server returned status ", status)
}

// ─── Activation ────────────────────────────────────────────────────────

/// Refuse a blank CDK before anything is sent.
pub fn activate_precheck(cdk: &str) -> (r: Option<ActivateResponse>)
    ensures
        r is Some <==> trim_chars(cdk@).len() == 0,
        r matches Some(resp) ==> !resp.success && resp.message@ == "CDK cannot be empty"@
            && resp.expiry is None,
{
    if is_blank(cdk) {
        Some(
            ActivateResponse {
                success: false,
                message: String::from_str("CDK cannot be empty"),
                expiry: None,
            },
        )
    } else {
        None
    }
}

/// The machine identifier sent with an activation: the cached one, else the
/// code that the user interface supplied.
pub fn activation_machine_id(cache: &Option<String>, machine_code: &str) -> (id: String)
    ensures
        cache is Some ==> id@ == cache->0@,
        cache is None ==> id@ == machine_code@,
{
    match cache {
        Some(id) => id.clone(),
        None => String::from_str(machine_code),
    }
}

/// The redeem request of an activation: the trimmed CDK and the machine identifier.
pub fn activation_request(cdk: &str, machine_id: &str) -> (req: RedeemRequest)
    ensures
        req.cdk@ == trim_chars(cdk@),
        req.machine@ == machine_id@,
{
    RedeemRequest { cdk: String::from_str(cdk.trim()), machine: String::from_str(machine_id) }
}

/// The answer to an activation that the server refused with an HTTP status.
pub fn activation_status_failure(status: &str) -> (resp: ActivateResponse)
    ensures
        !resp.success,
        resp.message@ == "Server returned status "@ + status@,
        resp.expiry is None,
{
    ActivateResponse { success: false, message: server_status_message(status), expiry: None }
}

/// What an activation leads to: the answer for the user, the Lua script to
/// install (under the CDK's name, when Steam is found) and the expiry of the
/// session to save.
#[derive(Debug, PartialEq)]
pub struct ActivationPlan {
    pub response: ActivateResponse,
    pub lua_script: Option<String>,
    pub session_expiry: Option<String>,
}

/// The expiry date saved with an activation: the service's, else `2026-12-31`.
pub open spec fn spec_activation_expiry(api: ApiRedeemResponse) -> Seq<char> {
    if api.expiry is Some {
        api.expiry->0@
    } else {
        "2026-12-31"@
    }
}

/// Decide what an answer of the service to an activation leads to. An
/// accepted code whose payload cannot be decoded is an error.
pub fn plan_activation(api: &ApiRedeemResponse) -> (r: Result<ActivationPlan, String>)
    ensures
        !spec_redeem_succeeded(*api) ==> (r matches Ok(plan) && !plan.response.success
            && plan.response.message@ == spec_refusal_message(*api, "Activation failed"@)
            && plan.response.expiry is None && plan.lua_script is None
            && plan.session_expiry is None),
        spec_redeem_succeeded(*api) && spec_payload_text(*api) is None ==> (r matches Ok(plan)
            && plan.lua_script is None),
        spec_redeem_succeeded(*api) && spec_payload_text(*api) is Some ==> (forall|p: LuaPayload|
            decodes_to_script(spec_payload_text(*api)->0, p) ==> (match p {
                LuaPayload::Script(s) => r is Ok && r->Ok_0.lua_script is Some
                    && r->Ok_0.lua_script->0@ == s@,
                LuaPayload::BadBase64(e) => r matches Err(m) && m@ == "Base64 decode error: "@
                    + e@,
                LuaPayload::BadUtf8(e) => r matches Err(m) && m@ == "UTF-8 error: "@ + e@,
            })),
        spec_redeem_succeeded(*api) && r is Ok ==> {
            &&& r->Ok_0.response.success
            &&& r->Ok_0.response.message@ == "Activation successful"@
            &&& opt_view(r->Ok_0.response.expiry) == Some(spec_activation_expiry(*api))
            &&& opt_view(r->Ok_0.session_expiry) == Some(spec_activation_expiry(*api))
        },
{
    if !redeem_succeeded(api) {
        return Ok(
            ActivationPlan {
                response: ActivateResponse {
                    success: false,
                    message: refusal_message(api, "Activation failed"),
                    expiry: None,
                },
                lua_script: None,
                session_expiry: None,
            },
        );
    }
    let lua_script = match payload_text(api) {
        None => None,
        Some(text) => match decode_lua_payload(text.as_str()) {
            LuaPayload::Script(s) => Some(s),
            LuaPayload::BadBase64(e) => {
                return Err(concat("Base64 decode error: ", e.as_str()));
            },
            LuaPayload::BadUtf8(e) => {
                return Err(concat("UTF-8 error: ", e.as_str()));
            },
        },
    };
    let expiry = match &api.expiry {
        Some(x) => x.clone(),
        None => String::from_str("2026-12-31"),
    };
    Ok(
        ActivationPlan {
            response: ActivateResponse {
                success: true,
                message: String::from_str("Activation successful"),
                expiry: Some(expiry.clone()),
            },
            lua_script,
            session_expiry: Some(expiry),
        },
    )
}

// ─── Unlocking ─────────────────────────────────────────────────────────

/// The code that unlocks one game: `UNIVERSAL-{appid}`.
pub fn universal_cdk(appid: &str) -> (cdk: String)
    ensures
        cdk@ == "UNIVERSAL-"@ + appid@,
{
    concat("UNIVERSAL-", appid)
}

/// The redeem request that unlocks one game, for any machine.
pub fn unlock_request(appid: &str) -> (req: RedeemRequest)
    ensures
        req.cdk@ == "UNIVERSAL-"@ + appid@,
        req.machine@ == "universal"@,
{
    RedeemRequest { cdk: universal_cdk(appid), machine: String::from_str("universal") }
}

/// The redeem request of a single unlock from the AppID as the user typed it:
/// the AppID is trimmed of white space first.
pub fn single_unlock_request(appid: &str) -> (req: RedeemRequest)
    ensures
        req.cdk@ == "UNIVERSAL-"@ + trim_chars(appid@),
        req.machine@ == "universal"@,
{
    unlock_request(appid.trim())
}

/// Refuse a blank AppID before anything is sent.
pub fn unlock_single_precheck(appid: &str) -> (r: Option<SingleUnlockResponse>)
    ensures
        r is Some <==> trim_chars(appid@).len() == 0,
        r matches Some(resp) ==> !resp.success && resp.name is None && resp.message@
            == "AppID cannot be empty"@,
{
    if is_blank(appid) {
        Some(
            SingleUnlockResponse {
                success: false,
                name: None,
                message: String::from_str("AppID cannot be empty"),
            },
        )
    } else {
        None
    }
}

/// The answer to an unlock that the server refused with an HTTP status.
pub fn unlock_status_failure(status: &str) -> (resp: SingleUnlockResponse)
    ensures
        !resp.success,
        resp.name is None,
        resp.message@ == "Server returned status "@ + status@,
{
    SingleUnlockResponse { success: false, name: None, message: server_status_message(status) }
}

/// What unlocking one game leads to: the Lua script to install and the answer
/// for the user once it is installed.
#[derive(Debug, PartialEq)]
pub struct SingleUnlockPlan {
    pub lua_script: Option<String>,
    pub response: SingleUnlockResponse,
}

/// Decide what an answer of the service to a single unlock leads to. An
/// accepted code whose payload cannot be decoded is an error.
pub fn plan_single_unlock(api: &ApiRedeemResponse) -> (r: Result<SingleUnlockPlan, String>)
    ensures
        !spec_redeem_succeeded(*api) ==> (r matches Ok(plan) && !plan.response.success
            && plan.response.name is None && plan.response.message@ == spec_refusal_message(
            *api,
            "Unlock failed"@,
        ) && plan.lua_script is None),
        spec_redeem_succeeded(*api) && spec_payload_text(*api) is None ==> (r matches Ok(plan)
            && plan.lua_script is None),
        spec_redeem_succeeded(*api) && spec_payload_text(*api) is Some ==> (forall|p: LuaPayload|
            decodes_to_script(spec_payload_text(*api)->0, p) ==> (match p {
                LuaPayload::Script(s) => r is Ok && r->Ok_0.lua_script is Some
                    && r->Ok_0.lua_script->0@ == s@,
                LuaPayload::BadBase64(e) => r matches Err(m) && m@ == "Base64 decode error: "@
                    + e@,
                LuaPayload::BadUtf8(e) => r matches Err(m) && m@ == "UTF-8 error: "@ + e@,
            })),
        spec_redeem_succeeded(*api) && r is Ok ==> {
            &&& r->Ok_0.response.success
            &&& opt_view(r->Ok_0.response.name) == opt_view(api.name)
            &&& r->Ok_0.response.message@ == "Unlock successful"@
        },
{
    if !redeem_succeeded(api) {
        return Ok(
            SingleUnlockPlan {
                lua_script: None,
                response: SingleUnlockResponse {
                    success: false,
                    name: None,
                    message: refusal_message(api, "Unlock failed"),
                },
            },
        );
    }
    let lua_script = match payload_text(api) {
        None => None,
        Some(text) => match decode_lua_payload(text.as_str()) {
            LuaPayload::Script(s) => Some(s),
            LuaPayload::BadBase64(e) => {
                return Err(concat("Base64 decode error: ", e.as_str()));
            },
            LuaPayload::BadUtf8(e) => {
                return Err(concat("UTF-8 error: ", e.as_str()));
            },
        },
    };
    Ok(
        SingleUnlockPlan {
            lua_script,
            response: SingleUnlockResponse {
                success: true,
                name: clone_opt(&api.name),
                message: String::from_str("Unlock successful"),
            },
        },
    )
}

/// "Write error: {detail}", the error of a single unlock whose script could
/// not be installed.
pub fn write_error_message(detail: &str) -> (m: String)
    ensures
        m@ == "Write error: "@ + detail@,
{
    concat("Write error: ", detail)
}

/// Collect the AppIDs of one page of the catalogue and decide whether to ask
/// for the next page. A missing or empty page ends the listing; so does the
/// last page (`total_pages`, one when the service does not say).
pub fn next_page(all_appids: &mut Vec<String>, page: u32, appids: Option<Vec<String>>, total_pages: Option<u32>) -> (next: Option<u32>)
    ensures
        appids is None || appids->0@.len() == 0 ==> next is None && final(all_appids)@ == old(
            all_appids,
        )@,
        appids is Some && appids->0@.len() > 0 ==> final(all_appids)@ == old(all_appids)@
            + appids->0@,
        appids is Some && appids->0@.len() > 0 ==> (next is Some <==> (page as int) < (
        match total_pages {
            Some(t) => t as int,
            None => 1,
        })),
        next matches Some(p) ==> p == page + 1,
{
    match appids {
        Some(list) => {
            if list.len() == 0 {
                return None;
            }
            let mut list = list;
            all_appids.append(&mut list);
            let total = total_pages.unwrap_or(1);
            if page >= total {
                None
            } else {
                Some(page + 1)
            }
        },
        None => None,
    }
}

/// What became of one game while unlocking every game.
#[derive(Debug, PartialEq)]
pub enum UnlockOutcome {
    NetworkError(String),
    ParseError,
    Skipped,
    BadBase64(String),
    BadUtf8(String),
    Written,
    WriteError(String),
}

/// One game and what became of it.
#[derive(Debug, PartialEq)]
pub struct GameUnlock {
    pub appid: String,
    pub outcome: UnlockOutcome,
}

/// What to do with the answer for one game while unlocking every game.
#[derive(Debug, PartialEq)]
pub enum UnlockPlan {
    Skip,
    Install(String),
    Fail(UnlockOutcome),
}

/// Decide what to do with the answer for one game: skip it when the code is
/// refused or carries no payload, install the decoded script, or fail.
pub fn plan_unlock(api: &ApiRedeemResponse) -> (plan: UnlockPlan)
    ensures
        !spec_redeem_succeeded(*api) || spec_payload_text(*api) is None ==> plan == UnlockPlan::Skip,
        spec_redeem_succeeded(*api) && spec_payload_text(*api) is Some ==> (forall|p: LuaPayload|
            decodes_to_script(spec_payload_text(*api)->0, p) ==> (match p {
                LuaPayload::Script(s) => plan matches UnlockPlan::Install(t) && t@ == s@,
                LuaPayload::BadBase64(e) => plan matches UnlockPlan::Fail(
                    UnlockOutcome::BadBase64(m),
                ) && m@ == e@,
                LuaPayload::BadUtf8(e) => plan matches UnlockPlan::Fail(UnlockOutcome::BadUtf8(m))
                    && m@ == e@,
            })),
{
    if !redeem_succeeded(api) {
        return UnlockPlan::Skip;
    }
    match payload_text(api) {
        None => UnlockPlan::Skip,
        Some(text) => match decode_lua_payload(text.as_str()) {
            LuaPayload::Script(s) => UnlockPlan::Install(s),
            LuaPayload::BadBase64(e) => UnlockPlan::Fail(UnlockOutcome::BadBase64(e)),
            LuaPayload::BadUtf8(e) => UnlockPlan::Fail(UnlockOutcome::BadUtf8(e)),
        },
    }
}

/// The error line reported for a game, if its outcome is an error.
pub open spec fn spec_unlock_error(appid: Seq<char>, outcome: UnlockOutcome) -> Option<Seq<char>> {
    match outcome {
        UnlockOutcome::NetworkError(e) => Some(appid + ": network error: "@ + e@),
        UnlockOutcome::ParseError => Some(appid + ": response parse error"@),
        UnlockOutcome::BadBase64(e) => Some(appid + ": base64 error: "@ + e@),
        UnlockOutcome::BadUtf8(e) => Some(appid + ": UTF-8 error: "@ + e@),
        UnlockOutcome::WriteError(e) => Some(appid + ": write error: "@ + e@),
        UnlockOutcome::Skipped => None,
        UnlockOutcome::Written => None,
    }
}

/// The error lines of a list of games, in order.
pub open spec fn spec_unlock_errors(games: Seq<GameUnlock>) -> Seq<Seq<char>>
    decreases games.len(),
{
    if games.len() == 0 {
        seq![]
    } else {
        let rest = spec_unlock_errors(games.drop_last());
        match spec_unlock_error(games.last().appid@, games.last().outcome) {
            Some(line) => rest.push(line),
            None => rest,
        }
    }
}

/// `text` begins with `prefix`.
pub open spec fn starts_with(text: Seq<char>, prefix: Seq<char>) -> bool {
    prefix.len() <= text.len() && text.take(prefix.len() as int) == prefix
}

/// The error line of a game begins with its AppID and `": "`.
pub proof fn lemma_error_line_names_game(appid: Seq<char>, outcome: UnlockOutcome)
    requires
        spec_unlock_error(appid, outcome) is Some,
    ensures
        starts_with(spec_unlock_error(appid, outcome)->0, appid + ": "@),
{
    reveal_strlit(": ");
    reveal_strlit(": network error: ");
    reveal_strlit(": response parse error");
    reveal_strlit(": base64 error: ");
    reveal_strlit(": UTF-8 error: ");
    reveal_strlit(": write error: ");
    let line = spec_unlock_error(appid, outcome)->0;
    let p = appid + ": "@;
    assert(line.take(p.len() as int) =~= p);
}

/// Every error line of a report on unlocking every game begins with the AppID
/// of one of the games and `": "`.
pub proof fn lemma_error_lines_name_their_games(games: Seq<GameUnlock>)
    ensures
        forall|i: int|
            0 <= i < spec_unlock_errors(games).len() ==> exists|j: int|
                0 <= j < games.len() && starts_with(
                    #[trigger] spec_unlock_errors(games)[i],
                    games[j].appid@ + ": "@,
                ),
    decreases games.len(),
{
    if games.len() > 0 {
        let rest = games.drop_last();
        lemma_error_lines_name_their_games(rest);
        let last = games.last();
        assert forall|i: int| 0 <= i < spec_unlock_errors(games).len() implies exists|j: int|
            0 <= j < games.len() && starts_with(
                #[trigger] spec_unlock_errors(games)[i],
                games[j].appid@ + ": "@,
            ) by {
            if i < spec_unlock_errors(rest).len() {
                assert(spec_unlock_errors(games)[i] == spec_unlock_errors(rest)[i]);
                let j = choose|j: int|
                    0 <= j < rest.len() && starts_with(
                        #[trigger] spec_unlock_errors(rest)[i],
                        rest[j].appid@ + ": "@,
                    );
                assert(games[j] == rest[j]);
            } else {
                lemma_error_line_names_game(last.appid@, last.outcome);
                assert(games[games.len() - 1] == last);
            }
        }
    }
}

/// How many games of a list have a given kind of outcome.
pub open spec fn count_outcomes(games: Seq<GameUnlock>, written: bool) -> nat
    decreases games.len(),
{
    if games.len() == 0 {
        0
    } else {
        count_outcomes(games.drop_last(), written) + if (written
            && games.last().outcome == UnlockOutcome::Written) || (!written
            && games.last().outcome == UnlockOutcome::Skipped) {
            1nat
        } else {
            0nat
        }
    }
}

fn unlock_error_line(appid: &str, outcome: &UnlockOutcome) -> (line: Option<String>)
    ensures
        opt_view(line) == spec_unlock_error(appid@, *outcome),
{
    match outcome {
        UnlockOutcome::NetworkError(e) => Some(concat3(appid, ": network error: ", e.as_str())),
        UnlockOutcome::ParseError => Some(concat(appid, ": response parse error")),
        UnlockOutcome::BadBase64(e) => Some(concat3(appid, ": base64 error: ", e.as_str())),
        UnlockOutcome::BadUtf8(e) => Some(concat3(appid, ": UTF-8 error: ", e.as_str())),
        UnlockOutcome::WriteError(e) => Some(concat3(appid, ": write error: ", e.as_str())),
        UnlockOutcome::Skipped => None,
        UnlockOutcome::Written => None,
    }
}

/// Report on unlocking every game: how many there were, how many scripts were
/// installed, how many games were skipped, and an error line for each of the others.
pub fn summarize_unlocks(games: &Vec<GameUnlock>) -> (progress: UnlockProgress)
    ensures
        progress.total == games@.len(),
        progress.written == count_outcomes(games@, true),
        progress.skipped == count_outcomes(games@, false),
        views(progress.errors@) == spec_unlock_errors(games@),
        progress.written + progress.skipped + progress.errors@.len() == progress.total,
{
    let n = games.len();
    let mut written: usize = 0;
    let mut skipped: usize = 0;
    let mut errors: Vec<String> = Vec::new();
    let mut i: usize = 0;
    while i < n
        invariant
            n == games@.len(),
            i <= n,
            written == count_outcomes(games@.take(i as int), true),
            skipped == count_outcomes(games@.take(i as int), false),
            views(errors@) == spec_unlock_errors(games@.take(i as int)),
            written + skipped + errors@.len() == i,
        decreases n - i,
    {
        let g = &games[i];
        proof {
            assert(games@.take(i as int + 1).drop_last() =~= games@.take(i as int));
            assert(games@.take(i as int + 1).last() == games@[i as int]);
        }
        match &g.outcome {
            UnlockOutcome::Written => {
                written = written + 1;
            },
            UnlockOutcome::Skipped => {
                skipped = skipped + 1;
            },
            _ => {
                let line = unlock_error_line(g.appid.as_str(), &g.outcome);
                if let Some(l) = line {
                    errors.push(l);
                    proof {
                        assert(views(errors@) =~= spec_unlock_errors(games@.take(i as int)).push(
                            l@,
                        ));
                    }
                }
            },
        }
        i = i + 1;
    }
    proof {
        assert(games@.take(n as int) =~= games@);
    }
    UnlockProgress { total: n, written, skipped, errors }
}

} // verus!
