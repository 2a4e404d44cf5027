use steam_box::redeem::{
    activate_precheck, activation_machine_id, activation_request, activation_status_failure,
    decode_lua_payload, next_page, plan_activation, plan_single_unlock, plan_unlock,
    redeem_succeeded, single_unlock_request, summarize_unlocks, unlock_request, unlock_single_precheck,
    unlock_status_failure, write_error_message, ApiRedeemResponse, GameUnlock, LuaPayload,
    UnlockOutcome, UnlockPlan,
};

fn answer() -> ApiRedeemResponse {
    ApiRedeemResponse {
        success: None,
        ok: None,
        lua: None,
        lua_b64: None,
        expiry: None,
        name: None,
        appid: None,
        message: None,
        error: None,
    }
}

#[test]
fn acceptance_flags() {
    let mut a = answer();
    assert!(!redeem_succeeded(&a));
    a.ok = Some(true);
    assert!(redeem_succeeded(&a));
    a.ok = Some(false);
    a.success = Some(true);
    assert!(redeem_succeeded(&a));
}

#[test]
fn lua_payload_decoding() {
    assert_eq!(decode_lua_payload("bG9jYWwgeCA9IDE="), LuaPayload::Script("local x = 1".to_string()));
    assert_eq!(
        decode_lua_payload("!!!!"),
        LuaPayload::BadBase64("Invalid symbol 33, offset 0.".to_string())
    );
    assert_eq!(
        decode_lua_payload("/w=="),
        LuaPayload::BadUtf8("invalid utf-8 sequence of 1 bytes from index 0".to_string())
    );
}

#[test]
fn blank_cdk_is_refused() {
    let r = activate_precheck(" \t\n").unwrap();
    assert!(!r.success);
    assert_eq!(r.message, "CDK cannot be empty");
    assert_eq!(r.expiry, None);
    assert!(activate_precheck("\u{3000}").is_some());
    assert!(activate_precheck(" ABC ").is_none());
}

#[test]
fn activation_request_fields() {
    assert_eq!(activation_machine_id(&Some("cached".to_string()), "ui"), "cached");
    assert_eq!(activation_machine_id(&None, "ui"), "ui");
    let req = activation_request("  ABC-123 ", "m");
    assert_eq!(req.cdk, "ABC-123");
    assert_eq!(req.machine, "m");
    let f = activation_status_failure("404 Not Found");
    assert!(!f.success);
    assert_eq!(f.message, "Server returned status 404 Not Found");
}

#[test]
fn activation_outcomes() {
    let mut a = answer();
    a.error = Some("bad code".to_string());
    let plan = plan_activation(&a).unwrap();
    assert!(!plan.response.success);
    assert_eq!(plan.response.message, "bad code");
    a.message = Some("expired".to_string());
    assert_eq!(plan_activation(&a).unwrap().response.message, "expired");
    let plan = plan_activation(&answer()).unwrap();
    assert_eq!(plan.response.message, "Activation failed");
    assert_eq!(plan.session_expiry, None);

    let mut ok = answer();
    ok.success = Some(true);
    let plan = plan_activation(&ok).unwrap();
    assert!(plan.response.success);
    assert_eq!(plan.response.message, "Activation successful");
    assert_eq!(plan.response.expiry, Some("2026-12-31".to_string()));
    assert_eq!(plan.session_expiry, Some("2026-12-31".to_string()));
    assert_eq!(plan.lua_script, None);

    ok.expiry = Some("2030-01-01".to_string());
    ok.lua = Some("bG9jYWwgeCA9IDE=".to_string());
    let plan = plan_activation(&ok).unwrap();
    assert_eq!(plan.lua_script, Some("local x = 1".to_string()));
    assert_eq!(plan.response.expiry, Some("2030-01-01".to_string()));

    ok.lua_b64 = Some("!!!!".to_string());
    assert_eq!(
        plan_activation(&ok),
        Err("Base64 decode error: Invalid symbol 33, offset 0.".to_string())
    );
    ok.lua_b64 = Some("/w==".to_string());
    assert_eq!(
        plan_activation(&ok),
        Err("UTF-8 error: invalid utf-8 sequence of 1 bytes from index 0".to_string())
    );
}

#[test]
fn single_unlock_outcomes() {
    assert_eq!(unlock_single_precheck("  ").unwrap().message, "AppID cannot be empty");
    assert!(unlock_single_precheck("730").is_none());
    let req = unlock_request("730");
    assert_eq!(req.cdk, "UNIVERSAL-730");
    assert_eq!(req.machine, "universal");
    let typed = single_unlock_request(" 730\t");
    assert_eq!(typed.cdk, "UNIVERSAL-730");
    assert_eq!(typed.machine, "universal");
    assert_eq!(steam_box::text::trimmed("\u{3000} a b \n"), "a b");
    assert_eq!(unlock_status_failure("500").message, "Server returned status 500");
    assert_eq!(write_error_message("IO error: denied"), "Write error: IO error: denied");

    let plan = plan_single_unlock(&answer()).unwrap();
    assert!(!plan.response.success);
    assert_eq!(plan.response.message, "Unlock failed");

    let mut ok = answer();
    ok.ok = Some(true);
    ok.name = Some("Game".to_string());
    ok.lua_b64 = Some("bG9jYWwgeCA9IDE=".to_string());
    let plan = plan_single_unlock(&ok).unwrap();
    assert!(plan.response.success);
    assert_eq!(plan.response.name, Some("Game".to_string()));
    assert_eq!(plan.response.message, "Unlock successful");
    assert_eq!(plan.lua_script, Some("local x = 1".to_string()));
}

#[test]
fn paging_through_the_catalogue() {
    let mut all = Vec::new();
    assert_eq!(next_page(&mut all, 1, Some(vec!["1".to_string(), "2".to_string()]), Some(3)), Some(2));
    assert_eq!(next_page(&mut all, 2, Some(vec!["3".to_string()]), Some(3)), Some(3));
    assert_eq!(next_page(&mut all, 3, Some(vec!["4".to_string()]), Some(3)), None);
    assert_eq!(all, vec!["1", "2", "3", "4"]);
    assert_eq!(next_page(&mut all, 1, Some(vec!["5".to_string()]), None), None);
    assert_eq!(all.len(), 5);
    assert_eq!(next_page(&mut all, 1, Some(vec![]), Some(9)), None);
    assert_eq!(next_page(&mut all, 1, None, Some(9)), None);
    assert_eq!(all.len(), 5);
}

#[test]
fn planning_each_game_of_a_full_unlock() {
    assert_eq!(plan_unlock(&answer()), UnlockPlan::Skip);
    let mut ok = answer();
    ok.success = Some(true);
    assert_eq!(plan_unlock(&ok), UnlockPlan::Skip);
    ok.lua = Some("bG9jYWwgeCA9IDE=".to_string());
    assert_eq!(plan_unlock(&ok), UnlockPlan::Install("local x = 1".to_string()));
    ok.lua = Some("!!!!".to_string());
    assert_eq!(
        plan_unlock(&ok),
        UnlockPlan::Fail(UnlockOutcome::BadBase64("Invalid symbol 33, offset 0.".to_string()))
    );
}

#[test]
fn full_unlock_report_accounts_for_every_game() {
    let games = vec![
        GameUnlock { appid: "1".to_string(), outcome: UnlockOutcome::Written },
        GameUnlock { appid: "2".to_string(), outcome: UnlockOutcome::Skipped },
        GameUnlock { appid: "3".to_string(), outcome: UnlockOutcome::NetworkError("timeout".to_string()) },
        GameUnlock { appid: "4".to_string(), outcome: UnlockOutcome::ParseError },
        GameUnlock { appid: "5".to_string(), outcome: UnlockOutcome::BadBase64("b".to_string()) },
        GameUnlock { appid: "6".to_string(), outcome: UnlockOutcome::BadUtf8("u".to_string()) },
        GameUnlock { appid: "7".to_string(), outcome: UnlockOutcome::WriteError("w".to_string()) },
        GameUnlock { appid: "8".to_string(), outcome: UnlockOutcome::Written },
    ];
    let p = summarize_unlocks(&games);
    assert_eq!(p.total, 8);
    assert_eq!(p.written, 2);
    assert_eq!(p.skipped, 1);
    assert_eq!(
        p.errors,
        vec![
            "3: network error: timeout",
            "4: response parse error",
            "5: base64 error: b",
            "6: UTF-8 error: u",
            "7: write error: w",
        ]
    );
    assert_eq!(p.written + p.skipped + p.errors.len(), p.total);
    for line in &p.errors {
        assert!(games.iter().any(|g| line.starts_with(&format!("{}: ", g.appid))));
    }
    let empty = summarize_unlocks(&vec![]);
    assert_eq!((empty.total, empty.written, empty.skipped, empty.errors.len()), (0, 0, 0, 0));
}

#[test]
fn unicode_white_space_is_trimmed() {
    let req = activation_request("\u{3000}\u{85}ABC\u{2028} ", "m");
    assert_eq!(req.cdk, "ABC");
    assert!(activate_precheck("\u{a0}\u{2009}\u{202f}").is_some());
    assert!(activate_precheck("\u{200b}").is_none());
}
